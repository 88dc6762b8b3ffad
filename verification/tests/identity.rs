use neko_cli::identity::{identity_keys, identity_text, identity_text_sliceable};
use neko_cli::keys::hex_sliceable;
use neko_cli::multistream::identity_key_pair;

#[test]
fn identity_text_is_hex_colon_hex_newline() {
    assert_eq!(identity_text(&[0x00, 0xab], &[0xff]), "00ab:ff\n");
    assert_eq!(identity_text(&[], &[]), ":\n");
}

#[test]
fn identity_written_is_identity_read() {
    let private: Vec<u8> = (0u8..32).collect();
    let public: Vec<u8> = (100u8..132).collect();
    let text = identity_text(&private, &public);
    assert!(identity_text_sliceable(&text));
    assert_eq!(identity_keys(&text), Ok((private.clone(), public.clone())));
    assert_eq!(identity_key_pair(&text), Ok((private, public)));
}

#[test]
fn identity_reading_trims_white_space_and_accepts_upper_case() {
    assert_eq!(identity_keys(" \t0A0b:FF\r\n\u{3000}"), Ok((vec![0x0a, 0x0b], vec![0xff])));
    assert_eq!(identity_keys("+1:+f"), Ok((vec![1], vec![15])));
}

#[test]
fn identity_reading_fails_in_field_order() {
    assert_eq!(identity_keys("abc:zz"), Err("hex length"));
    assert_eq!(identity_keys("zz:abc"), Err("invalid hex"));
    assert_eq!(identity_keys("aa:bb:cc"), Err("invalid identity file"));
    assert_eq!(identity_keys("aabb"), Err("invalid identity file"));
    assert_eq!(identity_keys(""), Err("invalid identity file"));
    assert_eq!(identity_keys("aa:"), Ok((vec![0xaa], vec![])));
}

#[test]
fn identity_cutting_is_checked_up_to_the_first_bad_field() {
    // "aé" is three bytes: refused for its length, nothing is cut
    assert!(identity_text_sliceable("aé:00"));
    // "zza" + "é" + "b": the first pair already fails, so no character is cut
    assert!(identity_text_sliceable("zzaéb:00"));
    // "a" + "€" is four bytes: the first pair would cut the euro sign
    assert!(!identity_text_sliceable("a€:00"));
    assert!(!identity_text_sliceable("00:a€"));
    // a bad first field stops reading before the second
    assert!(identity_text_sliceable("zz:a€"));
    assert_eq!(identity_keys("zz:a€"), Err("invalid hex"));
    assert!(hex_sliceable("éé"));
    assert!(!hex_sliceable("a€"));
    assert!(hex_sliceable("a€b"));
}

#[test]
fn multistream_identity_needs_two_32_byte_keys() {
    let key = "00".repeat(32);
    assert_eq!(identity_key_pair(&key), Err("key must be 32-byte hex"));
    assert_eq!(identity_key_pair(&format!("{key}:{key}:{key}")), Err("invalid identity file"));
    assert_eq!(identity_key_pair(&format!("{}:{key}", "zz".repeat(32))), Err("invalid key hex"));
    assert_eq!(identity_key_pair("aa:bb"), Err("key must be 32-byte hex"));
    assert_eq!(identity_key_pair(&format!("  {key}:{key}  ")), Ok((vec![0; 32], vec![0; 32])));
}
