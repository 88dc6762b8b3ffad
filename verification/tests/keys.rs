use neko_cli::keys::{hex, payload_digest_hex, peer_public_key, unhex};

#[test]
fn hex_round_trips_bytes() {
    assert_eq!(hex(&[0x00, 0x0f, 0xa0, 0xff]), "000fa0ff");
    assert_eq!(hex(&[]), "");
    assert_eq!(unhex("000fA0ff"), Ok(vec![0x00, 0x0f, 0xa0, 0xff]));
    assert_eq!(unhex(""), Ok(vec![]));
    assert_eq!(unhex("abc"), Err("hex length"));
    assert_eq!(unhex("zz"), Err("invalid hex"));
    // A pair is read as Rust reads a hexadecimal u8, so `+f` is fifteen.
    assert_eq!(unhex("+f"), Ok(vec![15]));
    assert_eq!(unhex("-f"), Err("invalid hex"));
    assert_eq!(unhex("\u{e9}"), Err("invalid hex"));
    let bytes: Vec<u8> = (0..=255).collect();
    assert_eq!(unhex(&hex(&bytes)), Ok(bytes));
}

#[test]
fn peer_keys_are_32_bytes() {
    let key = "11".repeat(32);
    assert_eq!(peer_public_key(&key), Ok(vec![0x11; 32]));
    assert_eq!(peer_public_key("11"), Err("peer public key must be 32 bytes"));
    assert_eq!(peer_public_key("1"), Err("hex length"));
}

#[test]
fn payload_digest_is_sha256_hex() {
    assert_eq!(
        payload_digest_hex(b"abc", 3),
        Ok("ba7816bf8f01cfea414140de5dae2223b00361a396177a9cb410ff61f20015ad".to_string())
    );
    assert_eq!(
        payload_digest_hex(b"abc", 4),
        Err("payload file changed or exceeds bounded --bytes")
    );
    assert_eq!(
        payload_digest_hex(b"", 0),
        Err("payload file changed or exceeds bounded --bytes")
    );
    let big = vec![0u8; 1201];
    assert_eq!(
        payload_digest_hex(&big, 1201),
        Err("payload file changed or exceeds bounded --bytes")
    );
}
