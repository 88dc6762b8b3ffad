//! Hexadecimal key text and payload digests.
use vstd::prelude::*;
use crate::text::{hex_char, hex_digit, hex_value, hex_value_of, is_white_space, string_of};
use vstd::utf8::encode_utf8;
use sha2::{Digest, Sha256};
use vstd::string::StringSliceAdditionalSpecFns;

verus! {

/// The lower-case hexadecimal text of `bytes`: two digits per byte.
pub open spec fn hex_text(bytes: Seq<u8>) -> Seq<char>
    decreases bytes.len(),
{
    if bytes.len() == 0 {
        Seq::empty()
    } else {
        hex_text(bytes.drop_last()) + seq![
            hex_char((bytes.last() / 16) as nat),
            hex_char((bytes.last() % 16) as nat),
        ]
    }
}

/// Renders bytes as lower-case hexadecimal text.
pub fn hex(b: &[u8]) -> (s: String)
    ensures
        s@ == hex_text(b@),
{
    let mut out: Vec<char> = Vec::new();
    let mut i: usize = 0;
    while i < b.len()
        invariant
            i <= b@.len(),
            out@ == hex_text(b@.take(i as int)),
        decreases b@.len() - i,
    {
        let x = b[i];
        out.push(hex_digit(x / 16));
        out.push(hex_digit(x % 16));
        proof {
            assert(b@.take(i + 1).drop_last() =~= b@.take(i as int));
            assert(b@.take(i + 1).last() == x);
        }
        i = i + 1;
    }
    assert(b@.take(b@.len() as int) =~= b@);
    string_of(out.as_slice())
}

/// The byte that a two-byte digit pair denotes in base 16, read as Rust's
/// standard library reads a `u8`: two hexadecimal digits, or `+` and one digit.
pub open spec fn hex_pair(hi: u8, lo: u8) -> Option<nat> {
    if hi == 43 {
        hex_value(lo)
    } else {
        match (hex_value(hi), hex_value(lo)) {
            (Some(a), Some(b)) => Some(a * 16 + b),
            _ => None,
        }
    }
}

/// Whether every two-byte pair of `b` denotes a byte.
pub open spec fn pairs_valid(b: Seq<u8>) -> bool {
    forall|k: int| 0 <= k < b.len() / 2 ==> (#[trigger] hex_pair(b[2 * k], b[2 * k + 1])) is Some
}

/// The bytes that the pairs of `b` denote.
pub open spec fn pairs_value(b: Seq<u8>) -> Seq<u8> {
    Seq::new(b.len() / 2, |k: int| hex_pair(b[2 * k], b[2 * k + 1])->0 as u8)
}

fn pair_value(hi: u8, lo: u8) -> (r: Option<u8>)
    ensures
        (r is Some) == (hex_pair(hi, lo) is Some),
        r matches Some(v) ==> v == hex_pair(hi, lo)->0,
{
    if hi == 43 {
        return hex_value_of(lo);
    }
    match (hex_value_of(hi), hex_value_of(lo)) {
        (Some(a), Some(b)) => Some(a * 16 + b),
        _ => None,
    }
}

/// Decodes the byte pairs of `b`, or fails if a pair denotes no byte.
pub fn decode_pairs(b: &[u8]) -> (r: Option<Vec<u8>>)
    requires
        b@.len() % 2 == 0,
    ensures
        (r is Some) == pairs_valid(b@),
        r matches Some(v) ==> v@ == pairs_value(b@),
{
    let mut out: Vec<u8> = Vec::new();
    let mut i: usize = 0;
    while i < b.len()
        invariant
            b@.len() % 2 == 0,
            i % 2 == 0,
            i <= b@.len(),
            out@.len() == i / 2,
            forall|k: int| 0 <= k < i / 2 ==> (#[trigger] hex_pair(b@[2 * k], b@[2 * k + 1])) is Some,
            forall|k: int| 0 <= k < i / 2 ==> out@[k] == hex_pair(b@[2 * k], b@[2 * k + 1])->0,
        decreases b@.len() - i,
    {
        match pair_value(b[i], b[i + 1]) {
            Some(v) => out.push(v),
            None => {
                assert(!(hex_pair(b@[2 * (i / 2) as int], b@[2 * (i / 2) as int + 1]) is Some));
                return None;
            },
        }
        i = i + 2;
    }
    assert(out@ =~= pairs_value(b@));
    Some(out)
}

/// Whether the pairs of `b` before pair `k` all denote bytes.
pub open spec fn pairs_valid_before(b: Seq<u8>, k: int) -> bool {
    forall|j: int| 0 <= j < k ==> (#[trigger] hex_pair(b[2 * j], b[2 * j + 1])) is Some
}

/// Whether pair `k` of `b` ends on a character boundary.
pub open spec fn pair_ends_on_boundary(b: Seq<u8>, k: int) -> bool {
    vstd::utf8::is_char_boundary(b, 2 * k + 2)
}

/// Whether text of the bytes `b` can be cut into two-byte pairs as far as
/// decoding reaches: every pair up to the first one that denotes no byte
/// ends on a character boundary. (Cutting text elsewhere is an error of the
/// program, not of its input.)
pub open spec fn pairs_sliceable(b: Seq<u8>) -> bool {
    forall|k: int|
        0 <= k < b.len() / 2 && pairs_valid_before(b, k) ==> #[trigger] pair_ends_on_boundary(b, k)
}

/// Whether `s` can be decoded as hexadecimal text without cutting a character.
pub fn hex_sliceable(s: &str) -> (r: bool)
    ensures
        r == (s.spec_bytes().len() % 2 == 0 ==> pairs_sliceable(s.spec_bytes())),
{
    let b = s.as_bytes();
    if b.len() % 2 != 0 {
        return true;
    }
    let mut k: usize = 0;
    while k < b.len() / 2
        invariant
            b@ == s.spec_bytes(),
            b@.len() % 2 == 0,
            k <= b@.len() / 2,
            pairs_valid_before(b@, k as int),
            forall|m: int| 0 <= m < k ==> #[trigger] pair_ends_on_boundary(b@, m),
        decreases b@.len() / 2 - k,
    {
        if !s.is_char_boundary(2 * k + 2) {
            assert(!pair_ends_on_boundary(b@, k as int));
            return false;
        }
        if pair_value(b[2 * k], b[2 * k + 1]).is_none() {
            assert forall|m: int|
                0 <= m < b@.len() / 2 && pairs_valid_before(b@, m) implies #[trigger] pair_ends_on_boundary(b@, m) by {
                if m > k {
                    assert(hex_pair(b@[2 * k as int], b@[2 * k as int + 1]) is Some);
                }
            }
            return true;
        }
        proof {
            assert forall|j: int| 0 <= j < k + 1 implies (#[trigger] hex_pair(b@[2 * j], b@[2 * j + 1])) is Some by {
                if j < k {
                    assert(pairs_valid_before(b@, k as int));
                }
            }
        }
        k = k + 1;
    }
    true
}

/// Decodes hexadecimal text: it must have an even number of bytes, and each
/// pair must denote a byte.
pub fn unhex(s: &str) -> (r: Result<Vec<u8>, &'static str>)
    requires
        s.spec_bytes().len() % 2 == 0 ==> pairs_sliceable(s.spec_bytes()),
    ensures
        s.spec_bytes().len() % 2 == 1 ==> (r matches Err(e) && e@ == "hex length"@),
        s.spec_bytes().len() % 2 == 0 && pairs_valid(s.spec_bytes()) ==> (r matches Ok(v) && v@
            == pairs_value(s.spec_bytes())),
        s.spec_bytes().len() % 2 == 0 && !pairs_valid(s.spec_bytes()) ==> (r matches Err(e) && e@
            == "invalid hex"@),
{
    let b = s.as_bytes();
    if b.len() % 2 != 0 {
        return Err("hex length");
    }
    match decode_pairs(b) {
        Some(v) => Ok(v),
        None => Err("invalid hex"),
    }
}

/// A peer's public key: hexadecimal text of exactly 32 bytes.
pub fn peer_public_key(value: &str) -> (r: Result<Vec<u8>, &'static str>)
    requires
        value.spec_bytes().len() % 2 == 0 ==> pairs_sliceable(value.spec_bytes()),
    ensures
        value.spec_bytes().len() % 2 == 1 ==> (r matches Err(e) && e@ == "hex length"@),
        value.spec_bytes().len() % 2 == 0 && !pairs_valid(value.spec_bytes()) ==> (r matches Err(
            e,
        ) && e@ == "invalid hex"@),
        value.spec_bytes().len() % 2 == 0 && pairs_valid(value.spec_bytes()) ==> (if value.spec_bytes().len()
            == 64 {
            r matches Ok(v) && v@ == pairs_value(value.spec_bytes())
        } else {
            r matches Err(e) && e@ == "peer public key must be 32 bytes"@
        }),
{
    let key = unhex(value)?;
    if key.len() != 32 {
        return Err("peer public key must be 32 bytes");
    }
    Ok(key)
}

/// The SHA-256 digest of some bytes.
pub uninterp spec fn sha256(data: Seq<u8>) -> Seq<u8>;

/// `sha2::Sha256::digest`: the SHA-256 digest of `data`, 32 bytes long.
#[verifier::external_body]
fn sha256_digest(data: &[u8]) -> (d: Vec<u8>)
    ensures
        d@ == sha256(data@),
        d@.len() == 32,
{
    Sha256::digest(data).to_vec()
}

/// The lower-case hexadecimal SHA-256 digest of a benchmark payload that
/// must hold exactly `bytes` bytes, at least one and at most 1200.
pub fn payload_digest_hex(payload: &[u8], bytes: usize) -> (r: Result<String, &'static str>)
    ensures
        (payload@.len() != bytes || payload@.len() == 0 || payload@.len() > 1200) ==> (r matches Err(
            e,
        ) && e@ == "payload file changed or exceeds bounded --bytes"@),
        !(payload@.len() != bytes || payload@.len() == 0 || payload@.len() > 1200) ==> (r matches Ok(
            h,
        ) && h@ == hex_text(sha256(payload@))),
{
    if payload.len() != bytes || payload.len() == 0 || payload.len() > 1200 {
        return Err("payload file changed or exceeds bounded --bytes");
    }
    let digest = sha256_digest(payload);
    Ok(hex(digest.as_slice()))
}

proof fn lemma_hex_char(d: nat)
    requires
        d < 16,
    ensures
        '\0' <= hex_char(d) <= '\u{7f}',
        hex_value(hex_char(d) as u8) == Some(d),
        !is_white_space(hex_char(d)),
        hex_char(d) != ':',
{
}

proof fn lemma_hex_text_shape(a: Seq<u8>)
    ensures
        hex_text(a).len() == 2 * a.len(),
        forall|k: int|
            #![trigger a[k]]
            0 <= k < a.len() ==> hex_text(a)[2 * k] == hex_char((a[k] / 16) as nat) && hex_text(
                a,
            )[2 * k + 1] == hex_char((a[k] % 16) as nat),
    decreases a.len(),
{
    if a.len() > 0 {
        let p = a.drop_last();
        lemma_hex_text_shape(p);
        assert forall|k: int|
            #![trigger a[k]]
            0 <= k < a.len() implies hex_text(a)[2 * k] == hex_char((a[k] / 16) as nat) && hex_text(
                a,
            )[2 * k + 1] == hex_char((a[k] % 16) as nat) by {
            if k < p.len() {
                assert(p[k] == a[k]);
            }
        }
    }
}

/// Every character of hexadecimal text is a lower-case digit: ASCII, no
/// white space and no colon.
pub proof fn lemma_hex_text_chars(a: Seq<u8>)
    ensures
        forall|i: int|
            0 <= i < hex_text(a).len() ==> {
                let c = #[trigger] hex_text(a)[i];
                &&& '\0' <= c <= '\u{7f}'
                &&& !is_white_space(c)
                &&& c != ':'
            },
{
    lemma_hex_text_shape(a);
    assert forall|i: int| 0 <= i < hex_text(a).len() implies {
        let c = #[trigger] hex_text(a)[i];
        &&& '\0' <= c <= '\u{7f}'
        &&& !is_white_space(c)
        &&& c != ':'
    } by {
        let k = i / 2;
        assert(a[k] == a[k]);
        lemma_hex_char((a[k] / 16) as nat);
        lemma_hex_char((a[k] % 16) as nat);
    }
}

/// Decoding the hexadecimal text of some bytes gives those bytes back: the
/// text has two ASCII bytes per byte, every pair denotes a byte, and the text
/// can be cut into pairs anywhere.
pub proof fn law_hex_round_trip(a: Seq<u8>)
    ensures
        encode_utf8(hex_text(a)).len() == 2 * a.len(),
        pairs_valid(encode_utf8(hex_text(a))),
        pairs_value(encode_utf8(hex_text(a))) == a,
        pairs_sliceable(encode_utf8(hex_text(a))),
{
    let t = hex_text(a);
    lemma_hex_text_shape(a);
    lemma_hex_text_chars(a);
    assert(vstd::utf8::is_ascii_chars(t));
    vstd::utf8::is_ascii_chars_encode_utf8(t);
    let b = encode_utf8(t);
    assert forall|k: int| 0 <= k < b.len() / 2 implies (#[trigger] hex_pair(b[2 * k], b[2 * k + 1]))
        == Some(a[k] as nat) by {
        assert(t[2 * k] as u8 == b[2 * k]);
        assert(t[2 * k + 1] as u8 == b[2 * k + 1]);
        lemma_hex_char((a[k] / 16) as nat);
        lemma_hex_char((a[k] % 16) as nat);
        assert(b[2 * k] != 43u8);
    }
    assert(pairs_valid(b));
    assert(pairs_value(b) =~= a);
    vstd::utf8::encode_utf8_valid_utf8(t);
    assert forall|k: int|
        0 <= k < b.len() / 2 && pairs_valid_before(b, k) implies #[trigger] pair_ends_on_boundary(
        b,
        k,
    ) by {
        if 2 * k + 2 < b.len() {
            assert(t[2 * k + 2] as u8 == b[2 * k + 2]);
            vstd::utf8::is_char_boundary_iff_not_is_continuation_byte(b, 2 * k + 2);
        } else {
            vstd::utf8::is_char_boundary_start_end_of_seq(b);
        }
    }
}

} // verus!
