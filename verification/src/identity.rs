//! The identity file: one line holding the private and the public key as
//! lower-case hexadecimal text, separated by a colon. The probe writes it
//! once and reads it back on every later run; the multi-stream runner reads
//! the same file with its stricter 32-byte key rule.
use vstd::prelude::*;
use vstd::string::StringSliceAdditionalSpecFns;
use vstd::utf8::encode_utf8;
use crate::keys::{
    hex, hex_sliceable, hex_text, law_hex_round_trip, lemma_hex_text_chars, pairs_sliceable,
    pairs_valid, pairs_value, unhex,
};
use crate::text::{chars_of, is_white_space, push_str, string_of};

verus! {

/// `s` without its leading white space.
pub open spec fn trim_start(s: Seq<char>) -> Seq<char>
    decreases s.len(),
{
    if s.len() > 0 && is_white_space(s[0]) {
        trim_start(s.drop_first())
    } else {
        s
    }
}

/// `s` without its trailing white space.
pub open spec fn trim_end(s: Seq<char>) -> Seq<char>
    decreases s.len(),
{
    if s.len() > 0 && is_white_space(s.last()) {
        trim_end(s.drop_last())
    } else {
        s
    }
}

/// `s` without leading and trailing white space.
pub open spec fn trim(s: Seq<char>) -> Seq<char> {
    trim_end(trim_start(s))
}

/// The pieces of `s` between the occurrences of `sep`: one more piece than
/// there are separators, empty pieces included.
pub open spec fn split_on(s: Seq<char>, sep: char) -> Seq<Seq<char>>
    decreases s.len(),
{
    if s.len() == 0 {
        seq![Seq::empty()]
    } else {
        let p = split_on(s.drop_last(), sep);
        if s.last() == sep {
            p.push(Seq::empty())
        } else {
            p.update(p.len() - 1, p.last().push(s.last()))
        }
    }
}

/// The fields of an identity file's text: its trimmed text cut at each colon.
pub open spec fn identity_fields(text: Seq<char>) -> Seq<Seq<char>> {
    split_on(trim(text), ':')
}

/// One hexadecimal field decoded as the probe decodes it: an odd number of
/// bytes, or a pair that denotes no byte, is refused.
pub open spec fn unhex_of(field: Seq<char>) -> Result<Seq<u8>, Seq<char>> {
    let b = encode_utf8(field);
    if b.len() % 2 == 1 {
        Err("hex length"@)
    } else if pairs_valid(b) {
        Ok(pairs_value(b))
    } else {
        Err("invalid hex"@)
    }
}

/// The fields decoded in order, failing at the first that does not decode.
pub open spec fn decode_fields(fields: Seq<Seq<char>>) -> Result<Seq<Seq<u8>>, Seq<char>>
    decreases fields.len(),
{
    if fields.len() == 0 {
        Ok(Seq::empty())
    } else {
        match decode_fields(fields.drop_last()) {
            Err(m) => Err(m),
            Ok(vs) => match unhex_of(fields.last()) {
                Err(m) => Err(m),
                Ok(v) => Ok(vs.push(v)),
            },
        }
    }
}

/// The key pair that the probe reads from an identity file: every field
/// decodes, and there are exactly two.
pub open spec fn identity_keys_of(text: Seq<char>) -> Result<(Seq<u8>, Seq<u8>), Seq<char>> {
    match decode_fields(identity_fields(text)) {
        Err(m) => Err(m),
        Ok(vs) => if vs.len() != 2 {
            Err("invalid identity file"@)
        } else {
            Ok((vs[0], vs[1]))
        },
    }
}

/// Decoding fields gives one value per field, each field's own value.
pub proof fn lemma_decode_fields_each(fields: Seq<Seq<char>>)
    ensures
        decode_fields(fields) matches Ok(vs) ==> vs.len() == fields.len() && forall|k: int|
            0 <= k < fields.len() ==> unhex_of(#[trigger] fields[k]) == Ok::<Seq<u8>, Seq<char>>(
                vs[k],
            ),
    decreases fields.len(),
{
    if fields.len() > 0 {
        let init = fields.drop_last();
        lemma_decode_fields_each(init);
        if decode_fields(fields) is Ok {
            assert forall|k: int| 0 <= k < fields.len() implies unhex_of(#[trigger] fields[k])
                == Ok::<Seq<u8>, Seq<char>>(decode_fields(fields)->Ok_0[k]) by {
                if k < init.len() {
                    assert(fields[k] == init[k]);
                }
            }
        }
    }
}

/// An identity file holds exactly two fields, the private and the public
/// key, each the bytes its hexadecimal text denotes: a file read
/// successfully has two fields and the keys are what they decode to.
pub proof fn law_identity_file_has_two_keys(text: Seq<char>)
    ensures
        identity_keys_of(text) matches Ok((p, q)) ==> {
            &&& identity_fields(text).len() == 2
            &&& unhex_of(identity_fields(text)[0]) == Ok::<Seq<u8>, Seq<char>>(p)
            &&& unhex_of(identity_fields(text)[1]) == Ok::<Seq<u8>, Seq<char>>(q)
        },
{
    lemma_decode_fields_each(identity_fields(text));
}

/// Whether decoding the first `n` fields in order cuts no character: each
/// field that decoding reaches, if it has an even number of bytes, can be
/// cut into pairs.
#[verifier::opaque]
pub open spec fn fields_sliceable(f: Seq<Seq<char>>, n: int) -> bool {
    forall|k: int|
        0 <= k < n && decode_fields(f.take(k)) is Ok && #[trigger] encode_utf8(f[k]).len() % 2 == 0
            ==> pairs_sliceable(encode_utf8(f[k]))
}

/// Whether reading `text` as an identity file cuts no character.
pub open spec fn identity_sliceable(text: Seq<char>) -> bool {
    fields_sliceable(identity_fields(text), identity_fields(text).len() as int)
}

/// The text the probe writes for a key pair.
pub open spec fn identity_text_of(private: Seq<u8>, public: Seq<u8>) -> Seq<char> {
    hex_text(private) + ":"@ + hex_text(public) + "\n"@
}

fn is_white_space_char(c: char) -> (r: bool)
    ensures
        r == is_white_space(c),
{
    ('\u{9}' <= c && c <= '\u{d}') || c == ' ' || c == '\u{85}' || c == '\u{a0}' || c == '\u{1680}'
        || ('\u{2000}' <= c && c <= '\u{200a}') || c == '\u{2028}' || c == '\u{2029}' || c
        == '\u{202f}' || c == '\u{205f}' || c == '\u{3000}'
}

proof fn lemma_trim_start(s: Seq<char>, i: int)
    requires
        0 <= i <= s.len(),
        forall|k: int| 0 <= k < i ==> is_white_space(#[trigger] s[k]),
        i < s.len() ==> !is_white_space(s[i]),
    ensures
        trim_start(s) == s.skip(i),
    decreases i,
{
    if i > 0 {
        assert(is_white_space(s[0]));
        lemma_trim_start(s.drop_first(), i - 1);
        assert(s.drop_first().skip(i - 1) =~= s.skip(i));
    } else {
        assert(s.skip(0) =~= s);
    }
}

proof fn lemma_trim_end(s: Seq<char>, j: int)
    requires
        0 <= j <= s.len(),
        forall|k: int| j <= k < s.len() ==> is_white_space(#[trigger] s[k]),
        j > 0 ==> !is_white_space(s[j - 1]),
    ensures
        trim_end(s) == s.take(j),
    decreases s.len() - j,
{
    if j < s.len() {
        assert(is_white_space(s.last()));
        lemma_trim_end(s.drop_last(), j);
        assert(s.drop_last().take(j) =~= s.take(j));
    } else {
        assert(s.take(j) =~= s);
    }
}

proof fn lemma_split_on_len(s: Seq<char>, sep: char)
    ensures
        split_on(s, sep).len() >= 1,
    decreases s.len(),
{
    if s.len() > 0 {
        lemma_split_on_len(s.drop_last(), sep);
    }
}

/// The trimmed text of `text`, cut at each colon.
pub(crate) fn identity_field_strings(text: &str) -> (fields: Vec<String>)
    ensures
        fields@.len() == identity_fields(text@).len(),
        fields@.len() >= 1,
        forall|k: int| 0 <= k < fields@.len() ==> (#[trigger] fields@[k])@ == identity_fields(text@)[k],
{
    proof {
        lemma_split_on_len(trim(text@), ':');
    }
    let cs = chars_of(text);
    let mut start: usize = 0;
    while start < cs.len() && is_white_space_char(cs[start])
        invariant
            cs@ == text@,
            start <= cs@.len(),
            forall|k: int| 0 <= k < start ==> is_white_space(#[trigger] cs@[k]),
        decreases cs@.len() - start,
    {
        start = start + 1;
    }
    proof {
        lemma_trim_start(cs@, start as int);
    }
    let ghost t0 = cs@.skip(start as int);
    let mut end: usize = cs.len();
    while end > start && is_white_space_char(cs[end - 1])
        invariant
            cs@ == text@,
            t0 == cs@.skip(start as int),
            start <= end <= cs@.len(),
            forall|k: int| end - start <= k < t0.len() ==> is_white_space(#[trigger] t0[k]),
        decreases end,
    {
        assert(t0[end - 1 - start] == cs@[end - 1]);
        end = end - 1;
    }
    proof {
        if end > start {
            assert(t0[end - start - 1] == cs@[end - 1]);
        }
        lemma_trim_end(t0, end - start);
    }
    let ghost t = t0.take(end - start);
    assert(t == trim(text@));
    let mut fields: Vec<String> = Vec::new();
    let mut cur: Vec<char> = Vec::new();
    let mut i: usize = start;
    assert(t.take(0) =~= Seq::<char>::empty());
    while i < end
        invariant
            cs@ == text@,
            t == cs@.subrange(start as int, end as int),
            start <= i <= end <= cs@.len(),
            split_on(t.take(i - start), ':').len() == fields@.len() + 1,
            forall|k: int|
                0 <= k < fields@.len() ==> (#[trigger] fields@[k])@ == split_on(
                    t.take(i - start),
                    ':',
                )[k],
            cur@ == split_on(t.take(i - start), ':').last(),
        decreases end - i,
    {
        let c = cs[i];
        let ghost before = t.take(i - start);
        proof {
            assert(t.take(i + 1 - start).drop_last() =~= before);
            assert(t.take(i + 1 - start).last() == c);
        }
        if c == ':' {
            fields.push(string_of(cur.as_slice()));
            cur = Vec::new();
        } else {
            cur.push(c);
        }
        i = i + 1;
    }
    assert(t.take(end - start) =~= t);
    fields.push(string_of(cur.as_slice()));
    fields
}

proof fn lemma_decode_fields_step(f: Seq<Seq<char>>, k: int)
    requires
        0 <= k < f.len(),
    ensures
        decode_fields(f.take(k + 1)) == (match decode_fields(f.take(k)) {
            Err(m) => Err(m),
            Ok(vs) => match unhex_of(f[k]) {
                Err(m) => Err(m),
                Ok(v) => Ok(vs.push(v)),
            },
        }),
{
    assert(f.take(k + 1).drop_last() =~= f.take(k));
}

proof fn lemma_decode_fields_err(f: Seq<Seq<char>>, k: int, m: Seq<char>)
    requires
        0 <= k <= f.len(),
        decode_fields(f.take(k)) == Err::<Seq<Seq<u8>>, Seq<char>>(m),
    ensures
        decode_fields(f) == Err::<Seq<Seq<u8>>, Seq<char>>(m),
    decreases f.len() - k,
{
    if k < f.len() {
        lemma_decode_fields_step(f, k);
        lemma_decode_fields_err(f, k + 1, m);
    } else {
        assert(f.take(k) =~= f);
    }
}

/// The private and public key of an identity file's text, as the probe reads
/// them: the trimmed text is cut at each colon, every field is decoded as
/// hexadecimal in order, and there must be exactly two fields.
pub fn identity_keys(text: &str) -> (r: Result<(Vec<u8>, Vec<u8>), &'static str>)
    requires
        identity_sliceable(text@),
    ensures
        match identity_keys_of(text@) {
            Ok((p, q)) => r matches Ok((a, b)) && a@ == p && b@ == q,
            Err(m) => r matches Err(e) && e@ == m,
        },
{
    let fields = identity_field_strings(text);
    let ghost f = identity_fields(text@);
    let mut keys: Vec<Vec<u8>> = Vec::new();
    let ghost mut vs: Seq<Seq<u8>> = Seq::empty();
    let mut k: usize = 0;
    assert(f.take(0) =~= Seq::<Seq<char>>::empty());
    while k < fields.len()
        invariant
            f == identity_fields(text@),
            identity_sliceable(text@),
            fields@.len() == f.len(),
            forall|j: int| 0 <= j < fields@.len() ==> (#[trigger] fields@[j])@ == f[j],
            k <= fields@.len(),
            decode_fields(f.take(k as int)) == Ok::<Seq<Seq<u8>>, Seq<char>>(vs),
            vs.len() == keys@.len(),
            forall|j: int| 0 <= j < keys@.len() ==> (#[trigger] keys@[j])@ == vs[j],
        decreases fields@.len() - k,
    {
        let field = fields[k].as_str();
        proof {
            lemma_decode_fields_step(f, k as int);
            assert(field@ == f[k as int]);
            if encode_utf8(f[k as int]).len() % 2 == 0 {
                lemma_field_sliceable(f, f.len() as int, k as int);
            }
        }
        match unhex(field) {
            Ok(v) => {
                let ghost before = keys@;
                keys.push(v);
                proof {
                    assert forall|j: int| 0 <= j < keys@.len() implies (#[trigger] keys@[j])@
                        == vs.push(v@)[j] by {
                        if j < before.len() {
                            assert(keys@[j] == before[j]);
                        }
                    }
                    vs = vs.push(v@);
                }
            },
            Err(e) => {
                proof {
                    lemma_decode_fields_err(f, k + 1, e@);
                }
                return Err(e);
            },
        }
        k = k + 1;
    }
    assert(f.take(fields@.len() as int) =~= f);
    if keys.len() != 2 {
        return Err("invalid identity file");
    }
    let public = keys.pop().unwrap();
    let private = keys.pop().unwrap();
    Ok((private, public))
}

/// The text the probe writes for a new key pair: both keys in lower-case
/// hexadecimal, separated by a colon, ended by a newline.
pub fn identity_text(private: &[u8], public: &[u8]) -> (s: String)
    ensures
        s@ == identity_text_of(private@, public@),
{
    let mut out: Vec<char> = Vec::new();
    push_str(&mut out, hex(private).as_str());
    out.push(':');
    push_str(&mut out, hex(public).as_str());
    out.push('\n');
    proof {
        reveal_strlit(":");
        reveal_strlit("\n");
        assert(out@ =~= identity_text_of(private@, public@));
    }
    string_of(out.as_slice())
}

proof fn lemma_field_sliceable(f: Seq<Seq<char>>, n: int, k: int)
    requires
        fields_sliceable(f, n),
        0 <= k < n,
        decode_fields(f.take(k)) is Ok,
        encode_utf8(f[k]).len() % 2 == 0,
    ensures
        pairs_sliceable(encode_utf8(f[k])),
{
    reveal(fields_sliceable);
}

proof fn lemma_fields_sliceable_step(f: Seq<Seq<char>>, k: int)
    requires
        0 <= k,
        fields_sliceable(f, k),
        decode_fields(f.take(k)) is Ok && encode_utf8(f[k]).len() % 2 == 0 ==> pairs_sliceable(
            encode_utf8(f[k]),
        ),
    ensures
        fields_sliceable(f, k + 1),
{
    reveal(fields_sliceable);
}

proof fn lemma_fields_not_sliceable(f: Seq<Seq<char>>, n: int, k: int)
    requires
        0 <= k < n,
        decode_fields(f.take(k)) is Ok,
        encode_utf8(f[k]).len() % 2 == 0,
        !pairs_sliceable(encode_utf8(f[k])),
    ensures
        !fields_sliceable(f, n),
{
    reveal(fields_sliceable);
}

proof fn lemma_fields_sliceable_after_failure(f: Seq<Seq<char>>, k: int)
    requires
        0 <= k < f.len(),
        decode_fields(f.take(k + 1)) is Err,
        fields_sliceable(f, k + 1),
    ensures
        fields_sliceable(f, f.len() as int),
{
    reveal(fields_sliceable);
    let m = decode_fields(f.take(k + 1))->Err_0;
    assert forall|j: int|
        0 <= j < f.len() && decode_fields(f.take(j)) is Ok && #[trigger] encode_utf8(f[j]).len() % 2
            == 0 implies pairs_sliceable(encode_utf8(f[j])) by {
        if j > k {
            assert(f.take(j).take(k + 1) =~= f.take(k + 1));
            lemma_decode_fields_err(f.take(j), k + 1, m);
        }
    }
}

/// Whether reading `text` as an identity file cuts no character.
pub fn identity_text_sliceable(text: &str) -> (r: bool)
    ensures
        r == identity_sliceable(text@),
{
    let fields = identity_field_strings(text);
    let ghost f = identity_fields(text@);
    let mut k: usize = 0;
    assert(f.take(0) =~= Seq::<Seq<char>>::empty());
    assert(fields_sliceable(f, 0)) by {
        reveal(fields_sliceable);
    }
    while k < fields.len()
        invariant
            f == identity_fields(text@),
            fields@.len() == f.len(),
            forall|j: int| 0 <= j < fields@.len() ==> (#[trigger] fields@[j])@ == f[j],
            k <= fields@.len(),
            decode_fields(f.take(k as int)) is Ok,
            fields_sliceable(f, k as int),
        decreases fields@.len() - k,
    {
        let field = fields[k].as_str();
        proof {
            lemma_decode_fields_step(f, k as int);
            assert(field@ == f[k as int]);
            assert(field.spec_bytes() == encode_utf8(f[k as int]));
        }
        if !hex_sliceable(field) {
            proof {
                lemma_fields_not_sliceable(f, f.len() as int, k as int);
            }
            return false;
        }
        proof {
            lemma_fields_sliceable_step(f, k as int);
        }
        if unhex(field).is_err() {
            proof {
                lemma_fields_sliceable_after_failure(f, k as int);
            }
            return true;
        }
        k = k + 1;
    }
    true
}

proof fn lemma_split_no_separator(x: Seq<char>, sep: char)
    requires
        forall|i: int| 0 <= i < x.len() ==> x[i] != sep,
    ensures
        split_on(x, sep) == seq![x],
    decreases x.len(),
{
    if x.len() > 0 {
        lemma_split_no_separator(x.drop_last(), sep);
        assert(x.drop_last().push(x.last()) =~= x);
        assert(x.last() != sep);
        assert(seq![x.drop_last()].update(0, x) =~= seq![x]);
    } else {
        assert(x =~= Seq::<char>::empty());
    }
}

proof fn lemma_split_append(p: Seq<char>, y: Seq<char>, sep: char)
    requires
        forall|i: int| 0 <= i < y.len() ==> y[i] != sep,
    ensures
        split_on(p + y, sep) == split_on(p, sep).update(
            split_on(p, sep).len() - 1,
            split_on(p, sep).last() + y,
        ),
    decreases y.len(),
{
    lemma_split_on_len(p, sep);
    if y.len() == 0 {
        assert(p + y =~= p);
        assert(split_on(p, sep).last() + y =~= split_on(p, sep).last());
        assert(split_on(p, sep).update(split_on(p, sep).len() - 1, split_on(p, sep).last())
            =~= split_on(p, sep));
    } else {
        let y0 = y.drop_last();
        lemma_split_append(p, y0, sep);
        assert((p + y).drop_last() =~= p + y0);
        assert((p + y).last() == y.last());
        assert(split_on(p, sep).last() + y0 + seq![y.last()] =~= split_on(p, sep).last() + y);
        assert((split_on(p, sep).last() + y0).push(y.last()) =~= split_on(p, sep).last() + y);
    }
}

/// The identity text of a key pair has exactly two fields, the hexadecimal
/// text of each key.
pub proof fn lemma_identity_text_fields(private: Seq<u8>, public: Seq<u8>)
    ensures
        identity_fields(identity_text_of(private, public)) == seq![hex_text(private), hex_text(public)],
{
    reveal_strlit(":");
    reveal_strlit("\n");
    let h1 = hex_text(private);
    let h2 = hex_text(public);
    let text = identity_text_of(private, public);
    lemma_hex_text_chars(private);
    lemma_hex_text_chars(public);
    let body = h1 + ":"@ + h2;
    assert(text =~= body.push('\n'));
    // leading and trailing white space
    assert(!is_white_space(text[0])) by {
        if h1.len() > 0 {
            assert(text[0] == h1[0]);
        } else {
            assert(text[0] == ':');
        }
    }
    lemma_trim_start(text, 0);
    assert(text.skip(0) =~= text);
    assert(!is_white_space(text[text.len() - 2])) by {
        if h2.len() > 0 {
            assert(text[text.len() - 2] == h2[h2.len() - 1]);
        } else {
            assert(text[text.len() - 2] == ':');
        }
    }
    lemma_trim_end(text, text.len() - 1);
    assert(text.take(text.len() - 1) =~= body);
    assert(trim(text) == body);
    // the two fields
    lemma_split_no_separator(h1, ':');
    assert(h1 + ":"@ =~= h1.push(':'));
    assert(split_on(h1 + ":"@, ':') == seq![h1, Seq::<char>::empty()]) by {
        assert((h1 + ":"@).drop_last() =~= h1);
        assert(seq![h1].push(Seq::<char>::empty()) =~= seq![h1, Seq::<char>::empty()]);
    }
    lemma_split_append(h1 + ":"@, h2, ':');
    assert(Seq::<char>::empty() + h2 =~= h2);
    assert(seq![h1, Seq::<char>::empty()].update(1, Seq::<char>::empty() + h2) =~= seq![h1, h2]);
}

/// What the probe writes for a key pair, it reads back: the identity text
/// of two keys can be read without cutting a character, and gives back the
/// same two keys.
pub proof fn law_identity_round_trip(private: Seq<u8>, public: Seq<u8>)
    ensures
        identity_sliceable(identity_text_of(private, public)),
        identity_keys_of(identity_text_of(private, public)) == Ok::<(Seq<u8>, Seq<u8>), Seq<char>>(
            (private, public),
        ),
{
    let h1 = hex_text(private);
    let h2 = hex_text(public);
    let text = identity_text_of(private, public);
    law_hex_round_trip(private);
    law_hex_round_trip(public);
    lemma_identity_text_fields(private, public);
    let f = identity_fields(text);
    assert(f == seq![h1, h2]);
    // both decode
    assert(unhex_of(h1) == Ok::<Seq<u8>, Seq<char>>(private));
    assert(unhex_of(h2) == Ok::<Seq<u8>, Seq<char>>(public));
    assert(f.take(0) =~= Seq::<Seq<char>>::empty());
    assert(f.take(1) =~= seq![h1]);
    assert(f.take(2) =~= f);
    lemma_decode_fields_step(f, 0);
    lemma_decode_fields_step(f, 1);
    assert(Seq::<Seq<u8>>::empty().push(private).push(public) =~= seq![private, public]);
    assert(decode_fields(f) == Ok::<Seq<Seq<u8>>, Seq<char>>(seq![private, public]));
    assert(fields_sliceable(f, 2)) by {
        reveal(fields_sliceable);
    }
}

} // verus!
