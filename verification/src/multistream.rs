//! Option checks of the bounded multi-stream runner.
use vstd::prelude::*;
use vstd::string::StringSliceAdditionalSpecFns;
use crate::cli::{argv, option_value};
use crate::identity::{identity_field_strings, identity_fields, identity_text_of, lemma_identity_text_fields};
use crate::limits::SessionLimits;
use crate::keys::{
    decode_pairs, hex_text, law_hex_round_trip, lemma_hex_text_chars, pairs_valid, pairs_value,
};
use vstd::utf8::{encode_utf8, is_ascii_chars};
use crate::text::{parse_unsigned, parse_usize, str_eq};

verus! {

/// A 32-byte key written as 64 ASCII hexadecimal characters.
pub fn hex_decode(s: &str) -> (r: Result<Vec<u8>, &'static str>)
    ensures
        (s.spec_bytes().len() != 64 || !vstd::string::is_ascii(s)) ==> (r matches Err(e) && e@
            == "key must be 32-byte hex"@),
        (s.spec_bytes().len() == 64 && vstd::string::is_ascii(s)) ==> (if pairs_valid(
            s.spec_bytes(),
        ) {
            r matches Ok(v) && v@ == pairs_value(s.spec_bytes())
        } else {
            r matches Err(e) && e@ == "invalid key hex"@
        }),
{
    let b = s.as_bytes();
    if b.len() != 64 || !s.is_ascii() {
        return Err("key must be 32-byte hex");
    }
    match decode_pairs(b) {
        Some(v) => Ok(v),
        None => Err("invalid key hex"),
    }
}

/// The value of a numeric option, or `default` when it is absent or not a number.
pub open spec fn arg_value(a: Seq<Seq<char>>, name: Seq<char>, default: nat) -> nat {
    match option_value(a, name) {
        Some(v) => match parse_unsigned(v, usize::MAX as nat) {
            Some(n) => n,
            None => default,
        },
        None => default,
    }
}

pub fn arg(args: &[String], name: &str, default: usize) -> (n: usize)
    ensures
        n == arg_value(argv(args@), name@, default as nat),
{
    match crate::cli::option(args, name) {
        Some(v) => match parse_usize(v.as_str()) {
            Some(n) => n,
            None => default,
        },
        None => default,
    }
}

/// The multi-stream bounds: 1 to 16 streams, 1 to 64 records per stream, 1
/// to 1024 bytes per record, and at most 1 MiB in all, checked in that order.
pub open spec fn bounds_of(streams: nat, records: nat, bytes: nat) -> Result<(), Seq<char>> {
    if !(1 <= streams <= 16) {
        Err("streams outside 1-16"@)
    } else if !(1 <= records <= 64) {
        Err("records outside 1-64"@)
    } else if !(1 <= bytes <= 1024) {
        Err("bytes outside 1-1024"@)
    } else if streams * records * bytes > 1048576 {
        Err("total payload outside 1 MiB"@)
    } else {
        Ok(())
    }
}

pub fn bounds(streams: usize, records: usize, bytes: usize) -> (r: Result<(), &'static str>)
    ensures
        match bounds_of(streams as nat, records as nat, bytes as nat) {
            Ok(()) => r is Ok,
            Err(m) => r matches Err(e) && e@ == m,
        },
{
    if !(1 <= streams && streams <= 16) {
        return Err("streams outside 1-16");
    }
    if !(1 <= records && records <= 64) {
        return Err("records outside 1-64");
    }
    if !(1 <= bytes && bytes <= 1024) {
        return Err("bytes outside 1-1024");
    }
    assert(streams * records <= 1024) by (nonlinear_arith)
        requires
            streams <= 16,
            records <= 64,
    ;
    assert(streams * records * bytes <= 1048576 * 1024) by (nonlinear_arith)
        requires
            streams * records <= 1024,
            bytes <= 1024,
    ;
    let total = streams * records * bytes;
    if total > 1048576 {
        return Err("total payload outside 1 MiB");
    }
    Ok(())
}

/// The multi-stream shape: `--streams` (2 by default), `--records` (3) and
/// `--bytes` (32), within the bounds.
pub fn config(args: &[String]) -> (r: Result<(usize, usize, usize), &'static str>)
    ensures
        ({
            let a = argv(args@);
            let s = arg_value(a, "--streams"@, 2);
            let n = arg_value(a, "--records"@, 3);
            let b = arg_value(a, "--bytes"@, 32);
            match bounds_of(s, n, b) {
                Ok(()) => r == Ok::<(usize, usize, usize), &'static str>(
                    (s as usize, n as usize, b as usize),
                ),
                Err(m) => r matches Err(e) && e@ == m,
            }
        }),
{
    let v = (arg(args, "--streams", 2), arg(args, "--records", 3), arg(args, "--bytes", 32));
    bounds(v.0, v.1, v.2)?;
    Ok(v)
}

/// The side of a multi-stream run.
#[derive(Clone, Copy, Debug, PartialEq, Eq, Structural)]
pub enum MultistreamMode {
    Server,
    Client,
}

/// The side of a multi-stream run: `--mode server` serves, `--mode client`
/// (or no mode) connects, and any other mode is refused.
pub open spec fn mode_of(a: Seq<Seq<char>>) -> Result<MultistreamMode, Seq<char>> {
    match option_value(a, "--mode"@) {
        None => Ok(MultistreamMode::Client),
        Some(m) => if m == "server"@ {
            Ok(MultistreamMode::Server)
        } else if m == "client"@ {
            Ok(MultistreamMode::Client)
        } else {
            Err("mode must be client or server"@)
        },
    }
}

pub fn mode(args: &[String]) -> (r: Result<MultistreamMode, &'static str>)
    ensures
        match mode_of(argv(args@)) {
            Ok(m) => r == Ok::<MultistreamMode, &'static str>(m),
            Err(e) => r matches Err(x) && x@ == e,
        },
{
    match crate::cli::option(args, "--mode") {
        Some(m) => {
            if str_eq(m.as_str(), "server") {
                Ok(MultistreamMode::Server)
            } else if str_eq(m.as_str(), "client") {
                Ok(MultistreamMode::Client)
            } else {
                Err("mode must be client or server")
            }
        },
        None => Ok(MultistreamMode::Client),
    }
}

/// The multi-stream port: `--port` read as a number (40082 by default, or
/// when unreadable), whose low 16 bits must lie within 40080-40100.
pub fn port(args: &[String]) -> (r: Result<usize, &'static str>)
    ensures
        ({
            let p = arg_value(argv(args@), "--port"@, 40082);
            if 40080 <= (p as u16) <= 40100 {
                r == Ok::<usize, &'static str>(p as usize)
            } else {
                r matches Err(e) && e@ == "port outside 40080-40100"@
            }
        }),
{
    let p = arg(args, "--port", 40082);
    let low = p as u16;
    if !(40080 <= low && low <= 40100) {
        return Err("port outside 40080-40100");
    }
    Ok(p)
}

/// The options of a multi-stream run.
#[derive(Clone, Copy, Debug, PartialEq, Eq, Structural)]
pub struct MultistreamArgs {
    pub mode: MultistreamMode,
    pub streams: usize,
    pub records: usize,
    pub bytes: usize,
    pub port: usize,
}

/// The options of a multi-stream run, checked in order: the shape within
/// its bounds, then the port, then the side.
pub open spec fn run_args_of(a: Seq<Seq<char>>) -> Result<MultistreamArgs, Seq<char>> {
    let s = arg_value(a, "--streams"@, 2);
    let n = arg_value(a, "--records"@, 3);
    let b = arg_value(a, "--bytes"@, 32);
    let p = arg_value(a, "--port"@, 40082);
    match bounds_of(s, n, b) {
        Err(m) => Err(m),
        Ok(()) => if !(40080 <= (p as u16) <= 40100) {
            Err("port outside 40080-40100"@)
        } else {
            match mode_of(a) {
                Err(m) => Err(m),
                Ok(mode) => Ok(
                    MultistreamArgs {
                        mode,
                        streams: s as usize,
                        records: n as usize,
                        bytes: b as usize,
                        port: p as usize,
                    },
                ),
            }
        },
    }
}

/// Every accepted multi-stream run is bounded and is what the options say:
/// 1 to 16 streams (2 by default) of 1 to 64 records (3) of 1 to 1024 bytes
/// (32), at most 1 MiB in all, a port (40082) whose low 16 bits lie within
/// 40080-40100, and the side named by `--mode`: `server` serves, `client` or
/// no mode connects, and any other mode is refused.
pub proof fn law_multistream_run_is_bounded(a: Seq<Seq<char>>)
    ensures
        run_args_of(a) matches Ok(v) ==> {
            &&& 1 <= v.streams <= 16
            &&& v.streams == arg_value(a, "--streams"@, 2)
            &&& 1 <= v.records <= 64
            &&& v.records == arg_value(a, "--records"@, 3)
            &&& 1 <= v.bytes <= 1024
            &&& v.bytes == arg_value(a, "--bytes"@, 32)
            &&& v.streams * v.records * v.bytes <= 1048576
            &&& v.port == arg_value(a, "--port"@, 40082)
            &&& 40080 <= (v.port as u16) <= 40100
            &&& (v.mode == MultistreamMode::Server) == (option_value(a, "--mode"@) == Some(
                "server"@,
            ))
        },
        option_value(a, "--mode"@) matches Some(m) && m != "server"@ && m != "client"@
            ==> run_args_of(a) is Err,
        option_value(a, "--mode"@) == Some("server"@) ==> mode_of(a) == Ok::<
            MultistreamMode,
            Seq<char>,
        >(MultistreamMode::Server),
        option_value(a, "--mode"@) == Some("client"@) ==> mode_of(a) == Ok::<
            MultistreamMode,
            Seq<char>,
        >(MultistreamMode::Client),
        option_value(a, "--mode"@) is None ==> mode_of(a) == Ok::<MultistreamMode, Seq<char>>(
            MultistreamMode::Client,
        ),
{
    reveal_strlit("server");
    reveal_strlit("client");
    assert("server"@[0] != "client"@[0]);
}

pub fn run_args(args: &[String]) -> (r: Result<MultistreamArgs, &'static str>)
    ensures
        match run_args_of(argv(args@)) {
            Ok(v) => r == Ok::<MultistreamArgs, &'static str>(v),
            Err(m) => r matches Err(e) && e@ == m,
        },
{
    let (streams, records, bytes) = config(args)?;
    let port = port(args)?;
    let mode = mode(args)?;
    Ok(MultistreamArgs { mode, streams, records, bytes, port })
}

/// The runtime limits of a multi-stream run of `streams` streams of
/// `records` records of `bytes` bytes: room for every record plus one in the
/// queue, 1 MiB of queue and session window, and exactly the run's bytes in
/// all.
pub fn limits(streams: usize, records: usize, bytes: usize) -> (l: SessionLimits)
    requires
        streams * records + 1 <= usize::MAX,
        streams * records * bytes <= usize::MAX,
        records * bytes <= usize::MAX,
    ensures
        l == (SessionLimits {
            max_streams: streams,
            max_queue_records: (streams * records + 1) as usize,
            max_queue_bytes: 1048576,
            max_total_bytes: (streams * records * bytes) as usize,
            max_record_bytes: bytes,
            max_stream_window: Some((records * bytes) as usize),
            max_session_window: Some(1048576),
        }),
{
    SessionLimits {
        max_streams: streams,
        max_queue_records: streams * records + 1,
        max_queue_bytes: 1048576,
        max_total_bytes: streams * records * bytes,
        max_record_bytes: bytes,
        max_stream_window: Some(records * bytes),
        max_session_window: Some(1048576),
    }
}

/// One key of the identity file as the multi-stream runner reads it:
/// exactly 64 ASCII hexadecimal characters.
pub open spec fn key_field_of(field: Seq<char>) -> Result<Seq<u8>, Seq<char>> {
    let b = encode_utf8(field);
    if b.len() != 64 || !is_ascii_chars(field) {
        Err("key must be 32-byte hex"@)
    } else if pairs_valid(b) {
        Ok(pairs_value(b))
    } else {
        Err("invalid key hex"@)
    }
}

/// The key pair of an identity file's text as the multi-stream runner reads
/// it: the first field is the private key, the second (empty when absent)
/// the public key, and a third field is refused.
pub open spec fn identity_key_pair_of(text: Seq<char>) -> Result<(Seq<u8>, Seq<u8>), Seq<char>> {
    let f = identity_fields(text);
    match key_field_of(f[0]) {
        Err(m) => Err(m),
        Ok(p) => match key_field_of(if f.len() > 1 { f[1] } else { Seq::empty() }) {
            Err(m) => Err(m),
            Ok(q) => if f.len() > 2 {
                Err("invalid identity file"@)
            } else {
                Ok((p, q))
            },
        },
    }
}

/// Every key pair read from an identity file is two keys of 32 bytes each.
pub proof fn law_identity_keys_are_32_bytes(text: Seq<char>)
    ensures
        identity_key_pair_of(text) matches Ok((p, q)) ==> p.len() == 32 && q.len() == 32,
{
}

/// Reads the key pair of an identity file's text, each key 32 bytes.
pub fn identity_key_pair(text: &str) -> (r: Result<(Vec<u8>, Vec<u8>), &'static str>)
    ensures
        match identity_key_pair_of(text@) {
            Ok((p, q)) => r matches Ok((a, b)) && a@ == p && b@ == q,
            Err(m) => r matches Err(e) && e@ == m,
        },
{
    let fields = identity_field_strings(text);
    let private = hex_decode(fields[0].as_str())?;
    let public = if fields.len() > 1 {
        hex_decode(fields[1].as_str())?
    } else {
        proof {
            reveal_strlit("");
        }
        hex_decode("")?
    };
    if fields.len() > 2 {
        return Err("invalid identity file");
    }
    Ok((private, public))
}

/// What the probe writes for a pair of 32-byte keys, the multi-stream runner
/// reads back.
pub proof fn law_identity_key_pair_round_trip(private: Seq<u8>, public: Seq<u8>)
    requires
        private.len() == 32,
        public.len() == 32,
    ensures
        identity_key_pair_of(identity_text_of(private, public)) == Ok::<
            (Seq<u8>, Seq<u8>),
            Seq<char>,
        >((private, public)),
{
    lemma_identity_text_fields(private, public);
    law_hex_round_trip(private);
    law_hex_round_trip(public);
    lemma_hex_text_chars(private);
    lemma_hex_text_chars(public);
    assert(is_ascii_chars(hex_text(private)));
    assert(is_ascii_chars(hex_text(public)));
}

} // verus!
