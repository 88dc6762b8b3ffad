//! The options of `probe --matrix`, the local reachability probe.
use vstd::prelude::*;
use crate::cli::{argv, begins_with_dashes, starts_with_dashes};
use crate::net::SocketAddress;
use crate::reachability::{validate, validation_of, IpVersion, Transport};
use crate::text::{parse_u64, parse_unsigned, parse_usize, str_eq};

verus! {

/// The raw options of a matrix probe, as given.
#[derive(Debug)]
pub struct MatrixOptions {
    pub json: bool,
    pub target: Option<String>,
    pub transport: Option<String>,
    pub ip_version: Option<String>,
    pub timeout_ms: Option<String>,
    pub bytes: Option<String>,
}

/// A refusal of the matrix options, naming the option concerned.
#[derive(Debug, PartialEq, Eq)]
pub enum MatrixArgError {
    /// The option was given twice.
    Duplicate(String),
    /// The option needs a value and has none.
    MissingValue(String),
    /// The argument is no matrix option.
    Unknown(String),
    /// `--matrix` itself is absent.
    MissingMatrix,
}

/// The options seen so far while scanning.
pub struct MatrixScan {
    pub matrix: bool,
    pub json: bool,
    pub target: Option<Seq<char>>,
    pub transport: Option<Seq<char>>,
    pub ip_version: Option<Seq<char>>,
    pub timeout_ms: Option<Seq<char>>,
    pub bytes: Option<Seq<char>>,
}

/// A refusal of the matrix options, as text.
pub enum MatrixFailure {
    Duplicate(Seq<char>),
    MissingValue(Seq<char>),
    Unknown(Seq<char>),
    MissingMatrix,
}

/// The options that take a value.
pub open spec fn valued_option(o: Seq<char>) -> bool {
    o == "--target"@ || o == "--transport"@ || o == "--ip-version"@ || o == "--timeout-ms"@ || o
        == "--bytes"@
}

/// The value already recorded for the valued option `o`.
pub open spec fn slot(st: MatrixScan, o: Seq<char>) -> Option<Seq<char>> {
    if o == "--target"@ {
        st.target
    } else if o == "--transport"@ {
        st.transport
    } else if o == "--ip-version"@ {
        st.ip_version
    } else if o == "--timeout-ms"@ {
        st.timeout_ms
    } else {
        st.bytes
    }
}

/// The scan state with `v` recorded for the valued option `o`.
pub open spec fn with_slot(st: MatrixScan, o: Seq<char>, v: Seq<char>) -> MatrixScan {
    if o == "--target"@ {
        MatrixScan { target: Some(v), ..st }
    } else if o == "--transport"@ {
        MatrixScan { transport: Some(v), ..st }
    } else if o == "--ip-version"@ {
        MatrixScan { ip_version: Some(v), ..st }
    } else if o == "--timeout-ms"@ {
        MatrixScan { timeout_ms: Some(v), ..st }
    } else {
        MatrixScan { bytes: Some(v), ..st }
    }
}

/// Scanning the arguments from `i` on: `--matrix` and `--json` are flags,
/// each allowed once; the valued options each take the next argument, which
/// must not itself be an option, and are allowed once; anything else is
/// refused; and `--matrix` must have been given.
pub open spec fn scan(a: Seq<Seq<char>>, i: int, st: MatrixScan) -> Result<MatrixScan, MatrixFailure>
    decreases a.len() - i,
{
    if i < 1 || i >= a.len() {
        if st.matrix {
            Ok(st)
        } else {
            Err(MatrixFailure::MissingMatrix)
        }
    } else {
        let o = a[i];
        if o == "--matrix"@ {
            if st.matrix {
                Err(MatrixFailure::Duplicate(o))
            } else {
                scan(a, i + 1, MatrixScan { matrix: true, ..st })
            }
        } else if o == "--json"@ {
            if st.json {
                Err(MatrixFailure::Duplicate(o))
            } else {
                scan(a, i + 1, MatrixScan { json: true, ..st })
            }
        } else if valued_option(o) {
            if i + 1 < a.len() && !starts_with_dashes(a[i + 1]) {
                if slot(st, o) is Some {
                    Err(MatrixFailure::Duplicate(o))
                } else {
                    scan(a, i + 2, with_slot(st, o, a[i + 1]))
                }
            } else {
                Err(MatrixFailure::MissingValue(o))
            }
        } else {
            Err(MatrixFailure::Unknown(o))
        }
    }
}

/// Nothing seen yet.
pub open spec fn scan_start() -> MatrixScan {
    MatrixScan {
        matrix: false,
        json: false,
        target: None,
        transport: None,
        ip_version: None,
        timeout_ms: None,
        bytes: None,
    }
}

/// What a successful scan from `i` on has seen: `--matrix` (now or
/// before), `--json` only where it was given, and a target that is the
/// first one recorded or else the argument after a `--target` from `i` on.
pub proof fn lemma_scan_records(a: Seq<Seq<char>>, i: int, st: MatrixScan)
    requires
        1 <= i,
    ensures
        scan(a, i, st) matches Ok(r) ==> {
            &&& r.matrix
            &&& st.matrix || exists|j: int| i <= j < a.len() && #[trigger] a[j] == "--matrix"@
            &&& r.json ==> st.json || exists|j: int| i <= j < a.len() && #[trigger] a[j]
                == "--json"@
            &&& st.target is Some ==> r.target == st.target
            &&& r.target matches Some(t) ==> (st.target is None ==> exists|j: int|
                i <= j && j + 1 < a.len() && #[trigger] a[j] == "--target"@ && a[j + 1] == t)
        },
    decreases a.len() - i,
{
    reveal_strlit("--matrix");
    reveal_strlit("--json");
    reveal_strlit("--target");
    assert("--matrix"@[2] != "--target"@[2]);
    assert("--json"@.len() != "--target"@.len());
    if i < a.len() {
        let o = a[i];
        if o == "--matrix"@ {
            if !st.matrix {
                lemma_scan_records(a, i + 1, MatrixScan { matrix: true, ..st });
            }
        } else if o == "--json"@ {
            if !st.json {
                lemma_scan_records(a, i + 1, MatrixScan { json: true, ..st });
            }
        } else if valued_option(o) {
            if i + 1 < a.len() && !starts_with_dashes(a[i + 1]) && slot(st, o) is None {
                let next = with_slot(st, o, a[i + 1]);
                lemma_scan_records(a, i + 2, next);
                if o == "--target"@ {
                    assert(next.target == Some(a[i + 1]));
                } else {
                    assert(next.target == st.target);
                }
            }
        }
    }
}

/// A matrix probe's options are what was given: an accepted scan has seen
/// `--matrix` among the arguments, reports JSON only where `--json` was
/// given, and has as its target the argument that follows `--target`.
pub proof fn law_matrix_options_come_from_the_arguments(a: Seq<Seq<char>>)
    ensures
        scan(a, 1, scan_start()) matches Ok(r) ==> {
            &&& r.matrix
            &&& exists|j: int| 1 <= j < a.len() && #[trigger] a[j] == "--matrix"@
            &&& r.json ==> exists|j: int| 1 <= j < a.len() && #[trigger] a[j] == "--json"@
            &&& r.target matches Some(t) ==> exists|j: int|
                1 <= j && j + 1 < a.len() && #[trigger] a[j] == "--target"@ && a[j + 1] == t
        },
{
    lemma_scan_records(a, 1, scan_start());
}

/// The text of an optional option value.
pub open spec fn text_of(v: Option<String>) -> Option<Seq<char>> {
    match v {
        Some(s) => Some(s@),
        None => None,
    }
}

/// Whether the options `o`, with `matrix` seen, are the scan state `st`.
pub open spec fn options_are(o: MatrixOptions, matrix: bool, st: MatrixScan) -> bool {
    &&& st.matrix == matrix
    &&& st.json == o.json
    &&& st.target == text_of(o.target)
    &&& st.transport == text_of(o.transport)
    &&& st.ip_version == text_of(o.ip_version)
    &&& st.timeout_ms == text_of(o.timeout_ms)
    &&& st.bytes == text_of(o.bytes)
}

/// Whether the error `e` is the failure `f`.
pub open spec fn is_matrix_failure(e: MatrixArgError, f: MatrixFailure) -> bool {
    match (e, f) {
        (MatrixArgError::Duplicate(x), MatrixFailure::Duplicate(y)) => x@ == y,
        (MatrixArgError::MissingValue(x), MatrixFailure::MissingValue(y)) => x@ == y,
        (MatrixArgError::Unknown(x), MatrixFailure::Unknown(y)) => x@ == y,
        (MatrixArgError::MissingMatrix, MatrixFailure::MissingMatrix) => true,
        _ => false,
    }
}

/// Which valued option `o` is, as an index into the five slots.
fn valued_index(o: &str) -> (r: Option<u8>)
    ensures
        (r is Some) == valued_option(o@),
        r matches Some(k) ==> k < 5 && (k == 0) == (o@ == "--target"@) && (k == 1) == (o@
            == "--transport"@) && (k == 2) == (o@ == "--ip-version"@) && (k == 3) == (o@
            == "--timeout-ms"@),
{
    proof {
        reveal_strlit("--target");
        reveal_strlit("--transport");
        reveal_strlit("--ip-version");
        reveal_strlit("--timeout-ms");
        reveal_strlit("--bytes");
        // the five names differ in length, but for two that differ in a character
        assert("--target"@.len() == 8);
        assert("--transport"@.len() == 11);
        assert("--ip-version"@.len() == 12);
        assert("--timeout-ms"@.len() == 12);
        assert("--ip-version"@[2] != "--timeout-ms"@[2]);
    }
    if str_eq(o, "--target") {
        Some(0)
    } else if str_eq(o, "--transport") {
        Some(1)
    } else if str_eq(o, "--ip-version") {
        Some(2)
    } else if str_eq(o, "--timeout-ms") {
        Some(3)
    } else if str_eq(o, "--bytes") {
        Some(4)
    } else {
        None
    }
}

/// Scans the matrix probe options after the command.
pub fn scan_matrix_options(args: &[String]) -> (r: Result<MatrixOptions, MatrixArgError>)
    ensures
        match scan(argv(args@), 1, scan_start()) {
            Ok(st) => r matches Ok(o) && options_are(o, true, st),
            Err(f) => r matches Err(e) && is_matrix_failure(e, f),
        },
{
    let ghost a = argv(args@);
    let mut matrix = false;
    let mut o = MatrixOptions {
        json: false,
        target: None,
        transport: None,
        ip_version: None,
        timeout_ms: None,
        bytes: None,
    };
    let mut i: usize = 1;
    let ghost mut st = scan_start();
    while i < args.len()
        invariant
            a == argv(args@),
            a.len() == args@.len(),
            1 <= i,
            options_are(o, matrix, st),
            scan(a, 1, scan_start()) == scan(a, i as int, st),
        decreases args@.len() + 1 - i,
    {
        let arg = args[i].as_str();
        if str_eq(arg, "--matrix") {
            if matrix {
                return Err(MatrixArgError::Duplicate(args[i].clone()));
            }
            matrix = true;
            proof {
                st = MatrixScan { matrix: true, ..st };
            }
            i = i + 1;
        } else if str_eq(arg, "--json") {
            if o.json {
                return Err(MatrixArgError::Duplicate(args[i].clone()));
            }
            o.json = true;
            proof {
                st = MatrixScan { json: true, ..st };
            }
            i = i + 1;
        } else {
            match valued_index(arg) {
                None => return Err(MatrixArgError::Unknown(args[i].clone())),
                Some(k) => {
                    if !(i + 1 < args.len() && !begins_with_dashes(args[i + 1].as_str())) {
                        return Err(MatrixArgError::MissingValue(args[i].clone()));
                    }
                    let v = args[i + 1].clone();
                    let taken = if k == 0 {
                        o.target.is_some()
                    } else if k == 1 {
                        o.transport.is_some()
                    } else if k == 2 {
                        o.ip_version.is_some()
                    } else if k == 3 {
                        o.timeout_ms.is_some()
                    } else {
                        o.bytes.is_some()
                    };
                    if taken {
                        return Err(MatrixArgError::Duplicate(args[i].clone()));
                    }
                    if k == 0 {
                        o.target = Some(v);
                    } else if k == 1 {
                        o.transport = Some(v);
                    } else if k == 2 {
                        o.ip_version = Some(v);
                    } else if k == 3 {
                        o.timeout_ms = Some(v);
                    } else {
                        o.bytes = Some(v);
                    }
                    proof {
                        st = with_slot(st, a[i as int], a[i + 1]);
                    }
                    i = i + 2;
                }
            }
        }
    }
    if !matrix {
        return Err(MatrixArgError::MissingMatrix);
    }
    Ok(o)
}

/// The parsed request of a matrix probe.
#[derive(Debug, Clone, Copy, PartialEq, Eq, Structural)]
pub struct MatrixProbeArgs {
    pub target: SocketAddress,
    pub transport: Transport,
    pub version: IpVersion,
    pub timeout_ms: u64,
    pub bytes: usize,
    pub json: bool,
}

/// The transport named by its text.
pub open spec fn transport_named(t: Option<Seq<char>>) -> Option<Transport> {
    if t == Some("tcp"@) {
        Some(Transport::Tcp)
    } else if t == Some("udp"@) {
        Some(Transport::Udp)
    } else {
        None
    }
}

/// The IP version named by its text.
pub open spec fn version_named(t: Option<Seq<char>>) -> Option<IpVersion> {
    if t == Some("ipv4"@) {
        Some(IpVersion::V4)
    } else if t == Some("ipv6"@) {
        Some(IpVersion::V6)
    } else {
        None
    }
}

/// The matrix probe request from its scanned options and its parsed
/// target: the transport and IP version must be named, the timeout (500 ms
/// by default) and byte count (32 by default) must be numbers, and the
/// request must pass reachability validation.
pub open spec fn matrix_probe_of(o: MatrixOptions, target: SocketAddress) -> Result<
    MatrixProbeArgs,
    Seq<char>,
> {
    match transport_named(text_of(o.transport)) {
        None => Err("--transport must be tcp or udp"@),
        Some(transport) => match version_named(text_of(o.ip_version)) {
            None => Err("--ip-version must be ipv4 or ipv6"@),
            Some(version) => match (match text_of(o.timeout_ms) {
                Some(t) => parse_unsigned(t, u64::MAX as nat),
                None => Some(500),
            }) {
                None => Err("invalid --timeout-ms"@),
                Some(timeout) => match (match text_of(o.bytes) {
                    Some(t) => parse_unsigned(t, usize::MAX as nat),
                    None => Some(32),
                }) {
                    None => Err("invalid --bytes"@),
                    Some(bytes) => match validation_of(
                        target,
                        version,
                        timeout as u64,
                        bytes as usize,
                    ) {
                        Err(m) => Err(m),
                        Ok(()) => Ok(
                            MatrixProbeArgs {
                                target,
                                transport,
                                version,
                                timeout_ms: timeout as u64,
                                bytes: bytes as usize,
                                json: o.json,
                            },
                        ),
                    },
                },
            },
        },
    }
}

/// Every accepted matrix probe request is what its options say and passes
/// reachability validation: the transport is `tcp` or `udp` as named, the IP
/// version `ipv4` or `ipv6` as named, the timeout and payload are the numbers
/// given (500 ms and 32 bytes by default), and the output is JSON exactly
/// when `--json` was given.
pub proof fn law_matrix_request_follows_its_options(o: MatrixOptions, target: SocketAddress)
    ensures
        matrix_probe_of(o, target) matches Ok(v) ==> {
            &&& v.target == target
            &&& (v.transport == Transport::Tcp <==> text_of(o.transport) == Some("tcp"@))
            &&& (v.transport == Transport::Udp <==> text_of(o.transport) == Some("udp"@))
            &&& (v.version == IpVersion::V4 <==> text_of(o.ip_version) == Some("ipv4"@))
            &&& (v.version == IpVersion::V6 <==> text_of(o.ip_version) == Some("ipv6"@))
            &&& (text_of(o.timeout_ms) is None ==> v.timeout_ms == 500)
            &&& (text_of(o.timeout_ms) matches Some(t) ==> parse_unsigned(t, u64::MAX as nat) == Some(
                v.timeout_ms as nat,
            ))
            &&& (text_of(o.bytes) is None ==> v.bytes == 32)
            &&& (text_of(o.bytes) matches Some(t) ==> parse_unsigned(t, usize::MAX as nat) == Some(
                v.bytes as nat,
            ))
            &&& validation_of(target, v.version, v.timeout_ms, v.bytes) is Ok
            &&& v.json == o.json
        },
        text_of(o.transport) != Some("tcp"@) && text_of(o.transport) != Some("udp"@)
            ==> matrix_probe_of(o, target) is Err,
        text_of(o.ip_version) != Some("ipv4"@) && text_of(o.ip_version) != Some("ipv6"@)
            ==> matrix_probe_of(o, target) is Err,
{
    reveal_strlit("tcp");
    reveal_strlit("udp");
    reveal_strlit("ipv4");
    reveal_strlit("ipv6");
    assert("tcp"@[0] != "udp"@[0]);
    assert("ipv4"@[3] != "ipv6"@[3]);
}

fn option_is(v: &Option<String>, text: &str) -> (r: bool)
    ensures
        r == (text_of(*v) == Some(text@)),
{
    match v {
        Some(s) => str_eq(s.as_str(), text),
        None => false,
    }
}

/// Completes a matrix probe request once its target has been parsed.
pub fn matrix_probe_args(o: &MatrixOptions, target: SocketAddress) -> (r: Result<
    MatrixProbeArgs,
    &'static str,
>)
    ensures
        match matrix_probe_of(*o, target) {
            Ok(v) => r == Ok::<MatrixProbeArgs, &'static str>(v),
            Err(m) => r matches Err(e) && e@ == m,
        },
{
    let transport = if option_is(&o.transport, "tcp") {
        Transport::Tcp
    } else if option_is(&o.transport, "udp") {
        Transport::Udp
    } else {
        return Err("--transport must be tcp or udp");
    };
    let version = if option_is(&o.ip_version, "ipv4") {
        IpVersion::V4
    } else if option_is(&o.ip_version, "ipv6") {
        IpVersion::V6
    } else {
        return Err("--ip-version must be ipv4 or ipv6");
    };
    let timeout_ms = match &o.timeout_ms {
        Some(t) => match parse_u64(t.as_str()) {
            Some(n) => n,
            None => return Err("invalid --timeout-ms"),
        },
        None => 500,
    };
    let bytes = match &o.bytes {
        Some(t) => match parse_usize(t.as_str()) {
            Some(n) => n,
            None => return Err("invalid --bytes"),
        },
        None => 32,
    };
    validate(target, version, timeout_ms, bytes)?;
    Ok(MatrixProbeArgs { target, transport, version, timeout_ms, bytes, json: o.json })
}

} // verus!
