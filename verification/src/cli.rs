//! The bounded command-line options of the probe runners: `--key value`
//! lookups, flags, and the checks that each runner applies to its options.
use vstd::prelude::*;
use crate::text::{
    chars_of, decimal, parse_u16, parse_u64, parse_unsigned, parse_usize, push_decimal, push_str,
    str_eq, string_of,
};

verus! {

/// Whether `r` failed with the message `msg`.
pub open spec fn fails_with<T>(r: Result<T, &'static str>, msg: &str) -> bool {
    r matches Err(e) && e@ == msg@
}

/// The characters of each argument.
pub open spec fn argv(args: Seq<String>) -> Seq<Seq<char>> {
    args.map_values(|a: String| a@)
}

/// The index of the first argument from `i` on that equals `key` and is
/// followed by another argument (a `--key value` pair).
pub open spec fn key_index_from(args: Seq<Seq<char>>, key: Seq<char>, i: int) -> Option<int>
    decreases args.len() - i,
{
    if i < 0 || i + 1 >= args.len() {
        None
    } else if args[i] == key {
        Some(i)
    } else {
        key_index_from(args, key, i + 1)
    }
}

/// The value that follows the first occurrence of `key`, if any.
pub open spec fn option_value(args: Seq<Seq<char>>, key: Seq<char>) -> Option<Seq<char>> {
    match key_index_from(args, key, 0) {
        Some(i) => Some(args[i + 1]),
        None => None,
    }
}

/// The value of `key`, or `default` when the key is absent.
pub open spec fn value_or(args: Seq<Seq<char>>, key: Seq<char>, default: Seq<char>) -> Seq<char> {
    match option_value(args, key) {
        Some(v) => v,
        None => default,
    }
}

/// Whether some argument is exactly `flag`.
pub open spec fn has_flag(args: Seq<Seq<char>>, flag: Seq<char>) -> bool {
    exists|i: int| 0 <= i < args.len() && args[i] == flag
}

proof fn lemma_key_index_found(args: Seq<Seq<char>>, key: Seq<char>, i: int)
    requires
        0 <= i,
        i + 1 < args.len(),
        args[i] == key,
    ensures
        key_index_from(args, key, i) == Some(i),
{
}

proof fn lemma_key_index_from(a: Seq<Seq<char>>, key: Seq<char>, i: int)
    requires
        0 <= i,
    ensures
        key_index_from(a, key, i) matches Some(j) ==> i <= j && j + 1 < a.len() && a[j] == key
            && forall|k: int| i <= k < j ==> a[k] != key,
        key_index_from(a, key, i) is None ==> forall|k: int| i <= k && k + 1 < a.len() ==> a[k]
            != key,
    decreases a.len() - i,
{
    if i + 1 < a.len() && a[i] != key {
        lemma_key_index_from(a, key, i + 1);
    }
}

/// An option's value is the argument right after the first occurrence of
/// its key that has an argument after it; an option has no value exactly
/// when no such occurrence exists.
pub proof fn law_option_value_follows_its_key(a: Seq<Seq<char>>, key: Seq<char>)
    ensures
        option_value(a, key) matches Some(v) ==> exists|j: int|
            #![trigger a[j]]
            0 <= j && j + 1 < a.len() && a[j] == key && a[j + 1] == v && forall|k: int|
                0 <= k < j ==> a[k] != key,
        option_value(a, key) is None <==> forall|k: int| 0 <= k && k + 1 < a.len() ==> a[k] != key,
{
    lemma_key_index_from(a, key, 0);
    if let Some(j) = key_index_from(a, key, 0) {
        assert(a[j] == key);
    }
}

/// The value that follows the first `name` argument.
pub fn option(args: &[String], name: &str) -> (r: Option<String>)
    ensures
        (r is Some) == (option_value(argv(args@), name@) is Some),
        r matches Some(v) ==> v@ == option_value(argv(args@), name@)->0,
{
    let ghost a = argv(args@);
    let mut i: usize = 0;
    while i < args.len() && i + 1 < args.len()
        invariant
            a == argv(args@),
            a.len() == args@.len(),
            i <= args@.len(),
            key_index_from(a, name@, 0) == key_index_from(a, name@, i as int),
        decreases args@.len() - i,
    {
        let s = args[i].as_str();
        if str_eq(s, name) {
            proof {
                assert(a[i as int] == name@);
                lemma_key_index_found(a, name@, i as int);
            }
            return Some(args[i + 1].clone());
        }
        proof {
            assert(a[i as int] != name@);
        }
        i = i + 1;
    }
    None
}

/// The value of `key`, or `default` when the key is absent.
pub fn parse(args: &[String], key: &str, default: Option<&str>) -> (r: Option<String>)
    ensures
        (r is Some) == (option_value(argv(args@), key@) is Some || default is Some),
        r matches Some(v) ==> v@ == (match option_value(argv(args@), key@) {
            Some(x) => x,
            None => default->0@,
        }),
{
    match option(args, key) {
        Some(v) => Some(v),
        None => match default {
            Some(d) => Some(string_of(chars_of(d).as_slice())),
            None => None,
        },
    }
}

/// Whether some argument is exactly `flag`.
pub fn has_flag_arg(args: &[String], flag: &str) -> (r: bool)
    ensures
        r == has_flag(argv(args@), flag@),
{
    let ghost a = argv(args@);
    let mut i: usize = 0;
    while i < args.len()
        invariant
            a == argv(args@),
            a.len() == args@.len(),
            i <= args@.len(),
            forall|k: int| 0 <= k < i ==> a[k] != flag@,
        decreases args@.len() - i,
    {
        if str_eq(args[i].as_str(), flag) {
            assert(a[i as int] == flag@);
            return true;
        }
        i = i + 1;
    }
    false
}

/// Whether machine-readable output was asked for.
pub fn json_mode(args: &[String]) -> (r: bool)
    ensures
        r == has_flag(argv(args@), "--json"@),
{
    has_flag_arg(args, "--json")
}

/// Whether diagnostic events were asked for.
pub fn diagnostic_mode(args: &[String]) -> (r: bool)
    ensures
        r == has_flag(argv(args@), "--diagnostic"@),
{
    has_flag_arg(args, "--diagnostic")
}

/// Whether `c` may appear in an experiment id.
pub open spec fn id_char(c: char) -> bool {
    ('a' <= c && c <= 'z') || ('A' <= c && c <= 'Z') || ('0' <= c && c <= '9') || c == '.' || c
        == '_' || c == '-'
}

/// A valid experiment id: 8 to 72 characters, each an ASCII letter or digit,
/// `.`, `_` or `-`.
pub open spec fn valid_experiment_id(id: Seq<char>) -> bool {
    8 <= id.len() <= 72 && forall|i: int| 0 <= i < id.len() ==> id_char(#[trigger] id[i])
}

/// An ASCII letter, upper or lower case, or an ASCII digit.
pub open spec fn is_ascii_alphanumeric(c: char) -> bool {
    ('0' <= c && c <= '9') || ('A' <= c && c <= 'Z') || ('a' <= c && c <= 'z')
}

/// An experiment id is accepted exactly when it has 8 to 72 characters and
/// each is an ASCII letter of either case, an ASCII digit, `.`, `_` or `-`;
/// an accepted id is carried unchanged, and a missing one is refused.
pub proof fn law_experiment_ids(id: Seq<char>)
    ensures
        valid_experiment_id(id) <==> (8 <= id.len() <= 72 && forall|i: int|
            0 <= i < id.len() ==> is_ascii_alphanumeric(#[trigger] id[i]) || id[i] == '.' || id[i]
                == '_' || id[i] == '-'),
{
    assert(valid_experiment_id(id) ==> forall|i: int|
        0 <= i < id.len() ==> is_ascii_alphanumeric(#[trigger] id[i]) || id[i] == '.' || id[i]
            == '_' || id[i] == '-') by {
        if valid_experiment_id(id) {
            assert forall|i: int| 0 <= i < id.len() implies is_ascii_alphanumeric(#[trigger] id[i])
                || id[i] == '.' || id[i] == '_' || id[i] == '-' by {
                assert(id_char(id[i]));
            }
        }
    }
    if 8 <= id.len() <= 72 && forall|i: int|
        0 <= i < id.len() ==> is_ascii_alphanumeric(#[trigger] id[i]) || id[i] == '.' || id[i]
            == '_' || id[i] == '-' {
        assert forall|i: int| 0 <= i < id.len() implies id_char(#[trigger] id[i]) by {
            assert(is_ascii_alphanumeric(id[i]) || id[i] == '.' || id[i] == '_' || id[i] == '-');
        }
    }
}

/// The experiment id that diagnostic events carry.
pub fn diagnostic_id(args: &[String]) -> (r: Result<String, &'static str>)
    ensures
        option_value(argv(args@), "--experiment-id"@) is None ==> fails_with(
            r,
            "--diagnostic requires --experiment-id",
        ),
        option_value(argv(args@), "--experiment-id"@) matches Some(id) ==> (if valid_experiment_id(
            id,
        ) {
            r matches Ok(s) && s@ == id
        } else {
            fails_with(r, "invalid experiment id")
        }),
{
    let id = match option(args, "--experiment-id") {
        Some(id) => id,
        None => return Err("--diagnostic requires --experiment-id"),
    };
    let cs = chars_of(id.as_str());
    if cs.len() < 8 || cs.len() > 72 {
        return Err("invalid experiment id");
    }
    let mut i: usize = 0;
    while i < cs.len()
        invariant
            cs@ == id@,
            option_value(argv(args@), "--experiment-id"@) == Some(id@),
            8 <= cs@.len() <= 72,
            i <= cs@.len(),
            forall|k: int| 0 <= k < i ==> id_char(#[trigger] cs@[k]),
        decreases cs@.len() - i,
    {
        let c = cs[i];
        let ok = ('a' <= c && c <= 'z') || ('A' <= c && c <= 'Z') || ('0' <= c && c <= '9') || c
            == '.' || c == '_' || c == '-';
        if !ok {
            assert(!id_char(cs@[i as int]));
            return Err("invalid experiment id");
        }
        i = i + 1;
    }
    Ok(id)
}

/// A failure of option checking: a required key is absent, or a value is refused.
#[derive(Debug, Clone, Copy, PartialEq, Eq)]
pub enum CliError {
    /// The named key was required and absent.
    Missing(&'static str),
    /// A value was refused, with the reason.
    Invalid(&'static str),
}

/// The text of an option-checking failure.
pub enum CliFailure {
    Missing(Seq<char>),
    Invalid(Seq<char>),
}

/// Whether the error `e` is the failure `f`.
pub open spec fn is_failure(e: CliError, f: CliFailure) -> bool {
    match (e, f) {
        (CliError::Missing(k), CliFailure::Missing(t)) => k@ == t,
        (CliError::Invalid(m), CliFailure::Invalid(t)) => m@ == t,
        _ => false,
    }
}

/// The text of the `--count` option, `1` by default.
pub open spec fn count_text(args: Seq<Seq<char>>) -> Seq<char> {
    value_or(args, "--count"@, "1"@)
}

/// The number of bounded exchanges: `--count`, 1 to 64, 1 by default.
pub open spec fn exchange_count_of(args: Seq<Seq<char>>) -> Result<usize, &'static str> {
    match parse_unsigned(count_text(args), usize::MAX as nat) {
        None => Err("invalid count"),
        Some(n) => if n == 0 || n > 64 {
            Err("count outside 1-64")
        } else {
            Ok(n as usize)
        },
    }
}

/// The number of exchanges is the count given (1 by default), and only 1 to
/// 64 is accepted.
pub proof fn law_exchange_count_is_bounded(a: Seq<Seq<char>>)
    ensures
        exchange_count_of(a) matches Ok(n) ==> 1 <= n <= 64 && parse_unsigned(
            value_or(a, "--count"@, "1"@),
            usize::MAX as nat,
        ) == Some(n as nat),
        parse_unsigned(value_or(a, "--count"@, "1"@), usize::MAX as nat) matches Some(n) && !(1
            <= n <= 64) ==> exchange_count_of(a) is Err,
{
}

/// The options shared by the probe client and server are bounded and are
/// what was given: the transport is `tcp` or `udp`, the port (required) is
/// within 40080-40100, the record size (32 by default) within 1-1200 bytes
/// and the duration (10 s by default) within 1-30 seconds.
pub proof fn law_common_options_are_bounded(a: Seq<Seq<char>>)
    ensures
        common_of(a) matches Ok((t, p, b, d)) ==> {
            &&& (t == "tcp"@ || t == "udp"@)
            &&& option_value(a, "--transport"@) == Some(t)
            &&& 40080 <= p <= 40100
            &&& option_value(a, "--port"@) matches Some(pt) && parse_unsigned(pt, u16::MAX as nat)
                == Some(p)
            &&& 1 <= b <= 1200
            &&& parse_unsigned(value_or(a, "--bytes"@, "32"@), usize::MAX as nat) == Some(b)
            &&& 1 <= d <= 30
            &&& parse_unsigned(value_or(a, "--duration"@, "10"@), u64::MAX as nat) == Some(d)
        },
        option_value(a, "--transport"@) is None ==> common_of(a) is Err,
        option_value(a, "--port"@) is None ==> common_of(a) is Err,
{
}

pub fn exchange_count(args: &[String]) -> (r: Result<usize, &'static str>)
    ensures
        r == exchange_count_of(argv(args@)),
{
    let text = match parse(args, "--count", Some("1")) {
        Some(t) => t,
        None => return Err("invalid count"),
    };
    match parse_usize(text.as_str()) {
        None => Err("invalid count"),
        Some(n) => if n == 0 || n > 64 {
            Err("count outside 1-64")
        } else {
            Ok(n)
        },
    }
}

/// The options shared by the probe client and server.
#[derive(Debug)]
pub struct CommonArgs {
    pub transport: String,
    pub port: u16,
    pub bytes: usize,
    pub duration_secs: u64,
}

/// The largest datagram payload, in bytes.
pub const MAX_BYTES: usize = 1200;
/// The highest port a runner may use; the lowest is 40080.
pub const MAX_PORT: u16 = 40100;
/// The longest probe run, in seconds.
pub const MAX_DURATION: u64 = 30;
/// The longest workload run, in seconds.
pub const MAX_WORKLOAD_DURATION: u64 = 600;

/// The probe options: `--transport` (tcp or udp) and `--port` (40080 to
/// 40100) are required, `--bytes` is 1 to 1200 (32 by default) and
/// `--duration` 1 to 30 seconds (10 by default), checked in that order.
pub open spec fn common_of(a: Seq<Seq<char>>) -> Result<(Seq<char>, nat, nat, nat), CliFailure> {
    match option_value(a, "--transport"@) {
        None => Err(CliFailure::Missing("--transport"@)),
        Some(t) => if t != "tcp"@ && t != "udp"@ {
            Err(CliFailure::Invalid("transport must be tcp or udp"@))
        } else {
            match option_value(a, "--port"@) {
                None => Err(CliFailure::Missing("--port"@)),
                Some(pt) => match parse_unsigned(pt, u16::MAX as nat) {
                    None => Err(CliFailure::Invalid("invalid port"@)),
                    Some(p) => if !(40080 <= p && p <= 40100) {
                        Err(CliFailure::Invalid("port outside 40080-40100"@))
                    } else {
                        match parse_unsigned(value_or(a, "--bytes"@, "32"@), usize::MAX as nat) {
                            None => Err(CliFailure::Invalid("invalid bytes"@)),
                            Some(b) => if b == 0 || b > 1200 {
                                Err(CliFailure::Invalid("bytes outside 1-1200"@))
                            } else {
                                match parse_unsigned(
                                    value_or(a, "--duration"@, "10"@),
                                    u64::MAX as nat,
                                ) {
                                    None => Err(CliFailure::Invalid("invalid duration"@)),
                                    Some(d) => if d == 0 || d > 30 {
                                        Err(CliFailure::Invalid("duration outside 1-30"@))
                                    } else {
                                        Ok((t, p, b, d))
                                    },
                                }
                            },
                        }
                    },
                },
            }
        },
    }
}

/// Whether the checked options `r` are what `common_of` describes.
pub open spec fn common_result(
    r: Result<CommonArgs, CliError>,
    s: Result<(Seq<char>, nat, nat, nat), CliFailure>,
) -> bool {
    match s {
        Ok(v) => r matches Ok(c) && c.transport@ == v.0 && c.port == v.1 && c.bytes == v.2
            && c.duration_secs == v.3,
        Err(f) => r matches Err(e) && is_failure(e, f),
    }
}

pub fn common(args: &[String]) -> (r: Result<CommonArgs, CliError>)
    ensures
        common_result(r, common_of(argv(args@))),
{
    let transport = match option(args, "--transport") {
        Some(t) => t,
        None => return Err(CliError::Missing("--transport")),
    };
    if !str_eq(transport.as_str(), "tcp") && !str_eq(transport.as_str(), "udp") {
        return Err(CliError::Invalid("transport must be tcp or udp"));
    }
    let port_text = match option(args, "--port") {
        Some(p) => p,
        None => return Err(CliError::Missing("--port")),
    };
    let port = match parse_u16(port_text.as_str()) {
        Some(p) => p,
        None => return Err(CliError::Invalid("invalid port")),
    };
    if !(40080 <= port && port <= MAX_PORT) {
        return Err(CliError::Invalid("port outside 40080-40100"));
    }
    let bytes_text = match parse(args, "--bytes", Some("32")) {
        Some(b) => b,
        None => return Err(CliError::Invalid("invalid bytes")),
    };
    let bytes = match parse_usize(bytes_text.as_str()) {
        Some(b) => b,
        None => return Err(CliError::Invalid("invalid bytes")),
    };
    if bytes == 0 || bytes > MAX_BYTES {
        return Err(CliError::Invalid("bytes outside 1-1200"));
    }
    let secs_text = match parse(args, "--duration", Some("10")) {
        Some(d) => d,
        None => return Err(CliError::Invalid("invalid duration")),
    };
    let secs = match parse_u64(secs_text.as_str()) {
        Some(d) => d,
        None => return Err(CliError::Invalid("invalid duration")),
    };
    if secs == 0 || secs > MAX_DURATION {
        return Err(CliError::Invalid("duration outside 1-30"));
    }
    Ok(CommonArgs { transport, port, bytes, duration_secs: secs })
}

/// The lab scenario: absent, or the value after the one `--scenario` among
/// the arguments after the command, which must be present and not itself an
/// option.
pub open spec fn scenario_from(a: Seq<Seq<char>>, i: int, found: Option<Seq<char>>) -> Result<
    Option<Seq<char>>,
    Seq<char>,
>
    decreases a.len() - i,
{
    if i < 1 || i >= a.len() {
        Ok(found)
    } else if a[i] == "--scenario"@ {
        if found is Some {
            Err("duplicate --scenario"@)
        } else if i + 1 < a.len() && !starts_with_dashes(a[i + 1]) {
            scenario_from(a, i + 2, Some(a[i + 1]))
        } else {
            Err("missing --scenario value"@)
        }
    } else {
        scenario_from(a, i + 1, found)
    }
}

/// Whether `s` begins with `--`.
pub open spec fn starts_with_dashes(s: Seq<char>) -> bool {
    s.len() >= 2 && s[0] == '-' && s[1] == '-'
}

pub(crate) fn begins_with_dashes(s: &str) -> (r: bool)
    ensures
        r == starts_with_dashes(s@),
{
    let cs = chars_of(s);
    cs.len() >= 2 && cs[0] == '-' && cs[1] == '-'
}

pub fn parse_scenario(args: &[String]) -> (r: Result<Option<String>, &'static str>)
    ensures
        match scenario_from(argv(args@), 1, None) {
            Ok(None) => r matches Ok(None),
            Ok(Some(v)) => r matches Ok(Some(s)) && s@ == v,
            Err(m) => r matches Err(e) && e@ == m,
        },
{
    let ghost a = argv(args@);
    let mut found: Option<String> = None;
    let mut i: usize = 1;
    while i < args.len()
        invariant
            a == argv(args@),
            a.len() == args@.len(),
            1 <= i <= args@.len() + 1,
            scenario_from(a, 1, None) == scenario_from(a, i as int, match found {
                Some(f) => Some(f@),
                None => None,
            }),
        decreases args@.len() + 1 - i,
    {
        if str_eq(args[i].as_str(), "--scenario") {
            if found.is_some() {
                return Err("duplicate --scenario");
            }
            if i + 1 < args.len() && !begins_with_dashes(args[i + 1].as_str()) {
                found = Some(args[i + 1].clone());
                i = i + 2;
            } else {
                return Err("missing --scenario value");
            }
        } else {
            i = i + 1;
        }
    }
    proof {
        assert(scenario_from(a, i as int, match found {
            Some(f) => Some(f@),
            None => None,
        }) == Ok::<Option<Seq<char>>, Seq<char>>(match found {
            Some(f) => Some(f@),
            None => None,
        }));
    }
    Ok(found)
}

/// What `lab` runs: the socket-free failover timeline, or the bounded
/// reliable-UDP fixture.
#[derive(Debug, Clone, Copy, PartialEq, Eq, Structural)]
pub enum LabScenario {
    Timeline,
    ReliableUdp,
}

/// The lab scenario: none given means the timeline, `reliable-udp` the
/// fixture; any other is refused, naming it.
pub open spec fn lab_scenario_of(a: Seq<Seq<char>>) -> Result<LabScenario, Seq<char>> {
    match scenario_from(a, 1, None) {
        Err(m) => Err(m),
        Ok(None) => Ok(LabScenario::Timeline),
        Ok(Some(v)) => if v == "reliable-udp"@ {
            Ok(LabScenario::ReliableUdp)
        } else {
            Err("unknown lab scenario: "@ + v)
        },
    }
}

proof fn lemma_no_scenario_from(a: Seq<Seq<char>>, i: int, found: Option<Seq<char>>)
    requires
        1 <= i,
        forall|k: int| i <= k < a.len() ==> a[k] != "--scenario"@,
    ensures
        scenario_from(a, i, found) == Ok::<Option<Seq<char>>, Seq<char>>(found),
    decreases a.len() - i,
{
    if i < a.len() {
        lemma_no_scenario_from(a, i + 1, found);
    }
}

proof fn lemma_one_scenario_from(a: Seq<Seq<char>>, i: int, at: int)
    requires
        1 <= i <= at,
        at + 1 < a.len(),
        a[at] == "--scenario"@,
        !starts_with_dashes(a[at + 1]),
        forall|k: int| i <= k < a.len() && k != at ==> a[k] != "--scenario"@,
    ensures
        scenario_from(a, i, None) == Ok::<Option<Seq<char>>, Seq<char>>(Some(a[at + 1])),
    decreases a.len() - i,
{
    if i < at {
        lemma_one_scenario_from(a, i + 1, at);
    } else {
        lemma_no_scenario_from(a, at + 2, Some(a[at + 1]));
    }
}

/// The lab runs its timeline when no `--scenario` is given, and when one
/// `--scenario` is given with a value, it runs the reliable-UDP fixture for
/// `reliable-udp` and refuses any other value, naming it.
pub proof fn law_lab_scenarios(a: Seq<Seq<char>>, at: int)
    ensures
        (forall|k: int| 1 <= k < a.len() ==> a[k] != "--scenario"@) ==> lab_scenario_of(a)
            == Ok::<LabScenario, Seq<char>>(LabScenario::Timeline),
        1 <= at && at + 1 < a.len() && a[at] == "--scenario"@ && !starts_with_dashes(a[at + 1])
            && (forall|k: int| 1 <= k < a.len() && k != at ==> a[k] != "--scenario"@) ==> (if a[at
            + 1] == "reliable-udp"@ {
            lab_scenario_of(a) == Ok::<LabScenario, Seq<char>>(LabScenario::ReliableUdp)
        } else {
            lab_scenario_of(a) == Err::<LabScenario, Seq<char>>(
                "unknown lab scenario: "@ + a[at + 1],
            )
        }),
{
    if forall|k: int| 1 <= k < a.len() ==> a[k] != "--scenario"@ {
        lemma_no_scenario_from(a, 1, None);
    }
    if 1 <= at && at + 1 < a.len() && a[at] == "--scenario"@ && !starts_with_dashes(a[at + 1])
        && (forall|k: int| 1 <= k < a.len() && k != at ==> a[k] != "--scenario"@) {
        lemma_one_scenario_from(a, 1, at);
    }
}

/// The failover side comes from the command: `failover-server` serves and
/// `failover-client` connects whatever `--role` says, and `failover` takes
/// `--role server` or `--role client`, refusing any other role.
pub proof fn law_failover_roles(a: Seq<Seq<char>>)
    ensures
        a.len() > 0 && a[0] == "failover-server"@ ==> failover_role_of(a) == Ok::<
            FailoverRole,
            CliFailure,
        >(FailoverRole::Server),
        a.len() > 0 && a[0] == "failover-client"@ ==> failover_role_of(a) == Ok::<
            FailoverRole,
            CliFailure,
        >(FailoverRole::Client),
        a.len() > 0 && a[0] == "failover"@ && option_value(a, "--role"@) == Some("server"@)
            ==> failover_role_of(a) == Ok::<FailoverRole, CliFailure>(FailoverRole::Server),
        a.len() > 0 && a[0] == "failover"@ && option_value(a, "--role"@) == Some("client"@)
            ==> failover_role_of(a) == Ok::<FailoverRole, CliFailure>(FailoverRole::Client),
        a.len() > 0 && a[0] == "failover"@ && option_value(a, "--role"@) != Some("server"@)
            && option_value(a, "--role"@) != Some("client"@) ==> failover_role_of(a) is Err,
        a.len() > 0 && a[0] != "failover"@ && a[0] != "failover-server"@ && a[0]
            != "failover-client"@ ==> failover_role_of(a) is Err,
{
    reveal_strlit("failover");
    reveal_strlit("failover-server");
    reveal_strlit("failover-client");
    reveal_strlit("server");
    reveal_strlit("client");
    assert("failover"@.len() == 8);
    assert("failover-server"@.len() == 15);
    assert("failover-client"@.len() == 15);
    assert("failover-server"@[9] != "failover-client"@[9]);
    assert("server"@[0] != "client"@[0]);
}

pub fn lab_scenario(args: &[String]) -> (r: Result<LabScenario, String>)
    ensures
        match lab_scenario_of(argv(args@)) {
            Ok(s) => r == Ok::<LabScenario, String>(s),
            Err(m) => r matches Err(e) && e@ == m,
        },
{
    match parse_scenario(args) {
        Err(m) => Err(string_of(chars_of(m).as_slice())),
        Ok(None) => Ok(LabScenario::Timeline),
        Ok(Some(v)) => {
            if str_eq(v.as_str(), "reliable-udp") {
                Ok(LabScenario::ReliableUdp)
            } else {
                let mut out = chars_of("unknown lab scenario: ");
                push_str(&mut out, v.as_str());
                Err(string_of(out.as_slice()))
            }
        },
    }
}

/// The command a run names by its first argument.
#[derive(Debug, Clone, Copy, PartialEq, Eq, Structural)]
pub enum Command {
    Server,
    MatrixProbe,
    Client,
    Lab,
    Workload,
    PeriodicServer,
    PeriodicClient,
    SchedulerFairness,
    KeyUpdate,
    HealthObserve,
    Capabilities,
    Multistream,
    Failover,
    EndpointRebindServer,
    EndpointRebindClient,
    Keygen,
    Help,
    Unknown,
}

/// The command of a run: `probe` with `--matrix` anywhere is the matrix
/// probe and otherwise the client; `failover-server` and `failover-client`
/// are failover; no command, or `--help`, asks for help.
pub open spec fn command_of(a: Seq<Seq<char>>) -> Command {
    if a.len() == 0 {
        Command::Help
    } else {
        let c = a[0];
        if c == "server"@ {
            Command::Server
        } else if c == "probe"@ && has_flag(a, "--matrix"@) {
            Command::MatrixProbe
        } else if c == "client"@ || c == "probe"@ {
            Command::Client
        } else if c == "lab"@ {
            Command::Lab
        } else if c == "workload"@ {
            Command::Workload
        } else if c == "periodic-server"@ {
            Command::PeriodicServer
        } else if c == "periodic-client"@ {
            Command::PeriodicClient
        } else if c == "scheduler-fairness"@ {
            Command::SchedulerFairness
        } else if c == "key-update"@ {
            Command::KeyUpdate
        } else if c == "health-observe"@ {
            Command::HealthObserve
        } else if c == "capabilities"@ {
            Command::Capabilities
        } else if c == "multistream"@ {
            Command::Multistream
        } else if c == "failover"@ || c == "failover-server"@ || c == "failover-client"@ {
            Command::Failover
        } else if c == "endpoint-rebind-server"@ {
            Command::EndpointRebindServer
        } else if c == "endpoint-rebind-client"@ {
            Command::EndpointRebindClient
        } else if c == "keygen"@ {
            Command::Keygen
        } else if c == "--help"@ {
            Command::Help
        } else {
            Command::Unknown
        }
    }
}

/// Each command name selects its own runner, whatever follows it: the
/// periodic server and client, the two endpoint-rebind sides and every other
/// runner are told apart by name; `probe` is the matrix probe exactly when
/// `--matrix` is given anywhere; the three failover names all start a
/// failover run; no command, or `--help`, asks for help; and any other first
/// argument is an unknown command.
pub proof fn law_each_name_selects_its_runner(a: Seq<Seq<char>>)
    ensures
        a.len() == 0 ==> command_of(a) == Command::Help,
        a.len() > 0 && a[0] == "server"@ ==> command_of(a) == Command::Server,
        a.len() > 0 && a[0] == "client"@ ==> command_of(a) == Command::Client,
        a.len() > 0 && a[0] == "lab"@ ==> command_of(a) == Command::Lab,
        a.len() > 0 && a[0] == "workload"@ ==> command_of(a) == Command::Workload,
        a.len() > 0 && a[0] == "periodic-server"@ ==> command_of(a) == Command::PeriodicServer,
        a.len() > 0 && a[0] == "periodic-client"@ ==> command_of(a) == Command::PeriodicClient,
        a.len() > 0 && a[0] == "scheduler-fairness"@ ==> command_of(a) == Command::SchedulerFairness,
        a.len() > 0 && a[0] == "key-update"@ ==> command_of(a) == Command::KeyUpdate,
        a.len() > 0 && a[0] == "health-observe"@ ==> command_of(a) == Command::HealthObserve,
        a.len() > 0 && a[0] == "capabilities"@ ==> command_of(a) == Command::Capabilities,
        a.len() > 0 && a[0] == "multistream"@ ==> command_of(a) == Command::Multistream,
        a.len() > 0 && a[0] == "failover"@ ==> command_of(a) == Command::Failover,
        a.len() > 0 && a[0] == "failover-server"@ ==> command_of(a) == Command::Failover,
        a.len() > 0 && a[0] == "failover-client"@ ==> command_of(a) == Command::Failover,
        a.len() > 0 && a[0] == "endpoint-rebind-server"@ ==> command_of(a) == Command::EndpointRebindServer,
        a.len() > 0 && a[0] == "endpoint-rebind-client"@ ==> command_of(a) == Command::EndpointRebindClient,
        a.len() > 0 && a[0] == "keygen"@ ==> command_of(a) == Command::Keygen,
        a.len() > 0 && a[0] == "--help"@ ==> command_of(a) == Command::Help,
        a.len() > 0 && a[0] == "probe"@ ==> command_of(a) == (if has_flag(a, "--matrix"@) {
            Command::MatrixProbe
        } else {
            Command::Client
        }),
        a.len() > 0 && a[0] != "server"@ && a[0] != "client"@ && a[0] != "lab"@ && a[0] != "workload"@ && a[0] != "periodic-server"@ && a[0] != "periodic-client"@ && a[0] != "scheduler-fairness"@ && a[0] != "key-update"@ && a[0] != "health-observe"@ && a[0] != "capabilities"@ && a[0] != "multistream"@ && a[0] != "failover"@ && a[0] != "failover-server"@ && a[0] != "failover-client"@ && a[0] != "endpoint-rebind-server"@ && a[0] != "endpoint-rebind-client"@ && a[0] != "keygen"@ && a[0] != "--help"@ && a[0] != "probe"@ ==> command_of(a) == Command::Unknown,
{
    reveal_strlit("server");
    reveal_strlit("client");
    reveal_strlit("lab");
    reveal_strlit("workload");
    reveal_strlit("periodic-server");
    reveal_strlit("periodic-client");
    reveal_strlit("scheduler-fairness");
    reveal_strlit("key-update");
    reveal_strlit("health-observe");
    reveal_strlit("capabilities");
    reveal_strlit("multistream");
    reveal_strlit("failover");
    reveal_strlit("failover-server");
    reveal_strlit("failover-client");
    reveal_strlit("endpoint-rebind-server");
    reveal_strlit("endpoint-rebind-client");
    reveal_strlit("keygen");
    reveal_strlit("--help");
    reveal_strlit("probe");
    assert("server"@.len() == 6);
    assert("client"@.len() == 6);
    assert("lab"@.len() == 3);
    assert("workload"@.len() == 8);
    assert("periodic-server"@.len() == 15);
    assert("periodic-client"@.len() == 15);
    assert("scheduler-fairness"@.len() == 18);
    assert("key-update"@.len() == 10);
    assert("health-observe"@.len() == 14);
    assert("capabilities"@.len() == 12);
    assert("multistream"@.len() == 11);
    assert("failover"@.len() == 8);
    assert("failover-server"@.len() == 15);
    assert("failover-client"@.len() == 15);
    assert("endpoint-rebind-server"@.len() == 22);
    assert("endpoint-rebind-client"@.len() == 22);
    assert("keygen"@.len() == 6);
    assert("--help"@.len() == 6);
    assert("probe"@.len() == 5);
    assert("server"@[0] != "client"@[0]);
    assert("server"@[0] != "keygen"@[0]);
    assert("server"@[0] != "--help"@[0]);
    assert("client"@[0] != "keygen"@[0]);
    assert("client"@[0] != "--help"@[0]);
    assert("workload"@[0] != "failover"@[0]);
    assert("periodic-server"@[9] != "periodic-client"@[9]);
    assert("periodic-server"@[0] != "failover-server"@[0]);
    assert("periodic-server"@[0] != "failover-client"@[0]);
    assert("periodic-client"@[0] != "failover-server"@[0]);
    assert("periodic-client"@[0] != "failover-client"@[0]);
    assert("failover-server"@[9] != "failover-client"@[9]);
    assert("endpoint-rebind-server"@[16] != "endpoint-rebind-client"@[16]);
    assert("keygen"@[0] != "--help"@[0]);
}

pub fn command(args: &[String]) -> (c: Command)
    ensures
        c == command_of(argv(args@)),
{
    if args.len() == 0 {
        return Command::Help;
    }
    let c = args[0].as_str();
    if str_eq(c, "server") {
        Command::Server
    } else if str_eq(c, "probe") && has_flag_arg(args, "--matrix") {
        Command::MatrixProbe
    } else if str_eq(c, "client") || str_eq(c, "probe") {
        Command::Client
    } else if str_eq(c, "lab") {
        Command::Lab
    } else if str_eq(c, "workload") {
        Command::Workload
    } else if str_eq(c, "periodic-server") {
        Command::PeriodicServer
    } else if str_eq(c, "periodic-client") {
        Command::PeriodicClient
    } else if str_eq(c, "scheduler-fairness") {
        Command::SchedulerFairness
    } else if str_eq(c, "key-update") {
        Command::KeyUpdate
    } else if str_eq(c, "health-observe") {
        Command::HealthObserve
    } else if str_eq(c, "capabilities") {
        Command::Capabilities
    } else if str_eq(c, "multistream") {
        Command::Multistream
    } else if str_eq(c, "failover") || str_eq(c, "failover-server") || str_eq(c, "failover-client") {
        Command::Failover
    } else if str_eq(c, "endpoint-rebind-server") {
        Command::EndpointRebindServer
    } else if str_eq(c, "endpoint-rebind-client") {
        Command::EndpointRebindClient
    } else if str_eq(c, "keygen") {
        Command::Keygen
    } else if str_eq(c, "--help") {
        Command::Help
    } else {
        Command::Unknown
    }
}

/// A workload runs 1 to 600 seconds.
pub fn workload_duration_valid(duration: u64) -> (r: bool)
    ensures
        r == (1 <= duration <= 600),
{
    1 <= duration && duration <= MAX_WORKLOAD_DURATION
}

/// The side of a failover run.
#[derive(Debug, Clone, Copy, PartialEq, Eq, Structural)]
pub enum FailoverRole {
    Server,
    Client,
}

/// The failover side: the legacy `failover-server` and `failover-client`
/// commands name it, and `failover` takes it from `--role`.
pub open spec fn failover_role_of(a: Seq<Seq<char>>) -> Result<FailoverRole, CliFailure> {
    if a.len() > 0 && a[0] == "failover-server"@ {
        Ok(FailoverRole::Server)
    } else if a.len() > 0 && a[0] == "failover-client"@ {
        Ok(FailoverRole::Client)
    } else if a.len() > 0 && a[0] == "failover"@ {
        match option_value(a, "--role"@) {
            None => Err(CliFailure::Missing("--role"@)),
            Some(role) => if role == "server"@ {
                Ok(FailoverRole::Server)
            } else if role == "client"@ {
                Ok(FailoverRole::Client)
            } else {
                Err(CliFailure::Invalid("failover --role must be server or client"@))
            },
        }
    } else {
        Err(CliFailure::Invalid("use failover --role server|client"@))
    }
}

pub fn failover_role(args: &[String]) -> (r: Result<FailoverRole, CliError>)
    ensures
        match failover_role_of(argv(args@)) {
            Ok(role) => r == Ok::<FailoverRole, CliError>(role),
            Err(f) => r matches Err(e) && is_failure(e, f),
        },
{
    if args.len() > 0 && str_eq(args[0].as_str(), "failover-server") {
        return Ok(FailoverRole::Server);
    }
    if args.len() > 0 && str_eq(args[0].as_str(), "failover-client") {
        return Ok(FailoverRole::Client);
    }
    if args.len() > 0 && str_eq(args[0].as_str(), "failover") {
        let role = match option(args, "--role") {
            Some(r) => r,
            None => return Err(CliError::Missing("--role")),
        };
        if str_eq(role.as_str(), "server") {
            return Ok(FailoverRole::Server);
        }
        if str_eq(role.as_str(), "client") {
            return Ok(FailoverRole::Client);
        }
        return Err(CliError::Invalid("failover --role must be server or client"));
    }
    Err(CliError::Invalid("use failover --role server|client"))
}


/// The benchmark payload file asked for, if any: `--payload-file` is only
/// accepted with the TCP transport, a single exchange and JSON output.
pub open spec fn payload_file_request_of(
    args: Seq<Seq<char>>,
    transport: Seq<char>,
    count: usize,
) -> Result<Option<Seq<char>>, Seq<char>> {
    match option_value(args, "--payload-file"@) {
        None => Ok(None),
        Some(path) => if transport != "tcp"@ || count != 1 || !has_flag(args, "--json"@) {
            Err("--payload-file requires TCP, --count 1, and --json"@)
        } else {
            Ok(Some(path))
        },
    }
}

/// A benchmark payload file is used only on a single TCP exchange with JSON
/// output, and it is the file named: without `--payload-file` there is
/// none, a named file is refused on any other run, and an accepted one is
/// the value given to `--payload-file`.
pub proof fn law_payload_file_needs_a_single_json_tcp_exchange(
    args: Seq<Seq<char>>,
    transport: Seq<char>,
    count: usize,
)
    ensures
        option_value(args, "--payload-file"@) is None ==> payload_file_request_of(
            args,
            transport,
            count,
        ) == Ok::<Option<Seq<char>>, Seq<char>>(None),
        payload_file_request_of(args, transport, count) matches Ok(Some(p)) ==> {
            &&& transport == "tcp"@
            &&& count == 1
            &&& has_flag(args, "--json"@)
            &&& option_value(args, "--payload-file"@) == Some(p)
        },
        option_value(args, "--payload-file"@) is Some && (transport != "tcp"@ || count != 1
            || !has_flag(args, "--json"@)) ==> payload_file_request_of(args, transport, count) is Err,
        option_value(args, "--payload-file"@) matches Some(p) ==> (transport == "tcp"@ && count
            == 1 && has_flag(args, "--json"@) ==> payload_file_request_of(args, transport, count)
            == Ok::<Option<Seq<char>>, Seq<char>>(Some(p))),
{
}

/// The path of the benchmark payload file, checked against the transport,
/// exchange count and output mode of the run.
pub fn payload_file_request(args: &[String], transport: &str, count: usize) -> (r: Result<
    Option<String>,
    &'static str,
>)
    ensures
        match payload_file_request_of(argv(args@), transport@, count) {
            Ok(None) => r matches Ok(None),
            Ok(Some(p)) => r matches Ok(Some(s)) && s@ == p,
            Err(m) => r matches Err(e) && e@ == m,
        },
{
    match option(args, "--payload-file") {
        None => Ok(None),
        Some(path) => {
            if !str_eq(transport, "tcp") || count != 1 || !json_mode(args) {
                return Err("--payload-file requires TCP, --count 1, and --json");
            }
            Ok(Some(path))
        },
    }
}

/// The evidence field of one retired packet.
pub open spec fn retired_field(pn: u64) -> Seq<char> {
    ",\"applied\":true,\"packet_number\":"@ + decimal(pn as nat) + ",\"retired\":true"@
}

/// One evidence field per retired packet, in order: never a single
/// representative for several.
pub fn carrier_retired_fields(acked_packets: &[u64]) -> (fields: Vec<String>)
    ensures
        fields@.len() == acked_packets@.len(),
        forall|i: int|
            0 <= i < acked_packets@.len() ==> (#[trigger] fields@[i])@ == retired_field(
                acked_packets@[i],
            ),
{
    let mut fields: Vec<String> = Vec::new();
    let mut i: usize = 0;
    while i < acked_packets.len()
        invariant
            i <= acked_packets@.len(),
            fields@.len() == i,
            forall|k: int|
                0 <= k < i ==> (#[trigger] fields@[k])@ == retired_field(acked_packets@[k]),
        decreases acked_packets@.len() - i,
    {
        let mut out = chars_of(",\"applied\":true,\"packet_number\":");
        push_decimal(&mut out, acked_packets[i]);
        push_str(&mut out, ",\"retired\":true");
        fields.push(string_of(out.as_slice()));
        i = i + 1;
    }
    fields
}

} // verus!
