//! Option checks and latency summary of the periodic Session runner.
use vstd::prelude::*;
use crate::cli::{argv, option, value_or};
use crate::limits::SessionLimits;
use crate::text::{chars_of, parse_u64, parse_unsigned, string_of};

verus! {

/// The value of `key`, or the text `default` when the key is absent.
pub fn value(args: &[String], key: &str, default: &str) -> (v: String)
    ensures
        v@ == value_or(argv(args@), key@, default@),
{
    match option(args, key) {
        Some(v) => v,
        None => string_of(chars_of(default).as_slice()),
    }
}

/// The bounds of one periodic run.
#[derive(Clone, Copy, Debug, PartialEq, Eq, Structural)]
pub struct PeriodicConfig {
    pub port: u16,
    pub bytes: usize,
    pub count: usize,
    pub duration_secs: u64,
    pub interval_ms: u64,
    pub setup_timeout_ms: u64,
    pub ack_timeout_ms: u64,
}

/// The most records one run may send.
pub const MAX_COUNT: usize = 600;
/// The most application bytes one run may send.
pub const MAX_TOTAL_BYTES: usize = 1048576;
/// The shortest interval between records, in milliseconds.
pub const MIN_INTERVAL_MS: u64 = 100;
/// The longest interval between records, in milliseconds.
pub const MAX_INTERVAL_MS: u64 = 5000;
/// The default setup timeout, in milliseconds.
pub const DEFAULT_SETUP_TIMEOUT_MS: u64 = 5000;
/// The longest setup timeout, in milliseconds.
pub const MAX_SETUP_TIMEOUT_MS: u64 = 10000;

/// The runtime limits of a periodic run: two records and one record's bytes
/// of queue headroom, twice the run's bytes in all, and the run's bytes as
/// stream and session window.
pub fn limits(cfg: PeriodicConfig) -> (l: SessionLimits)
    requires
        cfg.count + 2 <= usize::MAX,
        cfg.bytes * (cfg.count + 1) <= usize::MAX,
        cfg.bytes * cfg.count * 2 <= usize::MAX,
    ensures
        l == (SessionLimits {
            max_streams: 1,
            max_queue_records: (cfg.count + 2) as usize,
            max_queue_bytes: (cfg.bytes * (cfg.count + 1)) as usize,
            max_total_bytes: (cfg.bytes * cfg.count * 2) as usize,
            max_record_bytes: cfg.bytes,
            max_stream_window: Some((cfg.bytes * cfg.count) as usize),
            max_session_window: Some((cfg.bytes * cfg.count) as usize),
        }),
{
    assert(cfg.bytes * cfg.count <= cfg.bytes * cfg.count * 2) by (nonlinear_arith);
    SessionLimits {
        max_streams: 1,
        max_queue_records: cfg.count + 2,
        max_queue_bytes: cfg.bytes * (cfg.count + 1),
        max_total_bytes: cfg.bytes * cfg.count * 2,
        max_record_bytes: cfg.bytes,
        max_stream_window: Some(cfg.bytes * cfg.count),
        max_session_window: Some(cfg.bytes * cfg.count),
    }
}

/// A numeric option read as an unsigned 64-bit number, with a default text.
pub open spec fn num_arg(a: Seq<Seq<char>>, key: Seq<char>, default: Seq<char>) -> Option<nat> {
    parse_unsigned(value_or(a, key, default), u64::MAX as nat)
}

/// The periodic options: every value must be a number, then the port is
/// 40080 to 40100, the record size 1 to 1200 bytes, the count 1 to 600, the
/// duration 1 to 600 seconds, the interval 100 to 5000 ms, the setup and
/// acknowledgement timeouts 1 to 10000 ms, and all records together at most
/// 1 MiB; the first check that fails names the failure.
pub open spec fn periodic_config_of(a: Seq<Seq<char>>) -> Result<PeriodicConfig, Seq<char>> {
    match (
        num_arg(a, "--port"@, "40080"@),
        num_arg(a, "--bytes"@, "32"@),
        num_arg(a, "--count"@, "1"@),
        num_arg(a, "--duration"@, "10"@),
        num_arg(a, "--interval-ms"@, "1000"@),
        num_arg(a, "--setup-timeout-ms"@, "5000"@),
        num_arg(a, "--ack-timeout-ms"@, "1000"@),
    ) {
        (Some(port), Some(bytes), Some(count), Some(duration), Some(interval), Some(setup), Some(ack)) => {
            if !(40080 <= port <= 40100) {
                Err("port outside 40080-40100"@)
            } else if bytes == 0 || bytes > 1200 {
                Err("bytes outside 1-1200"@)
            } else if count == 0 || count > 600 {
                Err("count outside 1-600"@)
            } else if duration == 0 || duration > 600 {
                Err("duration outside 1-600"@)
            } else if !(100 <= interval <= 5000) {
                Err("interval-ms outside 100-5000"@)
            } else if setup == 0 || setup > 10000 {
                Err("setup-timeout-ms outside 1-10000"@)
            } else if ack == 0 || ack > 10000 {
                Err("ack-timeout-ms outside 1-10000"@)
            } else if bytes * count > 1048576 {
                Err("application bytes exceed 1048576"@)
            } else {
                Ok(
                    PeriodicConfig {
                        port: port as u16,
                        bytes: bytes as usize,
                        count: count as usize,
                        duration_secs: duration as u64,
                        interval_ms: interval as u64,
                        setup_timeout_ms: setup as u64,
                        ack_timeout_ms: ack as u64,
                    },
                )
            }
        },
        _ => Err("invalid numeric argument"@),
    }
}

/// Every accepted periodic configuration is within the documented bounds
/// and is what the options say: port 40080-40100 (40080 by default), 1-1200
/// bytes per record (32), 1-600 records (1), 1-600 seconds (10), an interval
/// of 100-5000 ms (1000), setup and acknowledgement timeouts of 1-10000 ms
/// (5000 and 1000), and at most 1 MiB of records in all; any option that
/// reads as a number outside its bounds is refused.
pub proof fn law_periodic_config_is_bounded(a: Seq<Seq<char>>)
    ensures
        periodic_config_of(a) matches Ok(c) ==> {
            &&& 40080 <= c.port <= 40100
            &&& num_arg(a, "--port"@, "40080"@) == Some(c.port as nat)
            &&& 1 <= c.bytes <= 1200
            &&& num_arg(a, "--bytes"@, "32"@) == Some(c.bytes as nat)
            &&& 1 <= c.count <= 600
            &&& num_arg(a, "--count"@, "1"@) == Some(c.count as nat)
            &&& 1 <= c.duration_secs <= 600
            &&& num_arg(a, "--duration"@, "10"@) == Some(c.duration_secs as nat)
            &&& 100 <= c.interval_ms <= 5000
            &&& num_arg(a, "--interval-ms"@, "1000"@) == Some(c.interval_ms as nat)
            &&& 1 <= c.setup_timeout_ms <= 10000
            &&& num_arg(a, "--setup-timeout-ms"@, "5000"@) == Some(c.setup_timeout_ms as nat)
            &&& 1 <= c.ack_timeout_ms <= 10000
            &&& num_arg(a, "--ack-timeout-ms"@, "1000"@) == Some(c.ack_timeout_ms as nat)
            &&& c.bytes * c.count <= 1048576
        },
        num_arg(a, "--port"@, "40080"@) matches Some(v) && !(40080 <= v <= 40100) ==> periodic_config_of(a) is Err,
        num_arg(a, "--bytes"@, "32"@) matches Some(v) && !(1 <= v <= 1200) ==> periodic_config_of(a) is Err,
        num_arg(a, "--count"@, "1"@) matches Some(v) && !(1 <= v <= 600) ==> periodic_config_of(a) is Err,
        num_arg(a, "--duration"@, "10"@) matches Some(v) && !(1 <= v <= 600) ==> periodic_config_of(a) is Err,
        num_arg(a, "--interval-ms"@, "1000"@) matches Some(v) && !(100 <= v <= 5000) ==> periodic_config_of(a) is Err,
        num_arg(a, "--setup-timeout-ms"@, "5000"@) matches Some(v) && !(1 <= v <= 10000) ==> periodic_config_of(a) is Err,
        num_arg(a, "--ack-timeout-ms"@, "1000"@) matches Some(v) && !(1 <= v <= 10000) ==> periodic_config_of(a) is Err,
{
}

fn num(args: &[String], key: &str, default: &str) -> (r: Option<u64>)
    ensures
        (r is Some) == (num_arg(argv(args@), key@, default@) is Some),
        r matches Some(n) ==> n == num_arg(argv(args@), key@, default@)->0,
{
    let text = value(args, key, default);
    parse_u64(text.as_str())
}

pub fn config(args: &[String]) -> (r: Result<PeriodicConfig, &'static str>)
    ensures
        match periodic_config_of(argv(args@)) {
            Ok(c) => r == Ok::<PeriodicConfig, &'static str>(c),
            Err(m) => r matches Err(e) && e@ == m,
        },
{
    let port = match num(args, "--port", "40080") {
        Some(n) => n,
        None => return Err("invalid numeric argument"),
    };
    let bytes = match num(args, "--bytes", "32") {
        Some(n) => n,
        None => return Err("invalid numeric argument"),
    };
    let count = match num(args, "--count", "1") {
        Some(n) => n,
        None => return Err("invalid numeric argument"),
    };
    let duration = match num(args, "--duration", "10") {
        Some(n) => n,
        None => return Err("invalid numeric argument"),
    };
    let interval = match num(args, "--interval-ms", "1000") {
        Some(n) => n,
        None => return Err("invalid numeric argument"),
    };
    let setup_timeout = match num(args, "--setup-timeout-ms", "5000") {
        Some(n) => n,
        None => return Err("invalid numeric argument"),
    };
    let ack_timeout = match num(args, "--ack-timeout-ms", "1000") {
        Some(n) => n,
        None => return Err("invalid numeric argument"),
    };
    if !(40080 <= port && port <= 40100) {
        return Err("port outside 40080-40100");
    }
    if bytes == 0 || bytes > 1200 {
        return Err("bytes outside 1-1200");
    }
    if count == 0 || count > 600 {
        return Err("count outside 1-600");
    }
    if duration == 0 || duration > 600 {
        return Err("duration outside 1-600");
    }
    if !(MIN_INTERVAL_MS <= interval && interval <= MAX_INTERVAL_MS) {
        return Err("interval-ms outside 100-5000");
    }
    if setup_timeout == 0 || setup_timeout > MAX_SETUP_TIMEOUT_MS {
        return Err("setup-timeout-ms outside 1-10000");
    }
    if ack_timeout == 0 || ack_timeout > 10000 {
        return Err("ack-timeout-ms outside 1-10000");
    }
    assert(bytes * count <= 1200 * 600) by (nonlinear_arith)
        requires
            bytes <= 1200,
            count <= 600,
    ;
    let total = bytes * count;
    if total > 1048576 {
        return Err("application bytes exceed 1048576");
    }
    Ok(
        PeriodicConfig {
            port: port as u16,
            bytes: bytes as usize,
            count: count as usize,
            duration_secs: duration,
            interval_ms: interval,
            setup_timeout_ms: setup_timeout,
            ack_timeout_ms: ack_timeout,
        },
    )
}

/// The index that the nearest-rank percentile `numerator / denominator`
/// picks among `len` sorted values: the rank `ceil(len * numerator /
/// denominator)`, counted from one and kept within the values.
pub open spec fn nearest_rank_index(len: nat, numerator: nat, denominator: nat) -> int {
    let rank = (len * numerator + denominator - 1) / denominator as int;
    let index = if rank >= 1 { rank - 1 } else { 0 };
    if index < len - 1 {
        index
    } else {
        len - 1
    }
}

/// The nearest rank: for a share `numerator / denominator` of at most one
/// of `len > 0` sorted values, the index is the least one whose rank covers
/// that share of the values (and the first when the share is zero), always
/// within the values.
pub proof fn law_nearest_rank(len: nat, numerator: nat, denominator: nat)
    requires
        len > 0,
        denominator > 0,
        numerator <= denominator,
    ensures
        0 <= nearest_rank_index(len, numerator, denominator) < len,
        len * numerator > 0 ==> (nearest_rank_index(len, numerator, denominator) + 1) * denominator
            >= len * numerator && nearest_rank_index(len, numerator, denominator) * denominator
            < len * numerator,
        len * numerator == 0 ==> nearest_rank_index(len, numerator, denominator) == 0,
{
    let x: int = (len * numerator) as int;
    let d: int = denominator as int;
    let rank: int = (x + d - 1) / d;
    assert(rank * d <= x + d - 1 < rank * d + d) by (nonlinear_arith)
        requires
            d > 0,
            rank == (x + d - 1) / d,
    ;
    assert(x <= len * d) by (nonlinear_arith)
        requires
            x == len * numerator,
            numerator <= d,
            len >= 0,
    ;
    if x > 0 {
        assert(rank >= 1) by (nonlinear_arith)
            requires
                d > 0,
                x > 0,
                rank * d + d > x + d - 1,
        ;
        assert(rank <= len) by (nonlinear_arith)
            requires
                d > 0,
                rank * d <= x + d - 1,
                x <= len * d,
        ;
        assert((rank - 1) * d == rank * d - d) by (nonlinear_arith);
        assert(nearest_rank_index(len, numerator, denominator) == rank - 1);
    } else {
        assert(rank == 0) by (nonlinear_arith)
            requires
                d > 0,
                x == 0,
                rank == (x + d - 1) / d,
        ;
    }
}

/// The nearest-rank percentile of sorted values, or 0 when there are none.
pub fn percentile(sorted: &[u128], numerator: usize, denominator: usize) -> (r: u128)
    requires
        denominator > 0,
        sorted@.len() * numerator <= usize::MAX,
    ensures
        sorted@.len() == 0 ==> r == 0,
        sorted@.len() > 0 ==> r == sorted@[nearest_rank_index(
            sorted@.len(),
            numerator as nat,
            denominator as nat,
        )],
{
    if sorted.len() == 0 {
        return 0;
    }
    let product = sorted.len() * numerator;
    let quotient = product / denominator;
    assert(product % denominator != 0 ==> quotient < product) by (nonlinear_arith)
        requires
            denominator > 0,
            quotient == product / denominator,
    ;
    let rank = if product % denominator != 0 { quotient + 1 } else { quotient };
    proof {
        let n = product as int;
        let d = denominator as int;
        assert(rank == (n + d - 1) / d) by (nonlinear_arith)
            requires
                d > 0,
                n >= 0,
                quotient == n / d,
                rank == (if n % d != 0 { quotient + 1 } else { quotient as int }),
        ;
    }
    let index = if rank >= 1 { rank - 1 } else { 0 };
    let last = sorted.len() - 1;
    let index = if index < last { index } else { last };
    sorted[index]
}

} // verus!
