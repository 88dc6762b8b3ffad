//! Option checks of the failover and endpoint-rebind runs: the bounded
//! shape of the exchange, the loopback ports, and the opt-in fault seams
//! that only tests use.
use vstd::prelude::*;
use crate::cli::{
    argv, exchange_count, exchange_count_of, has_flag, has_flag_arg, option, option_value, value_or,
};
use crate::periodic::value;
use crate::text::{parse_u16, parse_u64, parse_unsigned, parse_usize};

verus! {

/// The bounded shape of a failover run.
#[derive(Clone, Copy, Debug, PartialEq, Eq, Structural)]
pub struct FailoverArgs {
    pub count: usize,
    pub bytes: usize,
    pub duration_secs: u64,
    pub udp_port: u16,
    pub tcp_port: u16,
}

/// The failover shape, checked in order: the exchange count, the record
/// size (32 by default) and duration (10 s by default) as numbers, then
/// within 1-1200 bytes and 1-30 s, then the UDP (40081) and TCP (40080)
/// ports as numbers, both within 40080-40100.
pub open spec fn failover_args_of(a: Seq<Seq<char>>) -> Result<FailoverArgs, Seq<char>> {
    match exchange_count_of(a) {
        Err(m) => Err(m@),
        Ok(count) => match parse_unsigned(value_or(a, "--bytes"@, "32"@), usize::MAX as nat) {
            None => Err("invalid bytes"@),
            Some(bytes) => match parse_unsigned(value_or(a, "--duration"@, "10"@), u64::MAX as nat) {
                None => Err("invalid duration"@),
                Some(secs) => if bytes == 0 || bytes > 1200 {
                    Err("bytes outside 1-1200"@)
                } else if secs == 0 || secs > 30 {
                    Err("duration outside 1-30"@)
                } else {
                    match parse_unsigned(value_or(a, "--udp-port"@, "40081"@), u16::MAX as nat) {
                        None => Err("invalid UDP port"@),
                        Some(up) => match parse_unsigned(
                            value_or(a, "--tcp-port"@, "40080"@),
                            u16::MAX as nat,
                        ) {
                            None => Err("invalid TCP port"@),
                            Some(tp) => if !(40080 <= up <= 40100) || !(40080 <= tp <= 40100) {
                                Err("ports outside 40080-40100"@)
                            } else {
                                Ok(
                                    FailoverArgs {
                                        count,
                                        bytes: bytes as usize,
                                        duration_secs: secs as u64,
                                        udp_port: up as u16,
                                        tcp_port: tp as u16,
                                    },
                                )
                            },
                        },
                    }
                },
            },
        },
    }
}

pub fn failover_args(args: &[String]) -> (r: Result<FailoverArgs, &'static str>)
    ensures
        match failover_args_of(argv(args@)) {
            Ok(v) => r == Ok::<FailoverArgs, &'static str>(v),
            Err(m) => r matches Err(e) && e@ == m,
        },
{
    let count = exchange_count(args)?;
    let bytes = match parse_usize(value(args, "--bytes", "32").as_str()) {
        Some(n) => n,
        None => return Err("invalid bytes"),
    };
    let secs = match parse_u64(value(args, "--duration", "10").as_str()) {
        Some(n) => n,
        None => return Err("invalid duration"),
    };
    if bytes == 0 || bytes > 1200 {
        return Err("bytes outside 1-1200");
    }
    if secs == 0 || secs > 30 {
        return Err("duration outside 1-30");
    }
    let udp_port = match parse_u16(value(args, "--udp-port", "40081").as_str()) {
        Some(n) => n,
        None => return Err("invalid UDP port"),
    };
    let tcp_port = match parse_u16(value(args, "--tcp-port", "40080").as_str()) {
        Some(n) => n,
        None => return Err("invalid TCP port"),
    };
    if !(40080 <= udp_port && udp_port <= 40100) || !(40080 <= tcp_port && tcp_port <= 40100) {
        return Err("ports outside 40080-40100");
    }
    Ok(FailoverArgs { count, bytes, duration_secs: secs, udp_port, tcp_port })
}

/// The behaviour switches of the failover client.
#[derive(Clone, Copy, Debug, PartialEq, Eq, Structural)]
pub struct FailoverClientFlags {
    pub automatic_health_failover: bool,
    pub migration_back: bool,
    pub restore_udp_replies_after_tcp: bool,
    pub cold_health_failover: bool,
    pub first_data_delay_ms: u64,
}

/// The failover client's switches for a run of `count` exchanges: migrating
/// back needs automatic health failover and at least three exchanges, a
/// cold health failover needs automatic health failover, and the test delay
/// of the first data record is at most 2000 ms (0 by default).
pub open spec fn failover_client_flags_of(a: Seq<Seq<char>>, count: usize) -> Result<
    FailoverClientFlags,
    Seq<char>,
> {
    let automatic = has_flag(a, "--automatic-health-failover"@);
    let back = has_flag(a, "--migration-back"@);
    let restore = has_flag(a, "--restore-udp-replies-after-tcp"@);
    let cold = has_flag(a, "--cold-health-failover"@);
    if back && (!automatic || count < 3) {
        Err("--migration-back requires --automatic-health-failover and count >= 3"@)
    } else if cold && !automatic {
        Err("--cold-health-failover requires --automatic-health-failover"@)
    } else {
        match parse_unsigned(value_or(a, "--test-first-data-delay-ms"@, "0"@), u64::MAX as nat) {
            None => Err("invalid first data delay"@),
            Some(d) => if d > 2000 {
                Err("first data delay outside 0-2000 ms"@)
            } else {
                Ok(
                    FailoverClientFlags {
                        automatic_health_failover: automatic,
                        migration_back: back,
                        restore_udp_replies_after_tcp: restore,
                        cold_health_failover: cold,
                        first_data_delay_ms: d as u64,
                    },
                )
            },
        }
    }
}

pub fn failover_client_flags(args: &[String], count: usize) -> (r: Result<
    FailoverClientFlags,
    &'static str,
>)
    ensures
        match failover_client_flags_of(argv(args@), count) {
            Ok(v) => r == Ok::<FailoverClientFlags, &'static str>(v),
            Err(m) => r matches Err(e) && e@ == m,
        },
{
    let automatic = has_flag_arg(args, "--automatic-health-failover");
    let back = has_flag_arg(args, "--migration-back");
    let restore = has_flag_arg(args, "--restore-udp-replies-after-tcp");
    if back && (!automatic || count < 3) {
        return Err("--migration-back requires --automatic-health-failover and count >= 3");
    }
    let cold = has_flag_arg(args, "--cold-health-failover");
    if cold && !automatic {
        return Err("--cold-health-failover requires --automatic-health-failover");
    }
    let delay = match parse_u64(value(args, "--test-first-data-delay-ms", "0").as_str()) {
        Some(n) => n,
        None => return Err("invalid first data delay"),
    };
    if delay > 2000 {
        return Err("first data delay outside 0-2000 ms");
    }
    Ok(
        FailoverClientFlags {
            automatic_health_failover: automatic,
            migration_back: back,
            restore_udp_replies_after_tcp: restore,
            cold_health_failover: cold,
            first_data_delay_ms: delay,
        },
    )
}

/// The fault seams of the failover server, which only tests switch on.
#[derive(Clone, Copy, Debug, PartialEq, Eq, Structural)]
pub struct FailoverServerSeams {
    pub migration_back: bool,
    pub restore_udp_replies_after_tcp: bool,
    pub tcp_delivery_delay_ms: u64,
    pub cease_udp_replies_after: Option<usize>,
}

/// The failover server's seams for a run of `count` exchanges: the TCP
/// delivery delay is at most 1000 ms (0 by default), and UDP replies may
/// cease after a point strictly between 0 and `count`.
pub open spec fn failover_server_seams_of(a: Seq<Seq<char>>, count: usize) -> Result<
    FailoverServerSeams,
    Seq<char>,
> {
    match parse_unsigned(value_or(a, "--test-tcp-delivery-delay-ms"@, "0"@), u64::MAX as nat) {
        None => Err("invalid TCP delivery delay"@),
        Some(d) => if d > 1000 {
            Err("TCP delivery delay outside 0-1000 ms"@)
        } else {
            match option_value(a, "--cease-udp-replies-after"@) {
                Some(t) => match parse_unsigned(t, usize::MAX as nat) {
                    None => Err("invalid UDP reply cessation point"@),
                    Some(p) => if p == 0 || p >= count {
                        Err("UDP reply cessation point outside 1..count"@)
                    } else {
                        Ok(
                            FailoverServerSeams {
                                migration_back: has_flag(a, "--migration-back"@),
                                restore_udp_replies_after_tcp: has_flag(
                                    a,
                                    "--restore-udp-replies-after-tcp"@,
                                ),
                                tcp_delivery_delay_ms: d as u64,
                                cease_udp_replies_after: Some(p as usize),
                            },
                        )
                    },
                },
                None => Ok(
                    FailoverServerSeams {
                        migration_back: has_flag(a, "--migration-back"@),
                        restore_udp_replies_after_tcp: has_flag(
                            a,
                            "--restore-udp-replies-after-tcp"@,
                        ),
                        tcp_delivery_delay_ms: d as u64,
                        cease_udp_replies_after: None,
                    },
                ),
            }
        },
    }
}

pub fn failover_server_seams(args: &[String], count: usize) -> (r: Result<
    FailoverServerSeams,
    &'static str,
>)
    ensures
        match failover_server_seams_of(argv(args@), count) {
            Ok(v) => r == Ok::<FailoverServerSeams, &'static str>(v),
            Err(m) => r matches Err(e) && e@ == m,
        },
{
    let back = has_flag_arg(args, "--migration-back");
    let restore = has_flag_arg(args, "--restore-udp-replies-after-tcp");
    let delay = match parse_u64(value(args, "--test-tcp-delivery-delay-ms", "0").as_str()) {
        Some(n) => n,
        None => return Err("invalid TCP delivery delay"),
    };
    if delay > 1000 {
        return Err("TCP delivery delay outside 0-1000 ms");
    }
    let cease = match option(args, "--cease-udp-replies-after") {
        Some(t) => match parse_usize(t.as_str()) {
            Some(p) => {
                if p == 0 || p >= count {
                    return Err("UDP reply cessation point outside 1..count");
                }
                Some(p)
            },
            None => return Err("invalid UDP reply cessation point"),
        },
        None => None,
    };
    Ok(
        FailoverServerSeams {
            migration_back: back,
            restore_udp_replies_after_tcp: restore,
            tcp_delivery_delay_ms: delay,
            cease_udp_replies_after: cease,
        },
    )
}

/// The bounded shape of an endpoint-rebind run.
#[derive(Clone, Copy, Debug, PartialEq, Eq, Structural)]
pub struct EndpointRebindArgs {
    pub bytes: usize,
    pub duration_secs: u64,
    pub udp_port: u16,
}

/// The endpoint-rebind shape: exactly two exchanges of 1-1200 bytes (16 by
/// default) within 1-30 s (10 by default), then the UDP port (40081 by
/// default) as a number, which a listening side must keep within
/// 40080-40100.
pub open spec fn endpoint_rebind_args_of(a: Seq<Seq<char>>, listening: bool) -> Result<
    EndpointRebindArgs,
    Seq<char>,
> {
    match exchange_count_of(a) {
        Err(m) => Err(m@),
        Ok(count) => match parse_unsigned(value_or(a, "--bytes"@, "16"@), usize::MAX as nat) {
            None => Err("invalid bytes"@),
            Some(bytes) => match parse_unsigned(value_or(a, "--duration"@, "10"@), u64::MAX as nat) {
                None => Err("invalid duration"@),
                Some(secs) => if count != 2 || bytes == 0 || bytes > 1200 || secs == 0 || secs > 30 {
                    Err("endpoint rebind requires count=2, bytes=1-1200, duration=1-30"@)
                } else {
                    match parse_unsigned(value_or(a, "--udp-port"@, "40081"@), u16::MAX as nat) {
                        None => Err("invalid UDP port"@),
                        Some(port) => if listening && !(40080 <= port <= 40100) {
                            Err("port outside 40080-40100"@)
                        } else {
                            Ok(
                                EndpointRebindArgs {
                                    bytes: bytes as usize,
                                    duration_secs: secs as u64,
                                    udp_port: port as u16,
                                },
                            )
                        },
                    }
                },
            },
        },
    }
}

pub fn endpoint_rebind_args(args: &[String], listening: bool) -> (r: Result<
    EndpointRebindArgs,
    &'static str,
>)
    ensures
        match endpoint_rebind_args_of(argv(args@), listening) {
            Ok(v) => r == Ok::<EndpointRebindArgs, &'static str>(v),
            Err(m) => r matches Err(e) && e@ == m,
        },
{
    let count = exchange_count(args)?;
    let bytes = match parse_usize(value(args, "--bytes", "16").as_str()) {
        Some(n) => n,
        None => return Err("invalid bytes"),
    };
    let secs = match parse_u64(value(args, "--duration", "10").as_str()) {
        Some(n) => n,
        None => return Err("invalid duration"),
    };
    if count != 2 || bytes == 0 || bytes > 1200 || secs == 0 || secs > 30 {
        return Err("endpoint rebind requires count=2, bytes=1-1200, duration=1-30");
    }
    let port = match parse_u16(value(args, "--udp-port", "40081").as_str()) {
        Some(n) => n,
        None => return Err("invalid UDP port"),
    };
    if listening && !(40080 <= port && port <= 40100) {
        return Err("port outside 40080-40100");
    }
    Ok(EndpointRebindArgs { bytes, duration_secs: secs, udp_port: port })
}

/// The value of a numeric option: the text given for `key`, or `default`,
/// read as an unsigned number no larger than `max`.
pub open spec fn number_given(a: Seq<Seq<char>>, key: Seq<char>, default: Seq<char>, max: nat) -> Option<
    nat,
> {
    parse_unsigned(value_or(a, key, default), max)
}

/// Every accepted failover shape is bounded and is what the options say: 1
/// to 64 exchanges (the count option), 1 to 1200 bytes (`--bytes`, 32 by
/// default), 1 to 30 seconds (`--duration`, 10 by default), and UDP and TCP
/// ports (`--udp-port`, 40081, and `--tcp-port`, 40080, by default) within
/// 40080-40100; a port outside that range is refused.
pub proof fn law_failover_args_are_bounded(a: Seq<Seq<char>>)
    ensures
        failover_args_of(a) matches Ok(f) ==> {
            &&& exchange_count_of(a) == Ok::<usize, &'static str>(f.count)
            &&& 1 <= f.count <= 64
            &&& 1 <= f.bytes <= 1200
            &&& 1 <= f.duration_secs <= 30
            &&& 40080 <= f.udp_port <= 40100
            &&& 40080 <= f.tcp_port <= 40100
            &&& number_given(a, "--bytes"@, "32"@, usize::MAX as nat) == Some(f.bytes as nat)
            &&& number_given(a, "--duration"@, "10"@, u64::MAX as nat) == Some(f.duration_secs as nat)
            &&& number_given(a, "--udp-port"@, "40081"@, u16::MAX as nat) == Some(f.udp_port as nat)
            &&& number_given(a, "--tcp-port"@, "40080"@, u16::MAX as nat) == Some(f.tcp_port as nat)
        },
        number_given(a, "--udp-port"@, "40081"@, u16::MAX as nat) matches Some(p) && !(40080 <= p
            <= 40100) ==> failover_args_of(a) is Err,
        number_given(a, "--tcp-port"@, "40080"@, u16::MAX as nat) matches Some(p) && !(40080 <= p
            <= 40100) ==> failover_args_of(a) is Err,
{
    crate::cli::law_exchange_count_is_bounded(a);
}

/// On success each client switch is the presence of its own flag, the test
/// delay of the first data record is the number given (0 by default) and at
/// most 2000 ms, migrating back comes only with automatic health failover and
/// at least three exchanges, and a cold health failover only with automatic
/// health failover.
pub proof fn law_failover_client_flags_follow_their_flags(a: Seq<Seq<char>>, count: usize)
    ensures
        failover_client_flags_of(a, count) matches Ok(f) ==> {
            &&& f.automatic_health_failover == has_flag(a, "--automatic-health-failover"@)
            &&& f.migration_back == has_flag(a, "--migration-back"@)
            &&& f.restore_udp_replies_after_tcp == has_flag(a, "--restore-udp-replies-after-tcp"@)
            &&& f.cold_health_failover == has_flag(a, "--cold-health-failover"@)
            &&& number_given(a, "--test-first-data-delay-ms"@, "0"@, u64::MAX as nat) == Some(
                f.first_data_delay_ms as nat,
            )
            &&& f.first_data_delay_ms <= 2000
            &&& f.migration_back ==> f.automatic_health_failover && count >= 3
            &&& f.cold_health_failover ==> f.automatic_health_failover
        },
        has_flag(a, "--migration-back"@) && !has_flag(a, "--automatic-health-failover"@)
            ==> failover_client_flags_of(a, count) is Err,
        has_flag(a, "--cold-health-failover"@) && !has_flag(a, "--automatic-health-failover"@)
            ==> failover_client_flags_of(a, count) is Err,
{
}

/// On success the server's seams are what the options say: the switches
/// are the presence of their flags, the TCP delivery delay is the number
/// given (0 by default) and at most 1000 ms, and UDP replies cease after the
/// point given, which lies strictly between 0 and `count`, or never when no
/// point is given.
pub proof fn law_failover_server_seams_follow_their_options(a: Seq<Seq<char>>, count: usize)
    ensures
        failover_server_seams_of(a, count) matches Ok(v) ==> {
            &&& v.migration_back == has_flag(a, "--migration-back"@)
            &&& v.restore_udp_replies_after_tcp == has_flag(a, "--restore-udp-replies-after-tcp"@)
            &&& number_given(a, "--test-tcp-delivery-delay-ms"@, "0"@, u64::MAX as nat) == Some(
                v.tcp_delivery_delay_ms as nat,
            )
            &&& v.tcp_delivery_delay_ms <= 1000
            &&& (option_value(a, "--cease-udp-replies-after"@) is None ==> v.cease_udp_replies_after
                is None)
            &&& (option_value(a, "--cease-udp-replies-after"@) matches Some(t) ==> (
            v.cease_udp_replies_after matches Some(point) && parse_unsigned(t, usize::MAX as nat)
                == Some(point as nat) && 0 < point < count))
        },
{
}

/// Every accepted endpoint-rebind shape has exactly two exchanges, 1 to 1200
/// bytes and 1 to 30 seconds as given (16 bytes and 10 s by default), and
/// the UDP port given (40081 by default), which a listening side keeps
/// within 40080-40100.
pub proof fn law_endpoint_rebind_args_are_bounded(a: Seq<Seq<char>>, listening: bool)
    ensures
        endpoint_rebind_args_of(a, listening) matches Ok(e) ==> {
            &&& exchange_count_of(a) == Ok::<usize, &'static str>(2)
            &&& 1 <= e.bytes <= 1200
            &&& 1 <= e.duration_secs <= 30
            &&& number_given(a, "--bytes"@, "16"@, usize::MAX as nat) == Some(e.bytes as nat)
            &&& number_given(a, "--duration"@, "10"@, u64::MAX as nat) == Some(e.duration_secs as nat)
            &&& number_given(a, "--udp-port"@, "40081"@, u16::MAX as nat) == Some(e.udp_port as nat)
            &&& listening ==> 40080 <= e.udp_port <= 40100
        },
{
}

} // verus!
