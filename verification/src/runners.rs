//! Option checks of the local fixtures (`health-observe`, `workload`,
//! `scheduler-fairness`) and the fairness tally of the scheduler fixture.
use vstd::prelude::*;
use crate::cli::{
    argv, exchange_count, exchange_count_of, is_failure, option, option_value, value_or, CliError,
    CliFailure,
};
use crate::text::{parse_u16, parse_u64, parse_unsigned, parse_usize};
use crate::periodic::value;

verus! {

/// The options of `health-observe`.
#[derive(Clone, Copy, Debug, PartialEq, Eq, Structural)]
pub struct HealthObserveArgs {
    pub path: u64,
    pub rtt_us: u64,
    pub loss_per_mille: u16,
    pub pto: u16,
    pub count: usize,
}

/// A required numeric option: absent, unreadable, or its value.
pub open spec fn required_num(
    a: Seq<Seq<char>>,
    key: Seq<char>,
    max: nat,
    invalid: Seq<char>,
) -> Result<nat, CliFailure> {
    match option_value(a, key) {
        None => Err(CliFailure::Missing(key)),
        Some(t) => match parse_unsigned(t, max) {
            None => Err(CliFailure::Invalid(invalid)),
            Some(n) => Ok(n),
        },
    }
}

/// The `health-observe` options, checked in order: `--path`, `--rtt-us`,
/// `--loss-per-mille` and `--pto` are required numbers, the loss is at most
/// 1000 per mille, and the sample count is the bounded `--count`.
pub open spec fn health_observe_args_of(a: Seq<Seq<char>>) -> Result<HealthObserveArgs, CliFailure> {
    match required_num(a, "--path"@, u64::MAX as nat, "invalid path"@) {
        Err(f) => Err(f),
        Ok(path) => match required_num(a, "--rtt-us"@, u64::MAX as nat, "invalid rtt-us"@) {
            Err(f) => Err(f),
            Ok(rtt) => match required_num(
                a,
                "--loss-per-mille"@,
                u16::MAX as nat,
                "invalid loss-per-mille"@,
            ) {
                Err(f) => Err(f),
                Ok(loss) => match required_num(a, "--pto"@, u16::MAX as nat, "invalid pto"@) {
                    Err(f) => Err(f),
                    Ok(pto) => if loss > 1000 {
                        Err(CliFailure::Invalid("loss-per-mille outside 0-1000"@))
                    } else {
                        match exchange_count_of(a) {
                            Err(m) => Err(CliFailure::Invalid(m@)),
                            Ok(count) => Ok(
                                HealthObserveArgs {
                                    path: path as u64,
                                    rtt_us: rtt as u64,
                                    loss_per_mille: loss as u16,
                                    pto: pto as u16,
                                    count,
                                },
                            ),
                        }
                    },
                },
            },
        },
    }
}

pub fn health_observe_args(args: &[String]) -> (r: Result<HealthObserveArgs, CliError>)
    ensures
        match health_observe_args_of(argv(args@)) {
            Ok(v) => r == Ok::<HealthObserveArgs, CliError>(v),
            Err(f) => r matches Err(e) && is_failure(e, f),
        },
{
    let path = match option(args, "--path") {
        None => return Err(CliError::Missing("--path")),
        Some(t) => match parse_u64(t.as_str()) {
            None => return Err(CliError::Invalid("invalid path")),
            Some(n) => n,
        },
    };
    let rtt_us = match option(args, "--rtt-us") {
        None => return Err(CliError::Missing("--rtt-us")),
        Some(t) => match parse_u64(t.as_str()) {
            None => return Err(CliError::Invalid("invalid rtt-us")),
            Some(n) => n,
        },
    };
    let loss_per_mille = match option(args, "--loss-per-mille") {
        None => return Err(CliError::Missing("--loss-per-mille")),
        Some(t) => match parse_u16(t.as_str()) {
            None => return Err(CliError::Invalid("invalid loss-per-mille")),
            Some(n) => n,
        },
    };
    let pto = match option(args, "--pto") {
        None => return Err(CliError::Missing("--pto")),
        Some(t) => match parse_u16(t.as_str()) {
            None => return Err(CliError::Invalid("invalid pto")),
            Some(n) => n,
        },
    };
    if loss_per_mille > 1000 {
        return Err(CliError::Invalid("loss-per-mille outside 0-1000"));
    }
    let count = match exchange_count(args) {
        Ok(n) => n,
        Err(m) => return Err(CliError::Invalid(m)),
    };
    Ok(HealthObserveArgs { path, rtt_us, loss_per_mille, pto, count })
}

/// The options of the session `workload` fixture.
#[derive(Clone, Copy, Debug, PartialEq, Eq, Structural)]
pub struct WorkloadArgs {
    pub duration_secs: u64,
    pub concurrency: usize,
    pub records: usize,
    pub bytes: usize,
}

/// The `workload` options: each must be a number (with defaults of 5
/// seconds, 1 worker, 100 records and 32 bytes), then the duration is 1 to
/// 600 seconds, the concurrency 1 to 16, the records 1 to 10000 and the
/// bytes 1 to 1200.
pub open spec fn workload_args_of(a: Seq<Seq<char>>) -> Result<WorkloadArgs, Seq<char>> {
    match parse_unsigned(value_or(a, "--duration"@, "5"@), u64::MAX as nat) {
        None => Err("invalid duration"@),
        Some(duration) => match parse_unsigned(
            value_or(a, "--concurrency"@, "1"@),
            usize::MAX as nat,
        ) {
            None => Err("invalid concurrency"@),
            Some(concurrency) => match parse_unsigned(
                value_or(a, "--records"@, "100"@),
                usize::MAX as nat,
            ) {
                None => Err("invalid records"@),
                Some(records) => match parse_unsigned(
                    value_or(a, "--bytes"@, "32"@),
                    usize::MAX as nat,
                ) {
                    None => Err("invalid bytes"@),
                    Some(bytes) => if !(1 <= duration <= 600) {
                        Err("duration outside 1-600"@)
                    } else if !(1 <= concurrency <= 16) {
                        Err("concurrency outside 1-16"@)
                    } else if !(1 <= records <= 10000) {
                        Err("records outside 1-10000"@)
                    } else if !(1 <= bytes <= 1200) {
                        Err("bytes outside 1-1200"@)
                    } else {
                        Ok(
                            WorkloadArgs {
                                duration_secs: duration as u64,
                                concurrency: concurrency as usize,
                                records: records as usize,
                                bytes: bytes as usize,
                            },
                        )
                    },
                },
            },
        },
    }
}

pub fn workload_args(args: &[String]) -> (r: Result<WorkloadArgs, &'static str>)
    ensures
        match workload_args_of(argv(args@)) {
            Ok(v) => r == Ok::<WorkloadArgs, &'static str>(v),
            Err(m) => r matches Err(e) && e@ == m,
        },
{
    let duration = match parse_u64(value(args, "--duration", "5").as_str()) {
        None => return Err("invalid duration"),
        Some(n) => n,
    };
    let concurrency = match parse_usize(value(args, "--concurrency", "1").as_str()) {
        None => return Err("invalid concurrency"),
        Some(n) => n,
    };
    let records = match parse_usize(value(args, "--records", "100").as_str()) {
        None => return Err("invalid records"),
        Some(n) => n,
    };
    let bytes = match parse_usize(value(args, "--bytes", "32").as_str()) {
        None => return Err("invalid bytes"),
        Some(n) => n,
    };
    if !crate::cli::workload_duration_valid(duration) {
        return Err("duration outside 1-600");
    }
    if !(1 <= concurrency && concurrency <= 16) {
        return Err("concurrency outside 1-16");
    }
    if !(1 <= records && records <= 10000) {
        return Err("records outside 1-10000");
    }
    if !(1 <= bytes && bytes <= 1200) {
        return Err("bytes outside 1-1200");
    }
    Ok(WorkloadArgs { duration_secs: duration, concurrency, records, bytes })
}

/// The options of the `scheduler-fairness` fixture: rounds, bytes per frame,
/// and the frames in all (four per round).
#[derive(Clone, Copy, Debug, PartialEq, Eq, Structural)]
pub struct SchedulerArgs {
    pub rounds: usize,
    pub bytes: usize,
    pub frames: usize,
}

/// The `scheduler-fairness` options: `--rounds` (8 by default) is 1 to 64
/// and `--bytes` (16 by default) is 1 to 256.
pub open spec fn scheduler_args_of(a: Seq<Seq<char>>) -> Result<SchedulerArgs, Seq<char>> {
    match parse_unsigned(value_or(a, "--rounds"@, "8"@), usize::MAX as nat) {
        None => Err("invalid rounds"@),
        Some(rounds) => match parse_unsigned(value_or(a, "--bytes"@, "16"@), usize::MAX as nat) {
            None => Err("invalid bytes"@),
            Some(bytes) => if !(1 <= rounds <= 64) {
                Err("rounds outside 1-64"@)
            } else if !(1 <= bytes <= 256) {
                Err("bytes outside 1-256"@)
            } else {
                Ok(
                    SchedulerArgs {
                        rounds: rounds as usize,
                        bytes: bytes as usize,
                        frames: (rounds * 4) as usize,
                    },
                )
            },
        },
    }
}

pub fn scheduler_args(args: &[String]) -> (r: Result<SchedulerArgs, &'static str>)
    ensures
        match scheduler_args_of(argv(args@)) {
            Ok(v) => r == Ok::<SchedulerArgs, &'static str>(v),
            Err(m) => r matches Err(e) && e@ == m,
        },
{
    let rounds = match parse_usize(value(args, "--rounds", "8").as_str()) {
        None => return Err("invalid rounds"),
        Some(n) => n,
    };
    let bytes = match parse_usize(value(args, "--bytes", "16").as_str()) {
        None => return Err("invalid bytes"),
        Some(n) => n,
    };
    if !(1 <= rounds && rounds <= 64) {
        return Err("rounds outside 1-64");
    }
    if !(1 <= bytes && bytes <= 256) {
        return Err("bytes outside 1-256");
    }
    Ok(SchedulerArgs { rounds, bytes, frames: rounds * 4 })
}

/// The options of the reliable-UDP lab fixture.
#[derive(Clone, Copy, Debug, PartialEq, Eq, Structural)]
pub struct LabReliableUdpArgs {
    pub rounds: usize,
    pub drop_every: usize,
    pub drop_ack_every: usize,
    pub settle_ms: u64,
}

/// The reliable-UDP lab options: each must be a number (12 rounds, a packet
/// suppressed every 5, no acknowledgement suppressed, 3000 ms to settle, by
/// default), then the rounds are 4 to 64, the packet suppression 0 (none)
/// or 2 to 16, the acknowledgement suppression 0 to 16, and the settling
/// time 1 to 20000 ms.
pub open spec fn lab_reliable_udp_args_of(a: Seq<Seq<char>>) -> Result<LabReliableUdpArgs, Seq<char>> {
    match parse_unsigned(value_or(a, "--rounds"@, "12"@), usize::MAX as nat) {
        None => Err("invalid rounds"@),
        Some(rounds) => match parse_unsigned(value_or(a, "--drop-every"@, "5"@), usize::MAX as nat) {
            None => Err("invalid drop-every"@),
            Some(drop) => match parse_unsigned(
                value_or(a, "--drop-ack-every"@, "0"@),
                usize::MAX as nat,
            ) {
                None => Err("invalid drop-ack-every"@),
                Some(drop_ack) => match parse_unsigned(
                    value_or(a, "--settle-ms"@, "3000"@),
                    u64::MAX as nat,
                ) {
                    None => Err("invalid settle-ms"@),
                    Some(settle) => if !(4 <= rounds <= 64) {
                        Err("rounds outside 4-64"@)
                    } else if drop != 0 && !(2 <= drop <= 16) {
                        Err("drop-every outside 0 or 2-16"@)
                    } else if drop_ack > 16 {
                        Err("drop-ack-every outside 0-16"@)
                    } else if !(1 <= settle <= 20000) {
                        Err("settle-ms outside 1-20000"@)
                    } else {
                        Ok(
                            LabReliableUdpArgs {
                                rounds: rounds as usize,
                                drop_every: drop as usize,
                                drop_ack_every: drop_ack as usize,
                                settle_ms: settle as u64,
                            },
                        )
                    },
                },
            },
        },
    }
}

pub fn lab_reliable_udp_args(args: &[String]) -> (r: Result<LabReliableUdpArgs, &'static str>)
    ensures
        match lab_reliable_udp_args_of(argv(args@)) {
            Ok(v) => r == Ok::<LabReliableUdpArgs, &'static str>(v),
            Err(m) => r matches Err(e) && e@ == m,
        },
{
    let rounds = match parse_usize(value(args, "--rounds", "12").as_str()) {
        None => return Err("invalid rounds"),
        Some(n) => n,
    };
    let drop_every = match parse_usize(value(args, "--drop-every", "5").as_str()) {
        None => return Err("invalid drop-every"),
        Some(n) => n,
    };
    let drop_ack_every = match parse_usize(value(args, "--drop-ack-every", "0").as_str()) {
        None => return Err("invalid drop-ack-every"),
        Some(n) => n,
    };
    let settle_ms = match parse_u64(value(args, "--settle-ms", "3000").as_str()) {
        None => return Err("invalid settle-ms"),
        Some(n) => n,
    };
    if !(4 <= rounds && rounds <= 64) {
        return Err("rounds outside 4-64");
    }
    if drop_every != 0 && !(2 <= drop_every && drop_every <= 16) {
        return Err("drop-every outside 0 or 2-16");
    }
    if drop_ack_every > 16 {
        return Err("drop-ack-every outside 0-16");
    }
    if !(1 <= settle_ms && settle_ms <= 20000) {
        return Err("settle-ms outside 1-20000");
    }
    Ok(LabReliableUdpArgs { rounds, drop_every, drop_ack_every, settle_ms })
}

/// The number given for `key` (or `default`), no larger than `max`.
pub open spec fn given_number(a: Seq<Seq<char>>, key: Seq<char>, default: Seq<char>, max: nat) -> Option<
    nat,
> {
    parse_unsigned(value_or(a, key, default), max)
}

/// Every accepted health observation is what the options say, with a loss
/// of at most 1000 per mille and 1 to 64 samples; each of `--path`,
/// `--rtt-us`, `--loss-per-mille` and `--pto` is required.
pub proof fn law_health_observe_args_are_bounded(a: Seq<Seq<char>>)
    ensures
        health_observe_args_of(a) matches Ok(h) ==> {
            &&& option_value(a, "--path"@) matches Some(t) && parse_unsigned(t, u64::MAX as nat)
                == Some(h.path as nat)
            &&& option_value(a, "--rtt-us"@) matches Some(t) && parse_unsigned(t, u64::MAX as nat)
                == Some(h.rtt_us as nat)
            &&& option_value(a, "--loss-per-mille"@) matches Some(t) && parse_unsigned(
                t,
                u16::MAX as nat,
            ) == Some(h.loss_per_mille as nat)
            &&& option_value(a, "--pto"@) matches Some(t) && parse_unsigned(t, u16::MAX as nat)
                == Some(h.pto as nat)
            &&& h.loss_per_mille <= 1000
            &&& exchange_count_of(a) == Ok::<usize, &'static str>(h.count)
            &&& 1 <= h.count <= 64
        },
        option_value(a, "--path"@) is None ==> health_observe_args_of(a) is Err,
        option_value(a, "--rtt-us"@) is None ==> health_observe_args_of(a) is Err,
        option_value(a, "--loss-per-mille"@) is None ==> health_observe_args_of(a) is Err,
        option_value(a, "--pto"@) is None ==> health_observe_args_of(a) is Err,
{
    crate::cli::law_exchange_count_is_bounded(a);
}

/// Every accepted workload is within its bounds and is what the options
/// say: 1 to 600 seconds (5 by default), 1 to 16 concurrent workers (1), 1
/// to 10000 records (100) and 1 to 1200 bytes each (32); any option that
/// reads as a number outside its bounds is refused.
pub proof fn law_workload_args_are_bounded(a: Seq<Seq<char>>)
    ensures
        workload_args_of(a) matches Ok(w) ==> {
            &&& 1 <= w.duration_secs <= 600
            &&& given_number(a, "--duration"@, "5"@, u64::MAX as nat) == Some(w.duration_secs as nat)
            &&& 1 <= w.concurrency <= 16
            &&& given_number(a, "--concurrency"@, "1"@, usize::MAX as nat) == Some(w.concurrency as nat)
            &&& 1 <= w.records <= 10000
            &&& given_number(a, "--records"@, "100"@, usize::MAX as nat) == Some(w.records as nat)
            &&& 1 <= w.bytes <= 1200
            &&& given_number(a, "--bytes"@, "32"@, usize::MAX as nat) == Some(w.bytes as nat)
        },
        given_number(a, "--duration"@, "5"@, u64::MAX as nat) matches Some(v) && !(1 <= v <= 600)
            ==> workload_args_of(a) is Err,
        given_number(a, "--concurrency"@, "1"@, usize::MAX as nat) matches Some(v) && !(1 <= v
            <= 16) ==> workload_args_of(a) is Err,
        given_number(a, "--records"@, "100"@, usize::MAX as nat) matches Some(v) && !(1 <= v
            <= 10000) ==> workload_args_of(a) is Err,
        given_number(a, "--bytes"@, "32"@, usize::MAX as nat) matches Some(v) && !(1 <= v <= 1200)
            ==> workload_args_of(a) is Err,
{
}

/// Every accepted scheduler run has 1 to 64 rounds (8 by default) of four
/// frames each, of 1 to 256 bytes (16 by default); a number outside those
/// bounds is refused.
pub proof fn law_scheduler_args_are_bounded(a: Seq<Seq<char>>)
    ensures
        scheduler_args_of(a) matches Ok(v) ==> {
            &&& 1 <= v.rounds <= 64
            &&& given_number(a, "--rounds"@, "8"@, usize::MAX as nat) == Some(v.rounds as nat)
            &&& 1 <= v.bytes <= 256
            &&& given_number(a, "--bytes"@, "16"@, usize::MAX as nat) == Some(v.bytes as nat)
            &&& v.frames == 4 * v.rounds
        },
        given_number(a, "--rounds"@, "8"@, usize::MAX as nat) matches Some(r) && !(1 <= r <= 64)
            ==> scheduler_args_of(a) is Err,
        given_number(a, "--bytes"@, "16"@, usize::MAX as nat) matches Some(b) && !(1 <= b <= 256)
            ==> scheduler_args_of(a) is Err,
{
}

/// Every accepted reliable-UDP lab run has 4 to 64 rounds (12 by default),
/// suppresses no packet or one in every 2 to 16 (5), no acknowledgement or
/// one in every 1 to 16 (0), and settles for 1 to 20000 ms (3000), as the
/// options say; a number outside those bounds is refused.
pub proof fn law_lab_reliable_udp_args_are_bounded(a: Seq<Seq<char>>)
    ensures
        lab_reliable_udp_args_of(a) matches Ok(v) ==> {
            &&& 4 <= v.rounds <= 64
            &&& given_number(a, "--rounds"@, "12"@, usize::MAX as nat) == Some(v.rounds as nat)
            &&& (v.drop_every == 0 || 2 <= v.drop_every <= 16)
            &&& given_number(a, "--drop-every"@, "5"@, usize::MAX as nat) == Some(v.drop_every as nat)
            &&& v.drop_ack_every <= 16
            &&& given_number(a, "--drop-ack-every"@, "0"@, usize::MAX as nat) == Some(
                v.drop_ack_every as nat,
            )
            &&& 1 <= v.settle_ms <= 20000
            &&& given_number(a, "--settle-ms"@, "3000"@, u64::MAX as nat) == Some(v.settle_ms as nat)
        },
        given_number(a, "--rounds"@, "12"@, usize::MAX as nat) matches Some(r) && !(4 <= r <= 64)
            ==> lab_reliable_udp_args_of(a) is Err,
        given_number(a, "--drop-every"@, "5"@, usize::MAX as nat) matches Some(d) && d == 1
            ==> lab_reliable_udp_args_of(a) is Err,
        given_number(a, "--drop-every"@, "5"@, usize::MAX as nat) matches Some(d) && d > 16
            ==> lab_reliable_udp_args_of(a) is Err,
        given_number(a, "--drop-ack-every"@, "0"@, usize::MAX as nat) matches Some(d) && d > 16
            ==> lab_reliable_udp_args_of(a) is Err,
        given_number(a, "--settle-ms"@, "3000"@, u64::MAX as nat) matches Some(t) && !(1 <= t
            <= 20000) ==> lab_reliable_udp_args_of(a) is Err,
{
}

/// The counts that the scheduler fixture keeps of the frames served.
#[derive(Clone, Copy, Debug, PartialEq, Eq, Structural)]
pub struct FairnessTally {
    pub interactive_sent: usize,
    pub bulk_sent: usize,
    pub max_interactive_burst: usize,
    pub current_interactive_burst: usize,
    pub forced_bulk_services: usize,
}

impl FairnessTally {
    pub fn new() -> (t: Self)
        ensures
            t == (FairnessTally {
                interactive_sent: 0,
                bulk_sent: 0,
                max_interactive_burst: 0,
                current_interactive_burst: 0,
                forced_bulk_services: 0,
            }),
    {
        FairnessTally {
            interactive_sent: 0,
            bulk_sent: 0,
            max_interactive_burst: 0,
            current_interactive_burst: 0,
            forced_bulk_services: 0,
        }
    }

    /// Counts one served frame: an interactive frame extends the current
    /// interactive burst; a bulk frame ends it, and counts as a forced bulk
    /// service when it ends a burst of three or more.
    pub fn record(&mut self, bulk: bool)
        requires
            old(self).interactive_sent < usize::MAX,
            old(self).bulk_sent < usize::MAX,
            old(self).current_interactive_burst < usize::MAX,
            old(self).forced_bulk_services < usize::MAX,
        ensures
            !bulk ==> *final(self) == (FairnessTally {
                interactive_sent: (old(self).interactive_sent + 1) as usize,
                current_interactive_burst: (old(self).current_interactive_burst + 1) as usize,
                max_interactive_burst: if old(self).max_interactive_burst > old(
                    self,
                ).current_interactive_burst + 1 {
                    old(self).max_interactive_burst
                } else {
                    (old(self).current_interactive_burst + 1) as usize
                },
                ..*old(self)
            }),
            bulk ==> *final(self) == (FairnessTally {
                bulk_sent: (old(self).bulk_sent + 1) as usize,
                current_interactive_burst: 0,
                forced_bulk_services: if old(self).current_interactive_burst >= 3 {
                    (old(self).forced_bulk_services + 1) as usize
                } else {
                    old(self).forced_bulk_services
                },
                ..*old(self)
            }),
    {
        if !bulk {
            self.current_interactive_burst = self.current_interactive_burst + 1;
            if self.current_interactive_burst > self.max_interactive_burst {
                self.max_interactive_burst = self.current_interactive_burst;
            }
            self.interactive_sent = self.interactive_sent + 1;
        } else {
            if self.current_interactive_burst >= 3 {
                self.forced_bulk_services = self.forced_bulk_services + 1;
            }
            self.current_interactive_burst = 0;
            self.bulk_sent = self.bulk_sent + 1;
        }
    }

    /// The fairness bound: no interactive burst longer than three, and one
    /// forced bulk service per round.
    pub fn bound_holds(&self, rounds: usize) -> (b: bool)
        ensures
            b == (self.max_interactive_burst <= 3 && self.forced_bulk_services == rounds),
    {
        self.max_interactive_burst <= 3 && self.forced_bulk_services == rounds
    }
}

} // verus!
