//! The `capabilities` report: what this build offers, its defaults and its
//! limits, as one JSON object or as lines of text.
use vstd::prelude::*;
use crate::cli::{argv, MAX_BYTES, MAX_DURATION, MAX_PORT, MAX_WORKLOAD_DURATION};
use crate::text::{decimal, push_decimal, push_str, str_eq, string_of};

verus! {

/// `capabilities` takes no argument but `--json`, any number of times.
pub open spec fn capabilities_args_of(a: Seq<Seq<char>>) -> bool {
    forall|i: int| 1 <= i < a.len() ==> a[i] == "--json"@
}

/// The capabilities command takes no option but `--json`: the bare command
/// and the command with `--json` are accepted, `--json` may be added to any
/// accepted command line, and any other argument after the command is
/// refused.
pub proof fn law_capabilities_take_only_json(a: Seq<Seq<char>>, at: int)
    ensures
        a.len() <= 1 ==> capabilities_args_of(a),
        capabilities_args_of(a) ==> capabilities_args_of(a.push("--json"@)),
        1 <= at < a.len() && a[at] != "--json"@ ==> !capabilities_args_of(a),
{
    if capabilities_args_of(a) {
        let b = a.push("--json"@);
        assert forall|i: int| 1 <= i < b.len() implies b[i] == "--json"@ by {
            if i < a.len() {
                assert(b[i] == a[i]);
            }
        }
    }
}

/// Whether the arguments after the command are all `--json`.
pub fn capabilities_args_valid(args: &[String]) -> (r: bool)
    ensures
        r == capabilities_args_of(argv(args@)),
{
    let ghost a = argv(args@);
    let mut i: usize = 1;
    while i < args.len()
        invariant
            a == argv(args@),
            a.len() == args@.len(),
            1 <= i,
            forall|k: int| 1 <= k < i && k < a.len() ==> a[k] == "--json"@,
        decreases args@.len() + 1 - i,
    {
        if !str_eq(args[i].as_str(), "--json") {
            assert(a[i as int] != "--json"@);
            return false;
        }
        i = i + 1;
    }
    true
}

/// The commands and their maturity, as the JSON report lists them.
pub open spec fn commands_json() -> Seq<char> {
    "\"commands\":[{\"name\":\"client\",\"maturity\":\"research\"},{\"name\":\"server\",\"maturity\":\"research\"},{\"name\":\"probe\",\"maturity\":\"research\"},{\"name\":\"health-observe\",\"maturity\":\"experimental\"},{\"name\":\"failover\",\"maturity\":\"experimental\"},{\"name\":\"multistream\",\"maturity\":\"experimental\"},{\"name\":\"scheduler-fairness\",\"maturity\":\"fixture\"},{\"name\":\"key-update\",\"maturity\":\"fixture\"},{\"name\":\"periodic-server\",\"maturity\":\"research\"},{\"name\":\"periodic-client\",\"maturity\":\"research\"},{\"name\":\"lab\",\"maturity\":\"fixture\"},{\"name\":\"workload\",\"maturity\":\"fixture\"},{\"name\":\"endpoint-rebind-server\",\"maturity\":\"experimental\"},{\"name\":\"endpoint-rebind-client\",\"maturity\":\"experimental\"},{\"name\":\"keygen\",\"maturity\":\"utility\"},{\"name\":\"capabilities\",\"maturity\":\"utility\"}]}"@
}

/// The JSON report for a build of `version` on `os` and `arch`.
pub open spec fn capabilities_json_of(version: Seq<char>, os: Seq<char>, arch: Seq<char>) -> Seq<char> {
    "{\"schema\":\"nekomusume.capabilities.v1\",\"package_version\":\""@ + version
        + "\",\"target_os\":\""@ + os + "\",\"target_arch\":\""@ + arch
        + "\",\"secret_free\":true,\"defaults\":{\"bytes\":32,\"count\":1,\"duration_seconds\":10},\"limits\":{\"bytes_max\":"@
        + decimal(MAX_BYTES as nat) + ",\"count_max\":64,\"duration_seconds_max\":"@ + decimal(
        MAX_DURATION as nat,
    ) + ",\"workload_duration_seconds_max\":"@ + decimal(MAX_WORKLOAD_DURATION as nat)
        + ",\"port_min\":40080,\"port_max\":"@ + decimal(MAX_PORT as nat) + "},"@
        + commands_json()
}

/// The JSON capabilities report.
pub fn capabilities_json(version: &str, os: &str, arch: &str) -> (s: String)
    ensures
        s@ == capabilities_json_of(version@, os@, arch@),
{
    let mut out: Vec<char> = Vec::new();
    push_str(&mut out, "{\"schema\":\"nekomusume.capabilities.v1\",\"package_version\":\"");
    push_str(&mut out, version);
    push_str(&mut out, "\",\"target_os\":\"");
    push_str(&mut out, os);
    push_str(&mut out, "\",\"target_arch\":\"");
    push_str(&mut out, arch);
    push_str(
        &mut out,
        "\",\"secret_free\":true,\"defaults\":{\"bytes\":32,\"count\":1,\"duration_seconds\":10},\"limits\":{\"bytes_max\":",
    );
    push_decimal(&mut out, MAX_BYTES as u64);
    push_str(&mut out, ",\"count_max\":64,\"duration_seconds_max\":");
    push_decimal(&mut out, MAX_DURATION);
    push_str(&mut out, ",\"workload_duration_seconds_max\":");
    push_decimal(&mut out, MAX_WORKLOAD_DURATION);
    push_str(&mut out, ",\"port_min\":40080,\"port_max\":");
    push_decimal(&mut out, MAX_PORT as u64);
    push_str(&mut out, "},");
    push_str(
        &mut out,
        "\"commands\":[{\"name\":\"client\",\"maturity\":\"research\"},{\"name\":\"server\",\"maturity\":\"research\"},{\"name\":\"probe\",\"maturity\":\"research\"},{\"name\":\"health-observe\",\"maturity\":\"experimental\"},{\"name\":\"failover\",\"maturity\":\"experimental\"},{\"name\":\"multistream\",\"maturity\":\"experimental\"},{\"name\":\"scheduler-fairness\",\"maturity\":\"fixture\"},{\"name\":\"key-update\",\"maturity\":\"fixture\"},{\"name\":\"periodic-server\",\"maturity\":\"research\"},{\"name\":\"periodic-client\",\"maturity\":\"research\"},{\"name\":\"lab\",\"maturity\":\"fixture\"},{\"name\":\"workload\",\"maturity\":\"fixture\"},{\"name\":\"endpoint-rebind-server\",\"maturity\":\"experimental\"},{\"name\":\"endpoint-rebind-client\",\"maturity\":\"experimental\"},{\"name\":\"keygen\",\"maturity\":\"utility\"},{\"name\":\"capabilities\",\"maturity\":\"utility\"}]}",
    );
    string_of(out.as_slice())
}

/// The text report for a build of `version` on `os` and `arch`: one line
/// each for the build, the defaults, the limits, the commands by maturity,
/// the fixture scenarios and the secret-free promise.
pub open spec fn capabilities_text_of(version: Seq<char>, os: Seq<char>, arch: Seq<char>) -> Seq<char> {
    "nekomusume "@ + version + " ("@ + os + "/"@ + arch + ")\n"@
        + "defaults bytes=32 count=1 duration_seconds=10\n"@ + "limits bytes=1-"@ + decimal(
        MAX_BYTES as nat,
    ) + " count=1-64 duration_seconds=1-"@ + decimal(MAX_DURATION as nat)
        + " workload_duration_seconds=1-"@ + decimal(MAX_WORKLOAD_DURATION as nat)
        + " ports=40080-"@ + decimal(MAX_PORT as nat) + "\n"@
        + "commands research=client,server,probe,periodic-server,periodic-client experimental=health-observe,failover,multistream,endpoint-rebind-server,endpoint-rebind-client fixtures=scheduler-fairness,key-update,lab,workload utilities=keygen,capabilities aliases=failover-server,failover-client\n"@
        + "fixture_scenarios command=lab scenario=reliable-udp maturity=fixture scope=bounded-loopback-controlled-suppression-manager-decision-only-no-tcp-socket\n"@
        + "report_secret_free=true\n"@
}

/// The text capabilities report, each line ended by a newline.
pub fn capabilities_text(version: &str, os: &str, arch: &str) -> (s: String)
    ensures
        s@ == capabilities_text_of(version@, os@, arch@),
{
    let mut out: Vec<char> = Vec::new();
    push_str(&mut out, "nekomusume ");
    push_str(&mut out, version);
    push_str(&mut out, " (");
    push_str(&mut out, os);
    push_str(&mut out, "/");
    push_str(&mut out, arch);
    push_str(&mut out, ")\n");
    push_str(&mut out, "defaults bytes=32 count=1 duration_seconds=10\n");
    push_str(&mut out, "limits bytes=1-");
    push_decimal(&mut out, MAX_BYTES as u64);
    push_str(&mut out, " count=1-64 duration_seconds=1-");
    push_decimal(&mut out, MAX_DURATION);
    push_str(&mut out, " workload_duration_seconds=1-");
    push_decimal(&mut out, MAX_WORKLOAD_DURATION);
    push_str(&mut out, " ports=40080-");
    push_decimal(&mut out, MAX_PORT as u64);
    push_str(&mut out, "\n");
    push_str(
        &mut out,
        "commands research=client,server,probe,periodic-server,periodic-client experimental=health-observe,failover,multistream,endpoint-rebind-server,endpoint-rebind-client fixtures=scheduler-fairness,key-update,lab,workload utilities=keygen,capabilities aliases=failover-server,failover-client\n",
    );
    push_str(
        &mut out,
        "fixture_scenarios command=lab scenario=reliable-udp maturity=fixture scope=bounded-loopback-controlled-suppression-manager-decision-only-no-tcp-socket\n",
    );
    push_str(&mut out, "report_secret_free=true\n");
    string_of(out.as_slice())
}

} // verus!
