//! The connectivity check that runs before the exporter starts serving: how
//! long each attempt may take, and when to retry or give up.
use vstd::prelude::*;

use crate::text::{decimal, push_decimal, push_text, to_owned_string};

verus! {

/// How many times each host is tried before the exporter gives up.
pub const STARTUP_MAX_ATTEMPTS: u32 = 3;

/// The pause before the second attempt; the pause grows by as much before each
/// later one.
pub const STARTUP_RETRY_DELAY_MILLIS: u64 = 500;

/// A span of time as `std::time::Duration` holds it: whole seconds and the
/// nanoseconds of the second begun.
#[derive(Debug, Clone, Copy)]
pub struct TimeSpan {
    pub secs: u64,
    pub nanos: u32,
}

pub open spec fn span_nanos(s: TimeSpan) -> int {
    s.secs * 1_000_000_000 + s.nanos
}

/// The longest span that a `Duration` can hold, in nanoseconds.
pub open spec fn max_span_nanos() -> int {
    u64::MAX * 1_000_000_000 + 999_999_999
}

/// The probe timeout for a connection timeout of `t` nanoseconds: twice the
/// connection timeout (saturating at the longest span), and at least 5 seconds.
pub open spec fn startup_probe_nanos(t: int) -> int {
    let doubled = if 2 * t > max_span_nanos() {
        max_span_nanos()
    } else {
        2 * t
    };
    if doubled < 5_000_000_000 {
        5_000_000_000
    } else {
        doubled
    }
}

/// The time allowed for one connectivity check of a host: time for session
/// authentication plus a follow-up API call.
pub fn startup_probe_timeout(connection_timeout: TimeSpan) -> (r: TimeSpan)
    requires
        connection_timeout.nanos < 1_000_000_000,
    ensures
        r.nanos < 1_000_000_000,
        span_nanos(r) == startup_probe_nanos(span_nanos(connection_timeout)),
{
    let secs = connection_timeout.secs as u128;
    let nanos = connection_timeout.nanos as u128;
    assert(secs * 1_000_000_000 <= u64::MAX * 1_000_000_000) by (nonlinear_arith)
        requires
            secs <= u64::MAX,
    ;
    let total: u128 = secs * 1_000_000_000 + nanos;
    let max_total: u128 = (u64::MAX as u128) * 1_000_000_000 + 999_999_999;
    let doubled: u128 = if total > max_total / 2 {
        if 2 * total > max_total {
            max_total
        } else {
            2 * total
        }
    } else {
        2 * total
    };
    let result: u128 = if doubled < 5_000_000_000 {
        5_000_000_000
    } else {
        doubled
    };
    let out_secs = result / 1_000_000_000;
    let out_nanos = result % 1_000_000_000;
    assert(out_secs * 1_000_000_000 + out_nanos == result) by (nonlinear_arith)
        requires
            out_secs == result / 1_000_000_000,
            out_nanos == result % 1_000_000_000,
    ;
    assert(out_secs <= u64::MAX) by (nonlinear_arith)
        requires
            out_secs == result / 1_000_000_000,
            result <= u64::MAX * 1_000_000_000 + 999_999_999,
    ;
    TimeSpan { secs: out_secs as u64, nanos: out_nanos as u32 }
}

/// What one connectivity check of a host came to.
pub enum ProbeOutcome {
    Connected,
    /// The check failed; the text of the error.
    Failed(String),
    TimedOut,
}

/// What to do next for a host.
pub enum ProbeStep {
    /// Check again after waiting this long.
    Retry { delay_millis: u64 },
    /// The host answered.
    Connected,
    /// The host did not answer in time: the error to report.
    GaveUp(String),
}

/// The checks of one host made so far.
pub struct HostProbe {
    attempts_made: u32,
    last_error: String,
}

pub struct HostProbeView {
    pub attempts_made: nat,
    pub last_error: Seq<char>,
}

impl View for HostProbe {
    type V = HostProbeView;

    closed spec fn view(&self) -> HostProbeView {
        HostProbeView { attempts_made: self.attempts_made as nat, last_error: self.last_error@ }
    }
}

pub enum ProbeStepView {
    Retry { delay_millis: nat },
    Connected,
    GaveUp(Seq<char>),
}

pub open spec fn probe_step_view(s: ProbeStep) -> ProbeStepView {
    match s {
        ProbeStep::Retry { delay_millis } => ProbeStepView::Retry { delay_millis: delay_millis as nat },
        ProbeStep::Connected => ProbeStepView::Connected,
        ProbeStep::GaveUp(e) => ProbeStepView::GaveUp(e@),
    }
}

/// The error text that a timed-out check leaves.
pub open spec fn timed_out_text(timeout_secs: u64) -> Seq<char> {
    "connection timed out after "@ + decimal(timeout_secs as nat) + "s"@
}

/// The error that ends the checks of a host.
pub open spec fn gave_up_text(hostname: Seq<char>, last_error: Seq<char>) -> Seq<char> {
    "failed to connect to Pi-hole host "@ + hostname + " after "@ + decimal(
        STARTUP_MAX_ATTEMPTS as nat,
    ) + " attempts: "@ + last_error
}

/// The error text that an outcome leaves behind, if any.
pub open spec fn outcome_error(o: ProbeOutcome, timeout_secs: u64) -> Seq<char> {
    match o {
        ProbeOutcome::Failed(e) => e@,
        ProbeOutcome::TimedOut => timed_out_text(timeout_secs),
        ProbeOutcome::Connected => Seq::empty(),
    }
}

/// The step after attempt number `n` (counting from 1) came to `o`.
pub open spec fn probe_step_spec(n: nat, o: ProbeOutcome, hostname: Seq<char>, timeout_secs: u64) -> ProbeStepView {
    match o {
        ProbeOutcome::Connected => ProbeStepView::Connected,
        _ => if n < STARTUP_MAX_ATTEMPTS {
            ProbeStepView::Retry { delay_millis: (STARTUP_RETRY_DELAY_MILLIS * n) as nat }
        } else {
            ProbeStepView::GaveUp(gave_up_text(hostname, outcome_error(o, timeout_secs)))
        },
    }
}

impl HostProbe {
    /// No check made yet; the first check goes ahead without waiting.
    pub fn new() -> (p: HostProbe)
        ensures
            p@.attempts_made == 0,
            p@.last_error == Seq::<char>::empty(),
    {
        HostProbe { attempts_made: 0, last_error: String::new() }
    }

    /// Records the outcome of the next check of `hostname` and says what to do
    /// next: retry after a pause that grows by half a second per attempt, stop
    /// on success, and give up after the last attempt with the last error.
    pub fn on_outcome(&mut self, hostname: &str, outcome: ProbeOutcome, timeout_secs: u64) -> (step: ProbeStep)
        requires
            old(self)@.attempts_made < STARTUP_MAX_ATTEMPTS,
        ensures
            final(self)@.attempts_made == old(self)@.attempts_made + 1,
            probe_step_view(step) == probe_step_spec(
                old(self)@.attempts_made + 1,
                outcome,
                hostname@,
                timeout_secs,
            ),
    {
        self.attempts_made = self.attempts_made + 1;
        let n = self.attempts_made;
        match outcome {
            ProbeOutcome::Connected => {
                return ProbeStep::Connected;
            },
            ProbeOutcome::Failed(e) => {
                self.last_error = e;
            },
            ProbeOutcome::TimedOut => {
                let mut t = to_owned_string("connection timed out after ");
                push_decimal(&mut t, timeout_secs);
                push_text(&mut t, "s");
                self.last_error = t;
            },
        }
        if n < STARTUP_MAX_ATTEMPTS {
            ProbeStep::Retry { delay_millis: STARTUP_RETRY_DELAY_MILLIS * (n as u64) }
        } else {
            let mut m = to_owned_string("failed to connect to Pi-hole host ");
            push_text(&mut m, hostname);
            push_text(&mut m, " after ");
            push_decimal(&mut m, STARTUP_MAX_ATTEMPTS as u64);
            push_text(&mut m, " attempts: ");
            push_text(&mut m, self.last_error.as_str());
            ProbeStep::GaveUp(m)
        }
    }
}

/// The checks of a host that keeps failing: after attempt `n` the exporter
/// waits `500 * n` milliseconds and tries again, until the last attempt,
/// after which it gives up. So no host is tried more than three times.
pub proof fn law_probe_gives_up_after_last_attempt(n: nat, e: String, hostname: Seq<char>, timeout_secs: u64)
    requires
        1 <= n <= STARTUP_MAX_ATTEMPTS,
    ensures
        n < STARTUP_MAX_ATTEMPTS ==> probe_step_spec(n, ProbeOutcome::Failed(e), hostname, timeout_secs)
            == (ProbeStepView::Retry { delay_millis: 500 * n }),
        n == STARTUP_MAX_ATTEMPTS ==> probe_step_spec(n, ProbeOutcome::Failed(e), hostname, timeout_secs)
            == ProbeStepView::GaveUp(gave_up_text(hostname, e@)),
        probe_step_spec(n, ProbeOutcome::Connected, hostname, timeout_secs) == ProbeStepView::Connected,
{
}

/// The probe timeout is never below 5 seconds and never below the connection
/// timeout.
pub proof fn law_probe_timeout_bounds(t: int)
    requires
        0 <= t <= max_span_nanos(),
    ensures
        startup_probe_nanos(t) >= 5_000_000_000,
        startup_probe_nanos(t) >= t,
        startup_probe_nanos(t) <= max_span_nanos(),
{
}

/// What checking a host comes to when its checks from attempt `n + 1` on
/// come to `os`: it goes on while the step is to retry.
pub open spec fn host_probe_run(n: nat, os: Seq<ProbeOutcome>, hostname: Seq<char>, timeout_secs: u64) -> ProbeStepView
    decreases os.len(),
{
    if os.len() == 0 {
        ProbeStepView::GaveUp(Seq::empty())
    } else {
        match probe_step_spec(n + 1, os[0], hostname, timeout_secs) {
            ProbeStepView::Retry { .. } => host_probe_run(n + 1, os.drop_first(), hostname, timeout_secs),
            step => step,
        }
    }
}

/// The start-up check of all hosts, in order, given the outcomes of the
/// three checks each host would get: the first host that never answers
/// ends it with its error, and later hosts are not checked.
pub open spec fn probe_all_spec(
    hosts: Seq<Seq<char>>,
    runs: Seq<Seq<ProbeOutcome>>,
    timeout_secs: u64,
) -> Result<(), Seq<char>>
    decreases hosts.len(),
{
    if hosts.len() == 0 || runs.len() == 0 {
        Ok(())
    } else {
        match host_probe_run(0, runs[0], hosts[0], timeout_secs) {
            ProbeStepView::GaveUp(m) => Err(m),
            _ => probe_all_spec(hosts.drop_first(), runs.drop_first(), timeout_secs),
        }
    }
}

/// Checking one host whose three checks come to `o1`, `o2`, `o3`: it is
/// connected as soon as one check succeeds, and otherwise gives up after the
/// third with that check's error.
pub proof fn law_host_probe_sequence(
    o1: ProbeOutcome,
    o2: ProbeOutcome,
    o3: ProbeOutcome,
    hostname: Seq<char>,
    timeout_secs: u64,
)
    ensures
        host_probe_run(0, seq![o1, o2, o3], hostname, timeout_secs) == (if o1 is Connected
            || o2 is Connected || o3 is Connected {
            ProbeStepView::Connected
        } else {
            ProbeStepView::GaveUp(gave_up_text(hostname, outcome_error(o3, timeout_secs)))
        }),
{
    let os = seq![o1, o2, o3];
    assert(os.drop_first() =~= seq![o2, o3]);
    assert(os.drop_first().drop_first() =~= seq![o3]);
    assert(os.drop_first().drop_first().drop_first() =~= Seq::<ProbeOutcome>::empty());
    reveal_with_fuel(host_probe_run, 4);
}

proof fn lemma_host_run_ends(os: Seq<ProbeOutcome>, hostname: Seq<char>, timeout_secs: u64)
    requires
        os.len() == 3,
    ensures
        host_probe_run(0, os, hostname, timeout_secs) is Connected || host_probe_run(
            0,
            os,
            hostname,
            timeout_secs,
        ) is GaveUp,
{
    law_host_probe_sequence(os[0], os[1], os[2], hostname, timeout_secs);
    assert(os =~= seq![os[0], os[1], os[2]]);
}

/// The start-up check of all hosts succeeds exactly when every host answers
/// within its three checks (so also when there is no host); otherwise it
/// fails with the error of the first host that never answered.
pub proof fn law_probe_all_hosts(hosts: Seq<Seq<char>>, runs: Seq<Seq<ProbeOutcome>>, timeout_secs: u64)
    requires
        runs.len() == hosts.len(),
        forall|i: int| 0 <= i < runs.len() ==> (#[trigger] runs[i]).len() == 3,
    ensures
        (probe_all_spec(hosts, runs, timeout_secs) is Ok) <==> forall|i: int|
            0 <= i < hosts.len() ==> #[trigger] host_probe_run(0, runs[i], hosts[i], timeout_secs) is Connected,
        probe_all_spec(hosts, runs, timeout_secs) matches Err(m) ==> exists|i: int|
            0 <= i < hosts.len() && host_probe_run(0, runs[i], hosts[i], timeout_secs)
                == ProbeStepView::GaveUp(m) && forall|k: int|
                0 <= k < i ==> #[trigger] host_probe_run(0, runs[k], hosts[k], timeout_secs) is Connected,
    decreases hosts.len(),
{
    if hosts.len() > 0 {
        let rest_h = hosts.drop_first();
        let rest_r = runs.drop_first();
        assert forall|i: int| 0 <= i < rest_r.len() implies (#[trigger] rest_r[i]).len() == 3 by {
            assert(rest_r[i] == runs[i + 1]);
        }
        law_probe_all_hosts(rest_h, rest_r, timeout_secs);
        lemma_host_run_ends(runs[0], hosts[0], timeout_secs);
        let first = host_probe_run(0, runs[0], hosts[0], timeout_secs);
        if first is Connected {
            assert forall|i: int| 0 <= i < rest_h.len() implies (#[trigger] host_probe_run(
                0,
                rest_r[i],
                rest_h[i],
                timeout_secs,
            ) is Connected) == (host_probe_run(0, runs[i + 1], hosts[i + 1], timeout_secs) is Connected) by {
                assert(rest_r[i] == runs[i + 1]);
                assert(rest_h[i] == hosts[i + 1]);
            }
            if forall|i: int| 0 <= i < hosts.len() ==> #[trigger] host_probe_run(0, runs[i], hosts[i], timeout_secs) is Connected {
                assert forall|i: int| 0 <= i < rest_h.len() implies #[trigger] host_probe_run(
                    0,
                    rest_r[i],
                    rest_h[i],
                    timeout_secs,
                ) is Connected by {
                    assert(host_probe_run(0, runs[i + 1], hosts[i + 1], timeout_secs) is Connected);
                }
            }
            if probe_all_spec(rest_h, rest_r, timeout_secs) is Ok {
                assert forall|i: int| 0 <= i < hosts.len() implies #[trigger] host_probe_run(
                    0,
                    runs[i],
                    hosts[i],
                    timeout_secs,
                ) is Connected by {
                    if i > 0 {
                        assert(host_probe_run(0, rest_r[i - 1], rest_h[i - 1], timeout_secs) is Connected);
                        assert(rest_r[i - 1] == runs[i]);
                        assert(rest_h[i - 1] == hosts[i]);
                    }
                }
            }
            if probe_all_spec(rest_h, rest_r, timeout_secs) is Err {
                let m = probe_all_spec(rest_h, rest_r, timeout_secs)->Err_0;
                let j = choose|j: int|
                    0 <= j < rest_h.len() && host_probe_run(0, rest_r[j], rest_h[j], timeout_secs)
                        == ProbeStepView::GaveUp(m) && forall|k: int|
                        0 <= k < j ==> #[trigger] host_probe_run(0, rest_r[k], rest_h[k], timeout_secs) is Connected;
                assert(rest_r[j] == runs[j + 1] && rest_h[j] == hosts[j + 1]);
                assert forall|k: int| 0 <= k < j + 1 implies #[trigger] host_probe_run(
                    0,
                    runs[k],
                    hosts[k],
                    timeout_secs,
                ) is Connected by {
                    if k > 0 {
                        assert(host_probe_run(0, rest_r[k - 1], rest_h[k - 1], timeout_secs) is Connected);
                        assert(rest_r[k - 1] == runs[k]);
                        assert(rest_h[k - 1] == hosts[k]);
                    }
                }
                assert(!(host_probe_run(0, runs[j + 1], hosts[j + 1], timeout_secs) is Connected));
            }
        } else {
            assert(!(host_probe_run(0, runs[0], hosts[0], timeout_secs) is Connected));
        }
    }
}

} // verus!
