//! What the HTTP endpoints answer, and how the scrapes of all hosts combine
//! into one outcome.
use vstd::prelude::*;

use crate::text::{push_text, to_owned_string};
use crate::upstream::{after_failure, after_success, status_spec, HealthView, UpstreamHealth};

verus! {

pub const STATUS_OK: u16 = 200;

pub const STATUS_INTERNAL_SERVER_ERROR: u16 = 500;

pub const STATUS_SERVICE_UNAVAILABLE: u16 = 503;

/// A status code and a body.
#[derive(Debug)]
pub struct HttpReply {
    pub status: u16,
    pub body: String,
}

pub struct ReplyView {
    pub status: u16,
    pub body: Seq<char>,
}

impl View for HttpReply {
    type V = ReplyView;

    open spec fn view(&self) -> ReplyView {
        ReplyView { status: self.status, body: self.body@ }
    }
}

/// The liveness probe always answers `ok`.
pub fn liveness_reply() -> (r: HttpReply)
    ensures
        r@ == (ReplyView { status: STATUS_OK, body: "ok"@ }),
{
    HttpReply { status: STATUS_OK, body: to_owned_string("ok") }
}

/// The service index.
pub fn index_text() -> (r: String)
    ensures
        r@ == index_text_spec(),
{
    to_owned_string(
        "pihole-exporter\n\n/metrics    Prometheus text format (503 when upstream fetch failed)\n/healthz    upstream readiness probe (ok or 503)\n/readiness  upstream readiness probe (ok or 503)\n/liveness   process liveness probe (always ok)\n",
    )
}

pub open spec fn index_text_spec() -> Seq<char> {
    "pihole-exporter\n\n/metrics    Prometheus text format (503 when upstream fetch failed)\n/healthz    upstream readiness probe (ok or 503)\n/readiness  upstream readiness probe (ok or 503)\n/liveness   process liveness probe (always ok)\n"@
}

/// What the readiness probes answer for an upstream status.
pub open spec fn health_reply_spec(status: Result<(), Seq<char>>) -> ReplyView {
    match status {
        Ok(()) => ReplyView { status: STATUS_OK, body: "ok"@ },
        Err(d) => ReplyView {
            status: STATUS_SERVICE_UNAVAILABLE,
            body: "error: upstream unavailable: "@ + d,
        },
    }
}

/// The answer of `/healthz` and `/readiness`: `ok` while the last scrape
/// succeeded, otherwise 503 with the detail.
pub fn upstream_health_reply(status: &Result<(), String>) -> (r: HttpReply)
    ensures
        r@ == health_reply_spec(
            match status {
                Ok(()) => Ok(()),
                Err(d) => Err(d@),
            },
        ),
{
    match status {
        Ok(()) => HttpReply { status: STATUS_OK, body: to_owned_string("ok") },
        Err(d) => {
            let mut body = to_owned_string("error: upstream unavailable: ");
            push_text(&mut body, d.as_str());
            HttpReply { status: STATUS_SERVICE_UNAVAILABLE, body }
        },
    }
}

/// The answer of `/metrics` when the scrape failed.
pub fn scrape_refused_reply(detail: &str) -> (r: HttpReply)
    ensures
        r@ == (ReplyView {
            status: STATUS_SERVICE_UNAVAILABLE,
            body: "failed to fetch upstream data: "@ + detail@,
        }),
{
    let mut body = to_owned_string("failed to fetch upstream data: ");
    push_text(&mut body, detail);
    HttpReply { status: STATUS_SERVICE_UNAVAILABLE, body }
}

/// The refusal of `/metrics` after a failed scrape.
pub open spec fn refused_reply_spec(detail: Seq<char>) -> ReplyView {
    ReplyView { status: STATUS_SERVICE_UNAVAILABLE, body: "failed to fetch upstream data: "@ + detail }
}

/// The first half of `/metrics`: records the outcome of the scrape of all
/// hosts as the upstream health and, when the scrape failed, gives the
/// refusal to answer. `None` means that the metrics are to be rendered.
pub fn metrics_after_scrape(health: &mut UpstreamHealth, outcome: Result<(), String>) -> (r: Option<
    HttpReply,
>)
    ensures
        match outcome {
            Ok(()) => final(health)@ == after_success(old(health)@) && r is None,
            Err(e) => final(health)@ == after_failure(old(health)@, e@) && (r matches Some(reply)
                && reply@ == refused_reply_spec(e@)),
        },
{
    health.update_from_scrape(&outcome);
    match outcome {
        Ok(()) => None,
        Err(e) => Some(scrape_refused_reply(e.as_str())),
    }
}

/// The answer of `/metrics` after a successful scrape: the rendered metrics,
/// or 500 when they could not be rendered.
pub fn render_reply(rendered: Result<String, String>) -> (r: HttpReply)
    ensures
        r@ == match rendered {
            Ok(text) => ReplyView { status: STATUS_OK, body: text@ },
            Err(e) => ReplyView {
                status: STATUS_INTERNAL_SERVER_ERROR,
                body: "failed to render metrics: "@ + e@,
            },
        },
{
    match rendered {
        Ok(text) => HttpReply { status: STATUS_OK, body: text },
        Err(e) => {
            let mut body = to_owned_string("failed to render metrics: ");
            push_text(&mut body, e.as_str());
            HttpReply { status: STATUS_INTERNAL_SERVER_ERROR, body }
        },
    }
}

/// The error of one host whose collection failed.
pub fn host_error_message(hostname: &str, error: &str) -> (r: String)
    ensures
        r@ == hostname@ + ": "@ + error@,
{
    let mut m = to_owned_string(hostname);
    push_text(&mut m, ": ");
    push_text(&mut m, error);
    m
}

/// The error of one host whose collection ran out of time.
pub fn host_timeout_message(hostname: &str) -> (r: String)
    ensures
        r@ == hostname@ + ": metrics collection timed out"@,
{
    let mut m = to_owned_string(hostname);
    push_text(&mut m, ": metrics collection timed out");
    m
}

/// The error of a collection task that did not finish.
pub fn task_failure_message(error: &str) -> (r: String)
    ensures
        r@ == "metrics collection task failed: "@ + error@,
{
    let mut m = to_owned_string("metrics collection task failed: ");
    push_text(&mut m, error);
    m
}

/// The texts of `list` joined with `sep` between neighbours.
pub open spec fn join(list: Seq<Seq<char>>, sep: Seq<char>) -> Seq<char>
    decreases list.len(),
{
    if list.len() == 0 {
        Seq::empty()
    } else if list.len() == 1 {
        list[0]
    } else {
        join(list.drop_last(), sep) + sep + list.last()
    }
}

pub open spec fn texts(v: Seq<String>) -> Seq<Seq<char>> {
    v.map_values(|s: String| s@)
}

/// The outcome of a scrape of all hosts, from the errors of the hosts that
/// failed: success when none did.
pub open spec fn combined_outcome(errors: Seq<Seq<char>>) -> Result<(), Seq<char>> {
    if errors.len() == 0 {
        Ok(())
    } else {
        Err("failed to collect metrics from Pi-hole:\n"@ + join(errors, "\n"@))
    }
}

/// Combines the errors of the hosts whose collection failed into the outcome
/// of the whole scrape.
pub fn combine_scrape_errors(errors: &Vec<String>) -> (r: Result<(), String>)
    ensures
        match r {
            Ok(()) => combined_outcome(texts(errors@)) == Ok::<(), Seq<char>>(()),
            Err(e) => combined_outcome(texts(errors@)) == Err::<(), Seq<char>>(e@),
        },
{
    if errors.len() == 0 {
        return Ok(());
    }
    let ghost t = texts(errors@);
    let mut joined = errors[0].clone();
    assert(t.take(1) =~= seq![t[0]]);
    let mut i: usize = 1;
    while i < errors.len()
        invariant
            1 <= i <= errors@.len(),
            t == texts(errors@),
            joined@ == join(t.take(i as int), "\n"@),
        decreases errors.len() - i,
    {
        push_text(&mut joined, "\n");
        push_text(&mut joined, errors[i].as_str());
        assert(t.take(i + 1).drop_last() =~= t.take(i as int));
        i = i + 1;
    }
    assert(t.take(errors@.len() as int) =~= t);
    let mut m = to_owned_string("failed to collect metrics from Pi-hole:\n");
    push_text(&mut m, joined.as_str());
    Err(m)
}

/// How the collection of one host ended.
#[derive(Debug)]
pub enum HostOutcome {
    /// The host's metrics were collected.
    Collected,
    /// The collection of the host failed with this error text.
    Failed { hostname: String, error: String },
    /// The collection of the host ran out of time.
    TimedOut { hostname: String },
    /// The task collecting a host did not finish; the text of its failure.
    TaskFailed(String),
}

/// The message that an outcome contributes to the scrape's error, if any.
pub open spec fn outcome_message(o: HostOutcome) -> Option<Seq<char>> {
    match o {
        HostOutcome::Collected => None,
        HostOutcome::Failed { hostname, error } => Some(hostname@ + ": "@ + error@),
        HostOutcome::TimedOut { hostname } => Some(hostname@ + ": metrics collection timed out"@),
        HostOutcome::TaskFailed(e) => Some("metrics collection task failed: "@ + e@),
    }
}

/// The messages of the hosts that were not collected, in host order.
pub open spec fn outcome_messages(s: Seq<HostOutcome>) -> Seq<Seq<char>>
    decreases s.len(),
{
    if s.len() == 0 {
        Seq::empty()
    } else {
        outcome_messages(s.drop_last()) + match outcome_message(s.last()) {
            Some(m) => seq![m],
            None => Seq::empty(),
        }
    }
}

/// The outcome of a scrape of all hosts, from how each host's collection
/// ended (in host order): success when all were collected, otherwise the
/// messages of the others, combined.
pub fn scrape_outcome(outcomes: &Vec<HostOutcome>) -> (r: Result<(), String>)
    ensures
        match r {
            Ok(()) => combined_outcome(outcome_messages(outcomes@)) == Ok::<(), Seq<char>>(()),
            Err(e) => combined_outcome(outcome_messages(outcomes@)) == Err::<(), Seq<char>>(e@),
        },
{
    let mut errors: Vec<String> = Vec::new();
    let mut i: usize = 0;
    while i < outcomes.len()
        invariant
            i <= outcomes@.len(),
            texts(errors@) == outcome_messages(outcomes@.take(i as int)),
        decreases outcomes.len() - i,
    {
        let ghost before = errors@;
        assert(outcomes@.take(i + 1).drop_last() =~= outcomes@.take(i as int));
        assert(outcomes@.take(i + 1).last() == outcomes@[i as int]);
        match &outcomes[i] {
            HostOutcome::Collected => {},
            HostOutcome::Failed { hostname, error } => {
                errors.push(host_error_message(hostname.as_str(), error.as_str()));
            },
            HostOutcome::TimedOut { hostname } => {
                errors.push(host_timeout_message(hostname.as_str()));
            },
            HostOutcome::TaskFailed(e) => {
                errors.push(task_failure_message(e.as_str()));
            },
        }
        assert(texts(errors@) =~= outcome_messages(outcomes@.take(i + 1)));
        i = i + 1;
    }
    assert(outcomes@.take(outcomes@.len() as int) =~= outcomes@);
    combine_scrape_errors(&errors)
}

proof fn lemma_no_messages_iff_collected(s: Seq<HostOutcome>)
    ensures
        outcome_messages(s).len() == 0 <==> forall|i: int| 0 <= i < s.len() ==> #[trigger] s[i] is Collected,
    decreases s.len(),
{
    if s.len() > 0 {
        lemma_no_messages_iff_collected(s.drop_last());
        if outcome_messages(s).len() == 0 {
            assert forall|i: int| 0 <= i < s.len() implies #[trigger] s[i] is Collected by {
                if i < s.len() - 1 {
                    assert(s[i] == s.drop_last()[i]);
                }
            }
        }
        if forall|i: int| 0 <= i < s.len() ==> #[trigger] s[i] is Collected {
            assert forall|i: int| 0 <= i < s.drop_last().len() implies #[trigger] s.drop_last()[i] is Collected by {
                assert(s[i] is Collected);
            }
            assert(s[s.len() - 1] is Collected);
        }
    }
}

/// A scrape of all hosts succeeds exactly when every host was collected
/// (so also when there is no host); one host's failure does not hide the
/// others', whose messages all appear, in host order.
pub proof fn law_scrape_ok_iff_all_collected(s: Seq<HostOutcome>)
    ensures
        (combined_outcome(outcome_messages(s)) is Ok) <==> forall|i: int|
            0 <= i < s.len() ==> #[trigger] s[i] is Collected,
{
    lemma_no_messages_iff_collected(s);
}

/// How the exporter serves.
#[derive(Debug, Clone, Copy, PartialEq, Eq, Structural)]
pub enum ServeMode {
    Plain,
    Tls,
}

/// Plain HTTP without certificate and key, HTTPS with both; one without the
/// other is refused.
pub fn serve_mode(has_cert_file: bool, has_key_file: bool) -> (r: Result<ServeMode, String>)
    ensures
        match r {
            Ok(m) => (m == ServeMode::Tls && has_cert_file && has_key_file) || (m
                == ServeMode::Plain && !has_cert_file && !has_key_file),
            Err(e) => has_cert_file != has_key_file && e@
                == "TLS requires both tls_cert_file and tls_key_file; set both or omit entirely"@,
        },
{
    if has_cert_file && has_key_file {
        Ok(ServeMode::Tls)
    } else if !has_cert_file && !has_key_file {
        Ok(ServeMode::Plain)
    } else {
        Err(
            to_owned_string(
                "TLS requires both tls_cert_file and tls_key_file; set both or omit entirely",
            ),
        )
    }
}

/// The scrape of all hosts succeeds exactly when no host failed.
pub proof fn law_scrape_ok_iff_no_failure(errors: Seq<Seq<char>>)
    ensures
        (combined_outcome(errors) is Ok) <==> errors.len() == 0,
{
}

/// After a successful scrape the readiness probes answer 200 `ok`; after a
/// failed one they answer 503, whatever the state was before.
pub proof fn law_probes_follow_last_scrape(h: HealthView, e: Seq<char>)
    ensures
        health_reply_spec(status_spec(after_success(h))) == (ReplyView {
            status: STATUS_OK,
            body: "ok"@,
        }),
        health_reply_spec(status_spec(after_failure(h, e))).status == STATUS_SERVICE_UNAVAILABLE,
{
}

/// When a scrape fails, `/metrics` refuses with the scrape's detail and the
/// readiness probes then answer 503 with that same detail.
pub proof fn law_failed_scrape_reported_alike(h: HealthView, e: Seq<char>)
    ensures
        refused_reply_spec(e).status == health_reply_spec(status_spec(after_failure(h, e))).status,
        refused_reply_spec(e).body == "failed to fetch upstream data: "@ + e,
        health_reply_spec(status_spec(after_failure(h, e))).body == "error: upstream unavailable: "@
            + e,
{
}

} // verus!
