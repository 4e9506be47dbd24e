//! Whether the last Pi-hole metrics scrape succeeded.
use vstd::prelude::*;

use crate::text::to_owned_string;

verus! {

/// The health of the upstream Pi-hole hosts, as the last scrape left it.
#[derive(Debug)]
pub struct UpstreamHealth {
    ready: bool,
    last_error: Option<String>,
}

/// The health as plain values.
pub struct HealthView {
    pub ready: bool,
    pub last_error: Option<Seq<char>>,
}

impl View for UpstreamHealth {
    type V = HealthView;

    closed spec fn view(&self) -> HealthView {
        HealthView {
            ready: self.ready,
            last_error: match self.last_error {
                Some(e) => Some(e@),
                None => None,
            },
        }
    }
}

/// The detail reported before any scrape has succeeded or failed.
pub open spec fn no_fetch_yet() -> Seq<char> {
    "no successful fetch yet"@
}

/// What `status` answers for a health state.
pub open spec fn status_spec(h: HealthView) -> Result<(), Seq<char>> {
    if h.ready {
        Ok(())
    } else {
        match h.last_error {
            Some(e) => Err(e),
            None => Err(no_fetch_yet()),
        }
    }
}

pub open spec fn status_view(r: Result<(), String>) -> Result<(), Seq<char>> {
    match r {
        Ok(()) => Ok(()),
        Err(e) => Err(e@),
    }
}

/// The state before any scrape: not ready, with no error recorded.
pub open spec fn initial_health() -> HealthView {
    HealthView { ready: false, last_error: None }
}

/// The state after a successful scrape, whatever `h` was.
pub open spec fn after_success(h: HealthView) -> HealthView {
    HealthView { ready: true, last_error: None }
}

/// The state after a failed scrape with detail `e`, whatever `h` was.
pub open spec fn after_failure(h: HealthView, e: Seq<char>) -> HealthView {
    HealthView { ready: false, last_error: Some(e) }
}

impl Default for UpstreamHealth {
    /// Not ready, with no error recorded yet.
    fn default() -> (h: UpstreamHealth)
        ensures
            h@ == initial_health(),
    {
        UpstreamHealth { ready: false, last_error: None }
    }
}

impl UpstreamHealth {
    /// The state before any scrape: not ready, with no error recorded.
    pub fn new() -> (h: UpstreamHealth)
        ensures
            h@ == initial_health(),
    {
        UpstreamHealth { ready: false, last_error: None }
    }

    /// Records a successful scrape.
    pub fn mark_success(&mut self)
        ensures
            final(self)@ == after_success(old(self)@),
    {
        self.ready = true;
        self.last_error = None;
    }

    /// Records a failed scrape and its detail.
    pub fn record_failure(&mut self, error: &str)
        ensures
            final(self)@ == after_failure(old(self)@, error@),
    {
        self.ready = false;
        self.last_error = Some(to_owned_string(error));
    }

    /// `Ok(())` when the last metrics scrape succeeded; otherwise the error detail.
    pub fn status(&self) -> (r: Result<(), String>)
        ensures
            status_view(r) == status_spec(self@),
    {
        if self.ready {
            Ok(())
        } else {
            match &self.last_error {
                Some(e) => Err(e.clone()),
                None => Err(to_owned_string("no successful fetch yet")),
            }
        }
    }

    /// Updates the health from the outcome of a scrape of all hosts: a success
    /// marks it ready, a failure records its detail.
    pub fn update_from_scrape(&mut self, outcome: &Result<(), String>)
        ensures
            match outcome {
                Ok(()) => final(self)@ == after_success(old(self)@),
                Err(e) => final(self)@ == after_failure(old(self)@, e@),
            },
    {
        match outcome {
            Ok(()) => self.mark_success(),
            Err(e) => self.record_failure(e.as_str()),
        }
    }
}

/// Until the first successful scrape the status is an error: readiness
/// fails before any fetch.
pub proof fn law_unavailable_until_first_success()
    ensures
        status_spec(initial_health()) == Err::<(), Seq<char>>(no_fetch_yet()),
{
}

/// After a successful scrape the status is `Ok`, whatever came before.
pub proof fn law_ok_after_success(h: HealthView)
    ensures
        status_spec(after_success(h)) == Ok::<(), Seq<char>>(()),
{
}

/// After a failed scrape the status is that failure's detail, whatever came
/// before: a failure marks an upstream that was healthy unhealthy again.
pub proof fn law_failure_reported(h: HealthView, e: Seq<char>)
    ensures
        status_spec(after_failure(h, e)) == Err::<(), Seq<char>>(e),
{
}

/// Only the last scrape counts: a failure followed by a success is healthy,
/// and a success followed by a failure is not.
pub proof fn law_last_scrape_decides(h: HealthView, e: Seq<char>)
    ensures
        status_spec(after_success(after_failure(h, e))) == Ok::<(), Seq<char>>(()),
        status_spec(after_failure(after_success(h), e)) == Err::<(), Seq<char>>(e),
{
}

} // verus!
