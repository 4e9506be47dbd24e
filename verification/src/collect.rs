//! What one scrape of a Pi-hole host fetches, and which failure it reports
//! when several required fetches fail.
use vstd::prelude::*;

use crate::text::{push_text, to_owned_string};

verus! {

/// A step of a scrape whose failure fails the whole scrape.
#[derive(Debug, Clone, Copy, PartialEq, Eq, Structural)]
pub enum FetchStage {
    Auth,
    StatsSummary,
    BlockedDomains,
    PermittedDomains,
    BlockedClients,
    PermittedClients,
    Upstreams,
    Status,
}

/// The API endpoint that a required fetch reads; authentication has none of
/// its own.
pub open spec fn stage_endpoint_spec(s: FetchStage) -> Seq<char> {
    match s {
        FetchStage::Auth => "/api/auth"@,
        FetchStage::StatsSummary => "/api/stats/summary"@,
        FetchStage::BlockedDomains => "/api/stats/top_domains?blocked=true&count=10"@,
        FetchStage::PermittedDomains => "/api/stats/top_domains?blocked=false&count=10"@,
        FetchStage::BlockedClients => "/api/stats/top_clients?blocked=true&count=10"@,
        FetchStage::PermittedClients => "/api/stats/top_clients?blocked=false&count=10"@,
        FetchStage::Upstreams => "/api/stats/upstreams"@,
        FetchStage::Status => "/api/dns/blocking"@,
    }
}

impl FetchStage {
    /// The API endpoint of the step.
    pub fn endpoint(&self) -> (r: &'static str)
        ensures
            r@ == stage_endpoint_spec(*self),
    {
        match self {
            FetchStage::Auth => "/api/auth",
            FetchStage::StatsSummary => "/api/stats/summary",
            FetchStage::BlockedDomains => "/api/stats/top_domains?blocked=true&count=10",
            FetchStage::PermittedDomains => "/api/stats/top_domains?blocked=false&count=10",
            FetchStage::BlockedClients => "/api/stats/top_clients?blocked=true&count=10",
            FetchStage::PermittedClients => "/api/stats/top_clients?blocked=false&count=10",
            FetchStage::Upstreams => "/api/stats/upstreams",
            FetchStage::Status => "/api/dns/blocking",
        }
    }
}

/// What a failure of the step is reported as, before its cause.
pub open spec fn stage_failure_spec(s: FetchStage) -> Seq<char> {
    match s {
        FetchStage::Auth => "authentication failed"@,
        FetchStage::StatsSummary => "error fetching stats summary"@,
        FetchStage::BlockedDomains => "error fetching blocked domains"@,
        FetchStage::PermittedDomains => "error fetching permitted domains"@,
        FetchStage::BlockedClients => "error fetching blocked clients"@,
        FetchStage::PermittedClients => "error fetching permitted clients"@,
        FetchStage::Upstreams => "error fetching upstream stats"@,
        FetchStage::Status => "error fetching status"@,
    }
}

/// The message of a scrape that failed at `stage` because of `cause`.
pub fn stage_failure_message(stage: FetchStage, cause: &str) -> (r: String)
    ensures
        r@ == stage_failure_spec(stage) + ": "@ + cause@,
{
    let what = match stage {
        FetchStage::Auth => "authentication failed",
        FetchStage::StatsSummary => "error fetching stats summary",
        FetchStage::BlockedDomains => "error fetching blocked domains",
        FetchStage::PermittedDomains => "error fetching permitted domains",
        FetchStage::BlockedClients => "error fetching blocked clients",
        FetchStage::PermittedClients => "error fetching permitted clients",
        FetchStage::Upstreams => "error fetching upstream stats",
        FetchStage::Status => "error fetching status",
    };
    let mut m = to_owned_string(what);
    push_text(&mut m, ": ");
    push_text(&mut m, cause);
    m
}

/// The endpoints whose failure leaves only their own gauges unset.
#[derive(Debug, Clone, Copy, PartialEq, Eq, Structural)]
pub enum OptionalFetch {
    History,
    Version,
    Ftl,
    System,
    Database,
    Sensors,
}

impl OptionalFetch {
    pub fn endpoint(&self) -> (r: &'static str)
        ensures
            r@ == match *self {
                OptionalFetch::History => "/api/history"@,
                OptionalFetch::Version => "/api/info/version"@,
                OptionalFetch::Ftl => "/api/info/ftl"@,
                OptionalFetch::System => "/api/info/system"@,
                OptionalFetch::Database => "/api/info/database"@,
                OptionalFetch::Sensors => "/api/info/sensors"@,
            },
    {
        match self {
            OptionalFetch::History => "/api/history",
            OptionalFetch::Version => "/api/info/version",
            OptionalFetch::Ftl => "/api/info/ftl",
            OptionalFetch::System => "/api/info/system",
            OptionalFetch::Database => "/api/info/database",
            OptionalFetch::Sensors => "/api/info/sensors",
        }
    }
}

/// Which of the required fetches of a scrape succeeded.
#[derive(Debug, Clone, Copy)]
pub struct RequiredFetches {
    pub stats: bool,
    pub blocked_domains: bool,
    pub permitted_domains: bool,
    pub blocked_clients: bool,
    pub permitted_clients: bool,
    pub upstreams: bool,
    pub status: bool,
}

/// The failure that a scrape reports: the first failed fetch in the order
/// summary, blocked domains, permitted domains, permitted clients, blocked
/// clients, upstreams, blocking status.
pub open spec fn first_failed_spec(f: RequiredFetches) -> Option<FetchStage> {
    if !f.stats {
        Some(FetchStage::StatsSummary)
    } else if !f.blocked_domains {
        Some(FetchStage::BlockedDomains)
    } else if !f.permitted_domains {
        Some(FetchStage::PermittedDomains)
    } else if !f.permitted_clients {
        Some(FetchStage::PermittedClients)
    } else if !f.blocked_clients {
        Some(FetchStage::BlockedClients)
    } else if !f.upstreams {
        Some(FetchStage::Upstreams)
    } else if !f.status {
        Some(FetchStage::Status)
    } else {
        None
    }
}

/// The failed fetch that a scrape reports, or `None` when all succeeded.
pub fn first_failed_fetch(f: &RequiredFetches) -> (r: Option<FetchStage>)
    ensures
        r == first_failed_spec(*f),
{
    if !f.stats {
        Some(FetchStage::StatsSummary)
    } else if !f.blocked_domains {
        Some(FetchStage::BlockedDomains)
    } else if !f.permitted_domains {
        Some(FetchStage::PermittedDomains)
    } else if !f.permitted_clients {
        Some(FetchStage::PermittedClients)
    } else if !f.blocked_clients {
        Some(FetchStage::BlockedClients)
    } else if !f.upstreams {
        Some(FetchStage::Upstreams)
    } else if !f.status {
        Some(FetchStage::Status)
    } else {
        None
    }
}

/// The URL of an endpoint of the API at `base_url`.
pub fn endpoint_url(base_url: &str, endpoint: &str) -> (r: String)
    ensures
        r@ == base_url@ + endpoint@,
{
    let mut u = to_owned_string(base_url);
    push_text(&mut u, endpoint);
    u
}

/// A scrape succeeds only when every required fetch does, and then reports
/// no failure; otherwise it reports a fetch that did fail.
pub proof fn law_scrape_fails_iff_a_required_fetch_fails(f: RequiredFetches)
    ensures
        (first_failed_spec(f) is None) <==> (f.stats && f.blocked_domains && f.permitted_domains
            && f.blocked_clients && f.permitted_clients && f.upstreams && f.status),
        first_failed_spec(f) == Some(FetchStage::StatsSummary) ==> !f.stats,
        first_failed_spec(f) == Some(FetchStage::BlockedDomains) ==> !f.blocked_domains,
        first_failed_spec(f) == Some(FetchStage::PermittedDomains) ==> !f.permitted_domains,
        first_failed_spec(f) == Some(FetchStage::PermittedClients) ==> !f.permitted_clients,
        first_failed_spec(f) == Some(FetchStage::BlockedClients) ==> !f.blocked_clients,
        first_failed_spec(f) == Some(FetchStage::Upstreams) ==> !f.upstreams,
        first_failed_spec(f) == Some(FetchStage::Status) ==> !f.status,
{
}

/// The endpoints of the required fetches: the top lists of blocked domains
/// and clients are read with `blocked=true`, those of permitted ones with
/// `blocked=false`, ten entries each.
pub proof fn law_fetch_endpoints()
    ensures
        stage_endpoint_spec(FetchStage::Auth) == "/api/auth"@,
        stage_endpoint_spec(FetchStage::StatsSummary) == "/api/stats/summary"@,
        stage_endpoint_spec(FetchStage::BlockedDomains) == "/api/stats/top_domains?blocked=true&count=10"@,
        stage_endpoint_spec(FetchStage::PermittedDomains) == "/api/stats/top_domains?blocked=false&count=10"@,
        stage_endpoint_spec(FetchStage::BlockedClients) == "/api/stats/top_clients?blocked=true&count=10"@,
        stage_endpoint_spec(FetchStage::PermittedClients) == "/api/stats/top_clients?blocked=false&count=10"@,
        stage_endpoint_spec(FetchStage::Upstreams) == "/api/stats/upstreams"@,
        stage_endpoint_spec(FetchStage::Status) == "/api/dns/blocking"@,
{
}

} // verus!
