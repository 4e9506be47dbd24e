//! The integer-valued gauge readings that one scrape of a Pi-hole host
//! produces: which gauge, with which label values, set to which count.
use vstd::prelude::*;

use crate::catalog::MetricId;
use crate::info::{
    version_labels, version_labels_spec, ComponentVersions, FtlDatabaseInfo, VersionResponse,
};
use crate::model::{
    latest_history_slot, latest_index, port_label_spec, upstream_port_label, DomainCount,
    HistoryResponse, HistorySlot, PiHoleClient, ReplyStats, ClientStats, GravityStats, TopDomains,
};
use crate::text::{
    ascii_lowercase, push_signed_decimal, push_text, signed_decimal, text_eq, to_ascii_lowercase,
    to_owned_string,
};

verus! {

/// One gauge reading: the gauge, its label values, and the count it is set to.
#[derive(Debug)]
pub struct Sample {
    pub metric: MetricId,
    pub labels: Vec<String>,
    pub value: i64,
}

pub struct SampleView {
    pub metric: MetricId,
    pub labels: Seq<Seq<char>>,
    pub value: int,
}

pub open spec fn texts(v: Seq<String>) -> Seq<Seq<char>> {
    v.map_values(|s: String| s@)
}

impl View for Sample {
    type V = SampleView;

    open spec fn view(&self) -> SampleView {
        SampleView { metric: self.metric, labels: texts(self.labels@), value: self.value as int }
    }
}

pub open spec fn samples_view(v: Seq<Sample>) -> Seq<SampleView> {
    v.map_values(|s: Sample| s@)
}

/// The number of queries that Pi-hole gave one processing status.
#[derive(Debug)]
pub struct StatusCount {
    pub status: String,
    pub count: i64,
}

/// The integer parts of the query statistics.
#[derive(Debug)]
pub struct QueryCounts {
    pub total: i64,
    pub blocked: i64,
    pub unique_domains: i64,
    pub forwarded: i64,
    pub cached: i64,
    pub status: Vec<StatusCount>,
    pub replies: ReplyStats,
}

/// The integer parts of the statistics summary.
#[derive(Debug)]
pub struct SummaryCounts {
    pub queries: QueryCounts,
    pub clients: ClientStats,
    pub gravity: GravityStats,
}

/// One upstream DNS server and the queries forwarded to it.
#[derive(Debug)]
pub struct UpstreamCount {
    pub ip: String,
    pub name: String,
    pub port: i64,
    pub count: i64,
}

#[derive(Debug)]
pub struct UpstreamCounts {
    pub upstreams: Vec<UpstreamCount>,
    pub forwarded_queries: i64,
    pub total_queries: i64,
}

/// The integer parts of the FTL information.
#[derive(Debug)]
pub struct FtlCounts {
    pub pid: i64,
    pub privacy_level: i64,
    pub database: Option<FtlDatabaseInfo>,
}

/// The integer parts of the system information.
#[derive(Debug)]
pub struct SystemCounts {
    pub nprocs: i64,
}

/// The integer parts of the query database information.
#[derive(Debug)]
pub struct DatabaseCounts {
    pub size: i64,
    pub queries: i64,
    pub queries_disk: i64,
}

/// Everything a scrape of one host collected that has integer values.
#[derive(Debug)]
pub struct ScrapeCounts {
    pub stats: SummaryCounts,
    /// The blocking mode, such as `enabled`.
    pub blocking: String,
    pub blocked_domains: TopDomains,
    pub permitted_domains: TopDomains,
    /// The permitted and the blocked clients, merged.
    pub clients: Vec<PiHoleClient>,
    pub upstreams: UpstreamCounts,
    pub history: Option<HistoryResponse>,
    pub version: Option<VersionResponse>,
    pub ftl: Option<FtlCounts>,
    pub system: Option<SystemCounts>,
    pub database: Option<DatabaseCounts>,
}

pub open spec fn sv(metric: MetricId, labels: Seq<Seq<char>>, value: int) -> SampleView {
    SampleView { metric, labels, value }
}

pub open spec fn host_sv(h: Seq<char>, metric: MetricId, value: int) -> SampleView {
    sv(metric, seq![h], value)
}

/// The counters of the statistics summary.
pub open spec fn summary_section(h: Seq<char>, s: SummaryCounts) -> Seq<SampleView> {
    seq![
        host_sv(h, MetricId::DomainsBlocked, s.gravity.domains_being_blocked as int),
        host_sv(h, MetricId::DnsQueriesToday, s.queries.total as int),
        host_sv(h, MetricId::AdsBlockedToday, s.queries.blocked as int),
        host_sv(h, MetricId::UniqueDomains, s.queries.unique_domains as int),
        host_sv(h, MetricId::QueriesForwarded, s.queries.forwarded as int),
        host_sv(h, MetricId::QueriesCached, s.queries.cached as int),
        host_sv(h, MetricId::ClientsEverSeen, s.clients.total as int),
        host_sv(h, MetricId::UniqueClients, s.clients.active as int),
        host_sv(h, MetricId::DnsQueriesAllTypes, s.queries.total as int),
    ]
}

/// The time of the last gravity update and its age at `now`, when Pi-hole
/// reports an update.
pub open spec fn gravity_section(h: Seq<char>, g: GravityStats, now: int) -> Seq<SampleView> {
    if g.last_update > 0 {
        seq![
            host_sv(h, MetricId::GravityLastUpdate, g.last_update as int),
            host_sv(h, MetricId::GravityAgeSeconds, now - g.last_update),
        ]
    } else {
        Seq::empty()
    }
}

/// The queries per processing status, the status label lower-cased.
pub open spec fn status_section(h: Seq<char>, st: Seq<StatusCount>) -> Seq<SampleView> {
    st.map_values(
        |c: StatusCount| sv(MetricId::QueryStatus, seq![h, ascii_lowercase(c.status@)], c.count as int),
    )
}

/// 1 when blocking is `enabled`, else 0.
pub open spec fn blocking_section(h: Seq<char>, blocking: Seq<char>) -> Seq<SampleView> {
    seq![host_sv(h, MetricId::Status, if blocking == "enabled"@ { 1 } else { 0 })]
}

pub open spec fn reply_sv(h: Seq<char>, t: Seq<char>, v: i64) -> SampleView {
    sv(MetricId::Reply, seq![h, t], v as int)
}

/// The replies per type.
pub open spec fn reply_section(h: Seq<char>, r: ReplyStats) -> Seq<SampleView> {
    seq![
        reply_sv(h, "unknown"@, r.UNKNOWN),
        reply_sv(h, "no_data"@, r.NODATA),
        reply_sv(h, "nx_domain"@, r.NXDOMAIN),
        reply_sv(h, "cname"@, r.CNAME),
        reply_sv(h, "ip"@, r.IP),
        reply_sv(h, "domain"@, r.DOMAIN),
        reply_sv(h, "rr_name"@, r.RRNAME),
        reply_sv(h, "serv_fail"@, r.SERVFAIL),
        reply_sv(h, "refused"@, r.REFUSED),
        reply_sv(h, "not_imp"@, r.NOTIMP),
        reply_sv(h, "other"@, r.OTHER),
        reply_sv(h, "dnssec"@, r.DNSSEC),
        reply_sv(h, "none"@, r.NONE),
        reply_sv(h, "blob"@, r.BLOB),
    ]
}

/// One reading per domain.
pub open spec fn domains_section(h: Seq<char>, m: MetricId, d: Seq<DomainCount>) -> Seq<SampleView> {
    d.map_values(|c: DomainCount| sv(m, seq![h, c.domain@], c.count as int))
}

/// One reading per client.
pub open spec fn sources_section(h: Seq<char>, c: Seq<PiHoleClient>) -> Seq<SampleView> {
    c.map_values(
        |x: PiHoleClient| sv(MetricId::TopSources, seq![h, x.ip@, x.name@], x.count as int),
    )
}

/// The totals of the upstream statistics.
pub open spec fn upstream_totals_section(h: Seq<char>, u: UpstreamCounts) -> Seq<SampleView> {
    seq![
        host_sv(h, MetricId::UpstreamForwardedQueries, u.forwarded_queries as int),
        host_sv(h, MetricId::UpstreamTotalQueries, u.total_queries as int),
    ]
}

/// One reading per upstream server.
pub open spec fn destinations_section(h: Seq<char>, u: Seq<UpstreamCount>) -> Seq<SampleView> {
    u.map_values(
        |x: UpstreamCount|
            sv(
                MetricId::ForwardDestinations,
                seq![h, x.ip@, x.name@, port_label_spec(x.port)],
                x.count as int,
            ),
    )
}

pub open spec fn history_sv(h: Seq<char>, slot: HistorySlot, field: Seq<char>, v: i64) -> SampleView {
    sv(MetricId::History, seq![h, signed_decimal(slot.timestamp as int), field], v as int)
}

/// The four readings of one history slot.
pub open spec fn slot_section(h: Seq<char>, slot: HistorySlot) -> Seq<SampleView> {
    seq![
        history_sv(h, slot, "total"@, slot.total),
        history_sv(h, slot, "blocked"@, slot.blocked),
        history_sv(h, slot, "cached"@, slot.cached),
        history_sv(h, slot, "forwarded"@, slot.forwarded),
    ]
}

/// The readings of every history slot, in order.
pub open spec fn slots_section(h: Seq<char>, s: Seq<HistorySlot>) -> Seq<SampleView>
    decreases s.len(),
{
    if s.len() == 0 {
        Seq::empty()
    } else {
        slots_section(h, s.drop_last()) + slot_section(h, s.last())
    }
}

/// The history: every slot, then the totals of the latest slot.
pub open spec fn history_section(h: Seq<char>, s: Seq<HistorySlot>) -> Seq<SampleView> {
    slots_section(h, s) + if s.len() > 0 {
        let latest = s[latest_index(s)];
        seq![
            host_sv(h, MetricId::QueriesLast10min, latest.total as int),
            host_sv(h, MetricId::AdsLast10min, latest.blocked as int),
        ]
    } else {
        Seq::empty()
    }
}

pub open spec fn scope_section(
    h: Seq<char>,
    component: Seq<char>,
    scope: Seq<char>,
    d: Option<crate::info::VersionDetail>,
) -> Seq<SampleView> {
    match d {
        Some(detail) => seq![
            sv(MetricId::VersionInfo, version_labels_spec(h, component, scope, detail@), 1),
        ],
        None => Seq::empty(),
    }
}

/// The installed and the latest versions of one component.
pub open spec fn component_section(h: Seq<char>, component: Seq<char>, v: ComponentVersions) -> Seq<SampleView> {
    scope_section(h, component, "local"@, v.local) + scope_section(h, component, "remote"@, v.remote)
}

/// The versions of all components.
pub open spec fn version_section(h: Seq<char>, v: VersionResponse) -> Seq<SampleView> {
    component_section(h, "core"@, v.version.core) + component_section(h, "web"@, v.version.web)
        + component_section(h, "ftl"@, v.version.ftl) + match v.version.docker {
        Some(d) => component_section(h, "docker"@, d),
        None => Seq::empty(),
    }
}

/// The FTL counters.
pub open spec fn ftl_section(h: Seq<char>, f: FtlCounts) -> Seq<SampleView> {
    seq![
        host_sv(h, MetricId::FtlPid, f.pid as int),
        host_sv(h, MetricId::FtlPrivacyLevel, f.privacy_level as int),
    ] + match f.database {
        Some(db) => seq![
            host_sv(h, MetricId::FtlDatabaseGravity, db.gravity as int),
            host_sv(h, MetricId::FtlDatabaseGroups, db.groups as int),
            host_sv(h, MetricId::FtlDatabaseLists, db.lists as int),
            host_sv(h, MetricId::FtlDatabaseClients, db.clients as int),
        ],
        None => Seq::empty(),
    }
}

pub open spec fn database_section(h: Seq<char>, d: DatabaseCounts) -> Seq<SampleView> {
    seq![
        host_sv(h, MetricId::DatabaseSizeBytes, d.size as int),
        host_sv(h, MetricId::DatabaseQueries, d.queries as int),
        host_sv(h, MetricId::DatabaseQueriesDisk, d.queries_disk as int),
    ]
}

/// All integer-valued readings of one scrape of host `h`, at time `now`
/// (seconds since the epoch), in the order in which they are set.
pub open spec fn scrape_samples_spec(h: Seq<char>, d: ScrapeCounts, now: int) -> Seq<SampleView> {
    summary_section(h, d.stats) + gravity_section(h, d.stats.gravity, now) + status_section(
        h,
        d.stats.queries.status@,
    ) + blocking_section(h, d.blocking@) + reply_section(h, d.stats.queries.replies)
        + domains_section(h, MetricId::TopQueries, d.permitted_domains.domains@) + domains_section(
        h,
        MetricId::TopAds,
        d.blocked_domains.domains@,
    ) + sources_section(h, d.clients@) + upstream_totals_section(h, d.upstreams)
        + destinations_section(h, d.upstreams.upstreams@) + match d.history {
        Some(hist) => history_section(h, hist.history@),
        None => Seq::empty(),
    } + match d.version {
        Some(v) => version_section(h, v),
        None => Seq::empty(),
    } + match d.ftl {
        Some(f) => ftl_section(h, f),
        None => Seq::empty(),
    } + match d.system {
        Some(s) => seq![host_sv(h, MetricId::SystemCpuNprocs, s.nprocs as int)],
        None => Seq::empty(),
    } + match d.database {
        Some(db) => database_section(h, db),
        None => Seq::empty(),
    }
}

fn labels1(h: &str) -> (r: Vec<String>)
    ensures
        texts(r@) == seq![h@],
{
    let mut r: Vec<String> = Vec::new();
    r.push(to_owned_string(h));
    assert(texts(r@) =~= seq![h@]);
    r
}

fn labels2(h: &str, a: &str) -> (r: Vec<String>)
    ensures
        texts(r@) == seq![h@, a@],
{
    let mut r: Vec<String> = Vec::new();
    r.push(to_owned_string(h));
    r.push(to_owned_string(a));
    assert(texts(r@) =~= seq![h@, a@]);
    r
}

fn labels3(h: &str, a: &str, b: &str) -> (r: Vec<String>)
    ensures
        texts(r@) == seq![h@, a@, b@],
{
    let mut r: Vec<String> = Vec::new();
    r.push(to_owned_string(h));
    r.push(to_owned_string(a));
    r.push(to_owned_string(b));
    assert(texts(r@) =~= seq![h@, a@, b@]);
    r
}

fn push_sample(out: &mut Vec<Sample>, metric: MetricId, labels: Vec<String>, value: i64)
    ensures
        samples_view(final(out)@) == samples_view(old(out)@).push(
            sv(metric, texts(labels@), value as int),
        ),
{
    let ghost before = out@;
    out.push(Sample { metric, labels, value });
    assert(samples_view(out@) =~= samples_view(before).push(sv(metric, texts(labels@), value as int)));
}

fn push_host(out: &mut Vec<Sample>, h: &str, metric: MetricId, value: i64)
    ensures
        samples_view(final(out)@) == samples_view(old(out)@).push(host_sv(h@, metric, value as int)),
{
    push_sample(out, metric, labels1(h), value);
}

fn push_summary(out: &mut Vec<Sample>, h: &str, s: &SummaryCounts)
    ensures
        samples_view(final(out)@) == samples_view(old(out)@) + summary_section(h@, *s),
{
    let ghost before = samples_view(out@);
    push_host(out, h, MetricId::DomainsBlocked, s.gravity.domains_being_blocked);
    push_host(out, h, MetricId::DnsQueriesToday, s.queries.total);
    push_host(out, h, MetricId::AdsBlockedToday, s.queries.blocked);
    push_host(out, h, MetricId::UniqueDomains, s.queries.unique_domains);
    push_host(out, h, MetricId::QueriesForwarded, s.queries.forwarded);
    push_host(out, h, MetricId::QueriesCached, s.queries.cached);
    push_host(out, h, MetricId::ClientsEverSeen, s.clients.total);
    push_host(out, h, MetricId::UniqueClients, s.clients.active);
    push_host(out, h, MetricId::DnsQueriesAllTypes, s.queries.total);
    assert(samples_view(out@) =~= before + summary_section(h@, *s));
}

fn push_gravity(out: &mut Vec<Sample>, h: &str, g: &GravityStats, now: i64)
    requires
        now >= 0,
    ensures
        samples_view(final(out)@) == samples_view(old(out)@) + gravity_section(h@, *g, now as int),
{
    let ghost before = samples_view(out@);
    if g.last_update > 0 {
        push_host(out, h, MetricId::GravityLastUpdate, g.last_update);
        push_host(out, h, MetricId::GravityAgeSeconds, now - g.last_update);
        assert(samples_view(out@) =~= before + gravity_section(h@, *g, now as int));
    } else {
        assert(samples_view(out@) =~= before + gravity_section(h@, *g, now as int));
    }
}

fn push_status(out: &mut Vec<Sample>, h: &str, st: &Vec<StatusCount>)
    ensures
        samples_view(final(out)@) == samples_view(old(out)@) + status_section(h@, st@),
{
    let ghost before = samples_view(out@);
    let mut i: usize = 0;
    while i < st.len()
        invariant
            i <= st@.len(),
            samples_view(out@) == before + status_section(h@, st@.take(i as int)),
        decreases st.len() - i,
    {
        let label = to_ascii_lowercase(st[i].status.as_str());
        push_sample(out, MetricId::QueryStatus, labels2(h, label.as_str()), st[i].count);
        assert(status_section(h@, st@.take(i + 1)) =~= status_section(h@, st@.take(i as int)).push(
            sv(MetricId::QueryStatus, seq![h@, ascii_lowercase(st@[i as int].status@)], st@[i as int].count as int),
        ));
        i = i + 1;
    }
    assert(st@.take(st@.len() as int) =~= st@);
}

fn push_blocking(out: &mut Vec<Sample>, h: &str, blocking: &str)
    ensures
        samples_view(final(out)@) == samples_view(old(out)@) + blocking_section(h@, blocking@),
{
    let ghost before = samples_view(out@);
    let v: i64 = if text_eq(blocking, "enabled") {
        1
    } else {
        0
    };
    push_host(out, h, MetricId::Status, v);
    assert(samples_view(out@) =~= before + blocking_section(h@, blocking@));
}

fn push_reply(out: &mut Vec<Sample>, h: &str, t: &str, v: i64)
    ensures
        samples_view(final(out)@) == samples_view(old(out)@).push(reply_sv(h@, t@, v)),
{
    push_sample(out, MetricId::Reply, labels2(h, t), v);
}

fn push_replies(out: &mut Vec<Sample>, h: &str, r: &ReplyStats)
    ensures
        samples_view(final(out)@) == samples_view(old(out)@) + reply_section(h@, *r),
{
    let ghost before = samples_view(out@);
    push_reply(out, h, "unknown", r.UNKNOWN);
    push_reply(out, h, "no_data", r.NODATA);
    push_reply(out, h, "nx_domain", r.NXDOMAIN);
    push_reply(out, h, "cname", r.CNAME);
    push_reply(out, h, "ip", r.IP);
    push_reply(out, h, "domain", r.DOMAIN);
    push_reply(out, h, "rr_name", r.RRNAME);
    push_reply(out, h, "serv_fail", r.SERVFAIL);
    push_reply(out, h, "refused", r.REFUSED);
    push_reply(out, h, "not_imp", r.NOTIMP);
    push_reply(out, h, "other", r.OTHER);
    push_reply(out, h, "dnssec", r.DNSSEC);
    push_reply(out, h, "none", r.NONE);
    push_reply(out, h, "blob", r.BLOB);
    assert(samples_view(out@) =~= before + reply_section(h@, *r));
}

fn push_domains(out: &mut Vec<Sample>, h: &str, m: MetricId, d: &Vec<DomainCount>)
    ensures
        samples_view(final(out)@) == samples_view(old(out)@) + domains_section(h@, m, d@),
{
    let ghost before = samples_view(out@);
    let mut i: usize = 0;
    while i < d.len()
        invariant
            i <= d@.len(),
            samples_view(out@) == before + domains_section(h@, m, d@.take(i as int)),
        decreases d.len() - i,
    {
        push_sample(out, m, labels2(h, d[i].domain.as_str()), d[i].count);
        assert(domains_section(h@, m, d@.take(i + 1)) =~= domains_section(h@, m, d@.take(i as int)).push(
            sv(m, seq![h@, d@[i as int].domain@], d@[i as int].count as int),
        ));
        i = i + 1;
    }
    assert(d@.take(d@.len() as int) =~= d@);
}

fn push_sources(out: &mut Vec<Sample>, h: &str, c: &Vec<PiHoleClient>)
    ensures
        samples_view(final(out)@) == samples_view(old(out)@) + sources_section(h@, c@),
{
    let ghost before = samples_view(out@);
    let mut i: usize = 0;
    while i < c.len()
        invariant
            i <= c@.len(),
            samples_view(out@) == before + sources_section(h@, c@.take(i as int)),
        decreases c.len() - i,
    {
        let labels = labels3(h, c[i].ip.as_str(), c[i].name.as_str());
        push_sample(out, MetricId::TopSources, labels, c[i].count);
        assert(sources_section(h@, c@.take(i + 1)) =~= sources_section(h@, c@.take(i as int)).push(
            sv(MetricId::TopSources, seq![h@, c@[i as int].ip@, c@[i as int].name@], c@[i as int].count as int),
        ));
        i = i + 1;
    }
    assert(c@.take(c@.len() as int) =~= c@);
}

fn push_destinations(out: &mut Vec<Sample>, h: &str, u: &Vec<UpstreamCount>)
    ensures
        samples_view(final(out)@) == samples_view(old(out)@) + destinations_section(h@, u@),
{
    let ghost before = samples_view(out@);
    let mut i: usize = 0;
    while i < u.len()
        invariant
            i <= u@.len(),
            samples_view(out@) == before + destinations_section(h@, u@.take(i as int)),
        decreases u.len() - i,
    {
        let x = &u[i];
        let port = upstream_port_label(x.port);
        let mut labels: Vec<String> = Vec::new();
        labels.push(to_owned_string(h));
        labels.push(to_owned_string(x.ip.as_str()));
        labels.push(to_owned_string(x.name.as_str()));
        labels.push(port);
        assert(texts(labels@) =~= seq![h@, x.ip@, x.name@, port_label_spec(x.port)]);
        push_sample(out, MetricId::ForwardDestinations, labels, x.count);
        assert(destinations_section(h@, u@.take(i + 1)) =~= destinations_section(h@, u@.take(i as int)).push(
            sv(MetricId::ForwardDestinations, seq![h@, x.ip@, x.name@, port_label_spec(x.port)], x.count as int),
        ));
        i = i + 1;
    }
    assert(u@.take(u@.len() as int) =~= u@);
}

fn push_slot(out: &mut Vec<Sample>, h: &str, slot: &HistorySlot)
    ensures
        samples_view(final(out)@) == samples_view(old(out)@) + slot_section(h@, *slot),
{
    let ghost before = samples_view(out@);
    let mut ts = String::new();
    push_signed_decimal(&mut ts, slot.timestamp);
    assert(ts@ =~= signed_decimal(slot.timestamp as int));
    push_history(out, h, ts.as_str(), "total", slot.total);
    push_history(out, h, ts.as_str(), "blocked", slot.blocked);
    push_history(out, h, ts.as_str(), "cached", slot.cached);
    push_history(out, h, ts.as_str(), "forwarded", slot.forwarded);
    assert(samples_view(out@) =~= before + slot_section(h@, *slot));
}

fn push_history(out: &mut Vec<Sample>, h: &str, ts: &str, field: &str, v: i64)
    ensures
        samples_view(final(out)@) == samples_view(old(out)@).push(
            sv(MetricId::History, seq![h@, ts@, field@], v as int),
        ),
{
    let labels = labels3(h, ts, field);
    push_sample(out, MetricId::History, labels, v);
}

fn push_history_section(out: &mut Vec<Sample>, h: &str, s: &Vec<HistorySlot>)
    ensures
        samples_view(final(out)@) == samples_view(old(out)@) + history_section(h@, s@),
{
    let ghost before = samples_view(out@);
    let mut i: usize = 0;
    while i < s.len()
        invariant
            i <= s@.len(),
            samples_view(out@) == before + slots_section(h@, s@.take(i as int)),
        decreases s.len() - i,
    {
        push_slot(out, h, &s[i]);
        assert(s@.take(i + 1).drop_last() =~= s@.take(i as int));
        i = i + 1;
    }
    assert(s@.take(s@.len() as int) =~= s@);
    let ghost mid = samples_view(out@);
    match latest_history_slot(s.as_slice()) {
        Some(latest) => {
            push_host(out, h, MetricId::QueriesLast10min, latest.total);
            push_host(out, h, MetricId::AdsLast10min, latest.blocked);
        },
        None => {},
    }
    assert(samples_view(out@) =~= before + history_section(h@, s@));
}

fn push_scope(
    out: &mut Vec<Sample>,
    h: &str,
    component: &str,
    scope: &str,
    d: &Option<crate::info::VersionDetail>,
)
    ensures
        samples_view(final(out)@) == samples_view(old(out)@) + scope_section(h@, component@, scope@, *d),
{
    let ghost before = samples_view(out@);
    match d {
        Some(detail) => {
            let labels = version_labels(h, component, scope, detail);
            assert(texts(labels@) == version_labels_spec(h@, component@, scope@, detail@));
            push_sample(out, MetricId::VersionInfo, labels, 1);
        },
        None => {},
    }
    assert(samples_view(out@) =~= before + scope_section(h@, component@, scope@, *d));
}

fn push_component(out: &mut Vec<Sample>, h: &str, component: &str, v: &ComponentVersions)
    ensures
        samples_view(final(out)@) == samples_view(old(out)@) + component_section(h@, component@, *v),
{
    let ghost before = samples_view(out@);
    push_scope(out, h, component, "local", &v.local);
    push_scope(out, h, component, "remote", &v.remote);
    assert(samples_view(out@) =~= before + component_section(h@, component@, *v));
}

fn push_versions(out: &mut Vec<Sample>, h: &str, v: &VersionResponse)
    ensures
        samples_view(final(out)@) == samples_view(old(out)@) + version_section(h@, *v),
{
    let ghost before = samples_view(out@);
    push_component(out, h, "core", &v.version.core);
    push_component(out, h, "web", &v.version.web);
    push_component(out, h, "ftl", &v.version.ftl);
    match &v.version.docker {
        Some(d) => push_component(out, h, "docker", d),
        None => {},
    }
    assert(samples_view(out@) =~= before + version_section(h@, *v));
}

fn push_ftl(out: &mut Vec<Sample>, h: &str, f: &FtlCounts)
    ensures
        samples_view(final(out)@) == samples_view(old(out)@) + ftl_section(h@, *f),
{
    let ghost before = samples_view(out@);
    push_host(out, h, MetricId::FtlPid, f.pid);
    push_host(out, h, MetricId::FtlPrivacyLevel, f.privacy_level);
    match &f.database {
        Some(db) => {
            push_host(out, h, MetricId::FtlDatabaseGravity, db.gravity);
            push_host(out, h, MetricId::FtlDatabaseGroups, db.groups);
            push_host(out, h, MetricId::FtlDatabaseLists, db.lists);
            push_host(out, h, MetricId::FtlDatabaseClients, db.clients);
        },
        None => {},
    }
    assert(samples_view(out@) =~= before + ftl_section(h@, *f));
}

fn push_database(out: &mut Vec<Sample>, h: &str, d: &DatabaseCounts)
    ensures
        samples_view(final(out)@) == samples_view(old(out)@) + database_section(h@, *d),
{
    let ghost before = samples_view(out@);
    push_host(out, h, MetricId::DatabaseSizeBytes, d.size);
    push_host(out, h, MetricId::DatabaseQueries, d.queries);
    push_host(out, h, MetricId::DatabaseQueriesDisk, d.queries_disk);
    assert(samples_view(out@) =~= before + database_section(h@, *d));
}

/// The integer-valued gauge readings of one scrape of `hostname`, taken at
/// `now_secs` seconds since the epoch, in the order in which they are set.
pub fn scrape_samples(hostname: &str, data: &ScrapeCounts, now_secs: i64) -> (r: Vec<Sample>)
    requires
        now_secs >= 0,
    ensures
        samples_view(r@) == scrape_samples_spec(hostname@, *data, now_secs as int),
{
    let h = hostname;
    let mut out: Vec<Sample> = Vec::new();
    let ghost s0 = samples_view(out@);
    assert(s0 =~= Seq::<SampleView>::empty());
    push_summary(&mut out, h, &data.stats);
    push_gravity(&mut out, h, &data.stats.gravity, now_secs);
    push_status(&mut out, h, &data.stats.queries.status);
    push_blocking(&mut out, h, data.blocking.as_str());
    push_replies(&mut out, h, &data.stats.queries.replies);
    push_domains(&mut out, h, MetricId::TopQueries, &data.permitted_domains.domains);
    push_domains(&mut out, h, MetricId::TopAds, &data.blocked_domains.domains);
    push_sources(&mut out, h, &data.clients);
    let ghost s8 = samples_view(out@);
    push_host(&mut out, h, MetricId::UpstreamForwardedQueries, data.upstreams.forwarded_queries);
    push_host(&mut out, h, MetricId::UpstreamTotalQueries, data.upstreams.total_queries);
    assert(samples_view(out@) =~= s8 + upstream_totals_section(h@, data.upstreams));
    push_destinations(&mut out, h, &data.upstreams.upstreams);
    let ghost s10 = samples_view(out@);
    match &data.history {
        Some(hist) => push_history_section(&mut out, h, &hist.history),
        None => {},
    }
    let ghost s11 = samples_view(out@);
    match &data.version {
        Some(v) => push_versions(&mut out, h, v),
        None => {},
    }
    let ghost s12 = samples_view(out@);
    match &data.ftl {
        Some(f) => push_ftl(&mut out, h, f),
        None => {},
    }
    let ghost s13 = samples_view(out@);
    match &data.system {
        Some(s) => push_host(&mut out, h, MetricId::SystemCpuNprocs, s.nprocs),
        None => {},
    }
    let ghost s14 = samples_view(out@);
    match &data.database {
        Some(db) => push_database(&mut out, h, db),
        None => {},
    }
    assert(samples_view(out@) =~= scrape_samples_spec(hostname@, *data, now_secs as int));
    out
}


/// The reading that records whether the scrape of `hostname` succeeded: 1 on
/// success, 0 on failure.
pub fn scrape_success_sample(hostname: &str, succeeded: bool) -> (r: Sample)
    ensures
        r@ == host_sv(hostname@, MetricId::ScrapeSuccess, if succeeded { 1 } else { 0 }),
{
    let v: i64 = if succeeded {
        1
    } else {
        0
    };
    Sample { metric: MetricId::ScrapeSuccess, labels: labels1(hostname), value: v }
}

/// The one-line summary of a scrape for the log: blocked and total queries.
pub fn summary_line(q: &QueryCounts) -> (r: String)
    ensures
        r@ == signed_decimal(q.blocked as int) + " ads blocked / "@ + signed_decimal(q.total as int)
            + " total DNS queries"@,
{
    let mut s = String::new();
    push_signed_decimal(&mut s, q.blocked);
    crate::text::push_text(&mut s, " ads blocked / ");
    push_signed_decimal(&mut s, q.total);
    crate::text::push_text(&mut s, " total DNS queries");
    assert(s@ =~= signed_decimal(q.blocked as int) + " ads blocked / "@ + signed_decimal(
        q.total as int,
    ) + " total DNS queries"@);
    s
}

/// Every reading of a scrape is of a gauge with as many label values as the
/// catalogue gives it label names, and its first label value is the host.
pub open spec fn well_labelled(h: Seq<char>, s: Seq<SampleView>) -> bool {
    forall|i: int|
        0 <= i < s.len() ==> #[trigger] s[i].labels.len() == crate::catalog::metric_labels_spec(
            s[i].metric,
        ).len() && s[i].labels[0] == h
}


proof fn lemma_well_labelled_concat(h: Seq<char>, a: Seq<SampleView>, b: Seq<SampleView>)
    requires
        well_labelled(h, a),
        well_labelled(h, b),
    ensures
        well_labelled(h, a + b),
{
    assert forall|i: int| 0 <= i < (a + b).len() implies #[trigger] (a + b)[i].labels.len()
        == crate::catalog::metric_labels_spec((a + b)[i].metric).len() && (a + b)[i].labels[0]
        == h by {
        if i < a.len() {
            assert((a + b)[i] == a[i]);
            assert(a[i].labels.len() == crate::catalog::metric_labels_spec(a[i].metric).len());
        } else {
            assert((a + b)[i] == b[i - a.len()]);
            assert(b[i - a.len()].labels.len() == crate::catalog::metric_labels_spec(
                b[i - a.len()].metric,
            ).len());
        }
    }
}

proof fn lemma_slots_well_labelled(h: Seq<char>, s: Seq<HistorySlot>)
    ensures
        well_labelled(h, slots_section(h, s)),
    decreases s.len(),
{
    if s.len() > 0 {
        lemma_slots_well_labelled(h, s.drop_last());
        lemma_well_labelled_concat(h, slots_section(h, s.drop_last()), slot_section(h, s.last()));
    }
}

proof fn lemma_versions_well_labelled(h: Seq<char>, v: VersionResponse)
    ensures
        well_labelled(h, version_section(h, v)),
{
    let c = component_section(h, "core"@, v.version.core);
    let w = component_section(h, "web"@, v.version.web);
    let f = component_section(h, "ftl"@, v.version.ftl);
    let d = match v.version.docker {
        Some(x) => component_section(h, "docker"@, x),
        None => Seq::empty(),
    };
    assert(well_labelled(h, c));
    assert(well_labelled(h, w));
    assert(well_labelled(h, f));
    assert(well_labelled(h, d));
    lemma_well_labelled_concat(h, c, w);
    lemma_well_labelled_concat(h, c + w, f);
    lemma_well_labelled_concat(h, c + w + f, d);
}

/// Every reading of a scrape names its gauge with exactly as many label
/// values as the gauge has label names, the host first: setting them never
/// fails for a wrong label count, and every reading is labelled with the
/// host it came from.
pub proof fn law_scrape_samples_well_labelled(h: Seq<char>, d: ScrapeCounts, now: int)
    ensures
        well_labelled(h, scrape_samples_spec(h, d, now)),
{
    let p0 = summary_section(h, d.stats);
    let p1 = gravity_section(h, d.stats.gravity, now);
    let p2 = status_section(h, d.stats.queries.status@);
    let p3 = blocking_section(h, d.blocking@);
    let p4 = reply_section(h, d.stats.queries.replies);
    let p5 = domains_section(h, MetricId::TopQueries, d.permitted_domains.domains@);
    let p6 = domains_section(h, MetricId::TopAds, d.blocked_domains.domains@);
    let p7 = sources_section(h, d.clients@);
    let p8 = upstream_totals_section(h, d.upstreams);
    let p9 = destinations_section(h, d.upstreams.upstreams@);
    let p10 = match d.history {
        Some(hist) => history_section(h, hist.history@),
        None => Seq::empty(),
    };
    let p11 = match d.version {
        Some(v) => version_section(h, v),
        None => Seq::empty(),
    };
    let p12 = match d.ftl {
        Some(f) => ftl_section(h, f),
        None => Seq::empty(),
    };
    let p13 = match d.system {
        Some(s) => seq![host_sv(h, MetricId::SystemCpuNprocs, s.nprocs as int)],
        None => Seq::<SampleView>::empty(),
    };
    let p14 = match d.database {
        Some(db) => database_section(h, db),
        None => Seq::empty(),
    };
    match d.history {
        Some(hist) => {
            lemma_slots_well_labelled(h, hist.history@);
            let s = hist.history@;
            let tail = if s.len() > 0 {
                let latest = s[latest_index(s)];
                seq![
                    host_sv(h, MetricId::QueriesLast10min, latest.total as int),
                    host_sv(h, MetricId::AdsLast10min, latest.blocked as int),
                ]
            } else {
                Seq::empty()
            };
            assert(well_labelled(h, tail));
            lemma_well_labelled_concat(h, slots_section(h, s), tail);
        },
        None => {},
    }
    match d.version {
        Some(v) => lemma_versions_well_labelled(h, v),
        None => {},
    }
    assert(well_labelled(h, p0));
    assert(well_labelled(h, p1));
    assert(well_labelled(h, p2));
    assert(well_labelled(h, p3));
    assert(well_labelled(h, p4));
    assert(well_labelled(h, p5));
    assert(well_labelled(h, p6));
    assert(well_labelled(h, p7));
    assert(well_labelled(h, p8));
    assert(well_labelled(h, p9));
    assert(well_labelled(h, p10));
    assert(well_labelled(h, p11));
    assert(well_labelled(h, p12));
    assert(well_labelled(h, p13));
    assert(well_labelled(h, p14));
    lemma_well_labelled_concat(h, p0, p1);
    lemma_well_labelled_concat(h, p0 + p1, p2);
    lemma_well_labelled_concat(h, p0 + p1 + p2, p3);
    lemma_well_labelled_concat(h, p0 + p1 + p2 + p3, p4);
    lemma_well_labelled_concat(h, p0 + p1 + p2 + p3 + p4, p5);
    lemma_well_labelled_concat(h, p0 + p1 + p2 + p3 + p4 + p5, p6);
    lemma_well_labelled_concat(h, p0 + p1 + p2 + p3 + p4 + p5 + p6, p7);
    lemma_well_labelled_concat(h, p0 + p1 + p2 + p3 + p4 + p5 + p6 + p7, p8);
    lemma_well_labelled_concat(h, p0 + p1 + p2 + p3 + p4 + p5 + p6 + p7 + p8, p9);
    lemma_well_labelled_concat(h, p0 + p1 + p2 + p3 + p4 + p5 + p6 + p7 + p8 + p9, p10);
    lemma_well_labelled_concat(h, p0 + p1 + p2 + p3 + p4 + p5 + p6 + p7 + p8 + p9 + p10, p11);
    lemma_well_labelled_concat(
        h,
        p0 + p1 + p2 + p3 + p4 + p5 + p6 + p7 + p8 + p9 + p10 + p11,
        p12,
    );
    lemma_well_labelled_concat(
        h,
        p0 + p1 + p2 + p3 + p4 + p5 + p6 + p7 + p8 + p9 + p10 + p11 + p12,
        p13,
    );
    lemma_well_labelled_concat(
        h,
        p0 + p1 + p2 + p3 + p4 + p5 + p6 + p7 + p8 + p9 + p10 + p11 + p12 + p13,
        p14,
    );
}

/// The gravity readings of `s` are those of an update at `g.last_update`
/// seen at `now`, and there are some only when Pi-hole reports an update.
pub open spec fn gravity_readings_match(h: Seq<char>, s: Seq<SampleView>, g: GravityStats, now: int) -> bool {
    forall|i: int|
        0 <= i < s.len() ==> (#[trigger] s[i].metric == MetricId::GravityLastUpdate ==> g.last_update > 0
            && s[i] == host_sv(h, MetricId::GravityLastUpdate, g.last_update as int)) && (s[i].metric
            == MetricId::GravityAgeSeconds ==> g.last_update > 0 && s[i] == host_sv(
            h,
            MetricId::GravityAgeSeconds,
            now - g.last_update,
        ))
}

/// `s` holds no gravity reading.
pub open spec fn gravity_free(s: Seq<SampleView>) -> bool {
    forall|i: int|
        0 <= i < s.len() ==> #[trigger] s[i].metric != MetricId::GravityLastUpdate && s[i].metric
            != MetricId::GravityAgeSeconds
}

proof fn lemma_gravity_concat(h: Seq<char>, a: Seq<SampleView>, b: Seq<SampleView>, g: GravityStats, now: int)
    requires
        gravity_readings_match(h, a, g, now),
        gravity_readings_match(h, b, g, now),
    ensures
        gravity_readings_match(h, a + b, g, now),
{
    assert forall|i: int| 0 <= i < (a + b).len() implies (#[trigger] (a + b)[i].metric
        == MetricId::GravityLastUpdate ==> g.last_update > 0 && (a + b)[i] == host_sv(
        h,
        MetricId::GravityLastUpdate,
        g.last_update as int,
    )) && ((a + b)[i].metric == MetricId::GravityAgeSeconds ==> g.last_update > 0 && (a + b)[i]
        == host_sv(h, MetricId::GravityAgeSeconds, now - g.last_update)) by {
        if i < a.len() {
            assert((a + b)[i] == a[i]);
            assert(a[i].metric == a[i].metric);
        } else {
            assert((a + b)[i] == b[i - a.len()]);
            assert(b[i - a.len()].metric == b[i - a.len()].metric);
        }
    }
}

proof fn lemma_free_concat(a: Seq<SampleView>, b: Seq<SampleView>)
    requires
        gravity_free(a),
        gravity_free(b),
    ensures
        gravity_free(a + b),
{
    assert forall|i: int| 0 <= i < (a + b).len() implies #[trigger] (a + b)[i].metric
        != MetricId::GravityLastUpdate && (a + b)[i].metric != MetricId::GravityAgeSeconds by {
        if i < a.len() {
            assert((a + b)[i] == a[i]);
        } else {
            assert((a + b)[i] == b[i - a.len()]);
        }
    }
}

proof fn lemma_slots_gravity_free(h: Seq<char>, s: Seq<HistorySlot>)
    ensures
        gravity_free(slots_section(h, s)),
    decreases s.len(),
{
    if s.len() > 0 {
        lemma_slots_gravity_free(h, s.drop_last());
        lemma_free_concat(slots_section(h, s.drop_last()), slot_section(h, s.last()));
    }
}

proof fn lemma_versions_gravity_free(h: Seq<char>, v: VersionResponse)
    ensures
        gravity_free(version_section(h, v)),
{
    let c = component_section(h, "core"@, v.version.core);
    let w = component_section(h, "web"@, v.version.web);
    let f = component_section(h, "ftl"@, v.version.ftl);
    let d = match v.version.docker {
        Some(x) => component_section(h, "docker"@, x),
        None => Seq::empty(),
    };
    assert(gravity_free(c));
    assert(gravity_free(w));
    assert(gravity_free(f));
    assert(gravity_free(d));
    lemma_free_concat(c, w);
    lemma_free_concat(c + w, f);
    lemma_free_concat(c + w + f, d);
}

/// The gravity readings of a scrape: when Pi-hole reports an update
/// (`last_update > 0`) the time of that update and its age at `now` are set,
/// and otherwise neither gauge is set at all (never to 0 or to `now`).
#[verifier::rlimit(50)]
pub proof fn law_gravity_readings_only_after_an_update(h: Seq<char>, d: ScrapeCounts, now: int)
    ensures
        gravity_readings_match(h, scrape_samples_spec(h, d, now), d.stats.gravity, now),
        d.stats.gravity.last_update <= 0 ==> gravity_free(scrape_samples_spec(h, d, now)),
        d.stats.gravity.last_update > 0 ==> scrape_samples_spec(h, d, now).contains(
            host_sv(h, MetricId::GravityLastUpdate, d.stats.gravity.last_update as int),
        ) && scrape_samples_spec(h, d, now).contains(
            host_sv(h, MetricId::GravityAgeSeconds, now - d.stats.gravity.last_update),
        ),
{
    let g = d.stats.gravity;
    let p0 = summary_section(h, d.stats);
    let p1 = gravity_section(h, g, now);
    let p2 = status_section(h, d.stats.queries.status@);
    let p3 = blocking_section(h, d.blocking@);
    let p4 = reply_section(h, d.stats.queries.replies);
    let p5 = domains_section(h, MetricId::TopQueries, d.permitted_domains.domains@);
    let p6 = domains_section(h, MetricId::TopAds, d.blocked_domains.domains@);
    let p7 = sources_section(h, d.clients@);
    let p8 = upstream_totals_section(h, d.upstreams);
    let p9 = destinations_section(h, d.upstreams.upstreams@);
    let p10 = match d.history {
        Some(hist) => history_section(h, hist.history@),
        None => Seq::empty(),
    };
    let p11 = match d.version {
        Some(v) => version_section(h, v),
        None => Seq::empty(),
    };
    let p12 = match d.ftl {
        Some(f) => ftl_section(h, f),
        None => Seq::empty(),
    };
    let p13 = match d.system {
        Some(s) => seq![host_sv(h, MetricId::SystemCpuNprocs, s.nprocs as int)],
        None => Seq::<SampleView>::empty(),
    };
    let p14 = match d.database {
        Some(db) => database_section(h, db),
        None => Seq::empty(),
    };
    match d.history {
        Some(hist) => {
            let s = hist.history@;
            lemma_slots_gravity_free(h, s);
            let tail = if s.len() > 0 {
                let latest = s[latest_index(s)];
                seq![
                    host_sv(h, MetricId::QueriesLast10min, latest.total as int),
                    host_sv(h, MetricId::AdsLast10min, latest.blocked as int),
                ]
            } else {
                Seq::empty()
            };
            assert(gravity_free(tail));
            lemma_free_concat(slots_section(h, s), tail);
        },
        None => {},
    }
    match d.version {
        Some(v) => lemma_versions_gravity_free(h, v),
        None => {},
    }
    assert(gravity_free(p0));
    assert(gravity_free(p2));
    assert(gravity_free(p3));
    assert(gravity_free(p4));
    assert(gravity_free(p5));
    assert(gravity_free(p6));
    assert(gravity_free(p7));
    assert(gravity_free(p8));
    assert(gravity_free(p9));
    assert(gravity_free(p10));
    assert(gravity_free(p11));
    assert(gravity_free(p12));
    assert(gravity_free(p13));
    assert(gravity_free(p14));
    let q1 = p0 + p1;
    let q2 = q1 + p2;
    let q3 = q2 + p3;
    let q4 = q3 + p4;
    let q5 = q4 + p5;
    let q6 = q5 + p6;
    let q7 = q6 + p7;
    let q8 = q7 + p8;
    let q9 = q8 + p9;
    let q10 = q9 + p10;
    let q11 = q10 + p11;
    let q12 = q11 + p12;
    let q13 = q12 + p13;
    let q14 = q13 + p14;
    assert(scrape_samples_spec(h, d, now) == q14);
    assert(gravity_readings_match(h, p0, g, now));
    assert(gravity_readings_match(h, p1, g, now));
    lemma_gravity_concat(h, p0, p1, g, now);
    lemma_gravity_free_chain(h, q1, p2, g, now);
    lemma_gravity_free_chain(h, q2, p3, g, now);
    lemma_gravity_free_chain(h, q3, p4, g, now);
    lemma_gravity_free_chain(h, q4, p5, g, now);
    lemma_gravity_free_chain(h, q5, p6, g, now);
    lemma_gravity_free_chain(h, q6, p7, g, now);
    lemma_gravity_free_chain(h, q7, p8, g, now);
    lemma_gravity_free_chain(h, q8, p9, g, now);
    lemma_gravity_free_chain(h, q9, p10, g, now);
    lemma_gravity_free_chain(h, q10, p11, g, now);
    lemma_gravity_free_chain(h, q11, p12, g, now);
    lemma_gravity_free_chain(h, q12, p13, g, now);
    lemma_gravity_free_chain(h, q13, p14, g, now);
    if g.last_update <= 0 {
        assert(gravity_free(p1));
        lemma_free_concat(p0, p1);
    } else {
        let k = p0.len() as int;
        assert(q1[k] == p1[0] && q1[k + 1] == p1[1]);
    }
}

/// Appending readings without gravity keeps what `a` says of gravity: its
/// readings match, it has none when it had none, and a reading at a position
/// of `a` stays there.
proof fn lemma_gravity_free_chain(h: Seq<char>, a: Seq<SampleView>, b: Seq<SampleView>, g: GravityStats, now: int)
    requires
        gravity_readings_match(h, a, g, now),
        gravity_free(b),
    ensures
        gravity_readings_match(h, a + b, g, now),
        gravity_free(a) ==> gravity_free(a + b),
        forall|k: int| 0 <= k < a.len() ==> (a + b)[k] == #[trigger] a[k],
{
    assert(gravity_readings_match(h, b, g, now));
    lemma_gravity_concat(h, a, b, g, now);
    if gravity_free(a) {
        lemma_free_concat(a, b);
    }
}

/// The period label of a system load average: `1`, `5` and `15` minutes for
/// the first three readings, with `_percent` for their share of the CPUs.
pub open spec fn load_label_spec(index: int, percent: bool) -> Option<Seq<char>> {
    let period = if index == 0 {
        "1"@
    } else if index == 1 {
        "5"@
    } else {
        "15"@
    };
    if 0 <= index < 3 {
        Some(if percent { period + "_percent"@ } else { period })
    } else {
        None
    }
}

/// The period label of the load reading at `index`; only the first three
/// readings have one.
pub fn load_period_label(index: usize, percent: bool) -> (r: Option<String>)
    ensures
        match r {
            Some(l) => load_label_spec(index as int, percent) == Some(l@),
            None => load_label_spec(index as int, percent) is None,
        },
{
    let period = if index == 0 {
        "1"
    } else if index == 1 {
        "5"
    } else if index == 2 {
        "15"
    } else {
        return None;
    };
    let mut l = to_owned_string(period);
    if percent {
        push_text(&mut l, "_percent");
    }
    Some(l)
}

/// The unit label of a temperature reading: the unit Pi-hole reports, `C`
/// when it reports none.
pub fn sensor_unit_label(unit: &Option<String>) -> (r: String)
    ensures
        r@ == match unit {
            Some(u) => u@,
            None => "C"@,
        },
{
    match unit {
        Some(u) => u.clone(),
        None => to_owned_string("C"),
    }
}

/// The sections of a scrape's readings, in the order in which they are set.
pub open spec fn scrape_sections(h: Seq<char>, d: ScrapeCounts, now: int) -> Seq<Seq<SampleView>> {
    seq![
        summary_section(h, d.stats),
        gravity_section(h, d.stats.gravity, now),
        status_section(h, d.stats.queries.status@),
        blocking_section(h, d.blocking@),
        reply_section(h, d.stats.queries.replies),
        domains_section(h, MetricId::TopQueries, d.permitted_domains.domains@),
        domains_section(h, MetricId::TopAds, d.blocked_domains.domains@),
        sources_section(h, d.clients@),
        upstream_totals_section(h, d.upstreams),
        destinations_section(h, d.upstreams.upstreams@),
        match d.history {
            Some(hist) => history_section(h, hist.history@),
            None => Seq::empty(),
        },
        match d.version {
            Some(v) => version_section(h, v),
            None => Seq::empty(),
        },
        match d.ftl {
            Some(f) => ftl_section(h, f),
            None => Seq::empty(),
        },
        match d.system {
            Some(s) => seq![host_sv(h, MetricId::SystemCpuNprocs, s.nprocs as int)],
            None => Seq::<SampleView>::empty(),
        },
        match d.database {
            Some(db) => database_section(h, db),
            None => Seq::empty(),
        },
    ]
}

/// The first `n` sections, one after the other.
pub open spec fn concat_upto(ps: Seq<Seq<SampleView>>, n: int) -> Seq<SampleView>
    decreases n,
{
    if n <= 0 {
        Seq::empty()
    } else if n == 1 {
        ps[0]
    } else {
        concat_upto(ps, n - 1) + ps[n - 1]
    }
}

/// `s` holds no reading of gauge `m`.
pub open spec fn free_of(s: Seq<SampleView>, m: MetricId) -> bool {
    forall|i: int| 0 <= i < s.len() ==> (#[trigger] s[i]).metric != m
}

proof fn lemma_sections_concat(h: Seq<char>, d: ScrapeCounts, now: int)
    ensures
        scrape_samples_spec(h, d, now) == concat_upto(scrape_sections(h, d, now), 15),
{
    let ps = scrape_sections(h, d, now);
    reveal_with_fuel(concat_upto, 16);
    assert(ps.len() == 15);
}

/// When every section but section `k` is free of gauge `m`, the readings of
/// `m` among the first `n` sections are exactly those of section `k`.
proof fn lemma_isolated(ps: Seq<Seq<SampleView>>, n: int, m: MetricId, k: int)
    requires
        0 <= k < n <= ps.len(),
        forall|j: int| 0 <= j < n && j != k ==> free_of(#[trigger] ps[j], m),
    ensures
        forall|i: int|
            0 <= i < concat_upto(ps, n).len() && (#[trigger] concat_upto(ps, n)[i]).metric == m
                ==> ps[k].contains(concat_upto(ps, n)[i]),
        forall|x: SampleView| ps[k].contains(x) ==> #[trigger] concat_upto(ps, n).contains(x),
    decreases n,
{
    let c = concat_upto(ps, n);
    if n == 1 {
        assert forall|i: int| 0 <= i < c.len() && (#[trigger] c[i]).metric == m implies ps[k].contains(c[i]) by {
            assert(ps[k][i] == c[i]);
        }
    } else if k == n - 1 {
        let a = concat_upto(ps, n - 1);
        assert(c == a + ps[k]);
        assert forall|i: int| 0 <= i < c.len() && (#[trigger] c[i]).metric == m implies ps[k].contains(c[i]) by {
            if i < a.len() {
                assert(c[i] == a[i]);
                lemma_free_prefix(ps, n - 1, m);
                assert(a[i].metric != m);
            } else {
                assert(c[i] == ps[k][i - a.len()]);
            }
        }
        assert forall|x: SampleView| ps[k].contains(x) implies #[trigger] c.contains(x) by {
            let w = choose|w: int| 0 <= w < ps[k].len() && ps[k][w] == x;
            assert(c[a.len() + w] == x);
        }
    } else {
        lemma_isolated(ps, n - 1, m, k);
        let a = concat_upto(ps, n - 1);
        assert(c == a + ps[n - 1]);
        assert(free_of(ps[n - 1], m));
        assert forall|i: int| 0 <= i < c.len() && (#[trigger] c[i]).metric == m implies ps[k].contains(c[i]) by {
            if i < a.len() {
                assert(c[i] == a[i]);
            } else {
                assert(c[i] == ps[n - 1][i - a.len()]);
            }
        }
        assert forall|x: SampleView| ps[k].contains(x) implies #[trigger] c.contains(x) by {
            assert(a.contains(x));
            let w = choose|w: int| 0 <= w < a.len() && a[w] == x;
            assert(c[w] == x);
        }
    }
}

/// The first `n` sections are free of `m` when each of them is.
proof fn lemma_free_prefix(ps: Seq<Seq<SampleView>>, n: int, m: MetricId)
    requires
        0 <= n <= ps.len(),
        forall|j: int| 0 <= j < n ==> free_of(#[trigger] ps[j], m),
    ensures
        free_of(concat_upto(ps, n), m),
    decreases n,
{
    if n > 1 {
        lemma_free_prefix(ps, n - 1, m);
        let a = concat_upto(ps, n - 1);
        let c = concat_upto(ps, n);
        assert(free_of(ps[n - 1], m));
        assert forall|i: int| 0 <= i < c.len() implies (#[trigger] c[i]).metric != m by {
            if i < a.len() {
                assert(c[i] == a[i]);
            } else {
                assert(c[i] == ps[n - 1][i - a.len()]);
            }
        }
    } else if n == 1 {
        assert(free_of(ps[0], m));
    }
}

proof fn lemma_slots_history_only(h: Seq<char>, s: Seq<HistorySlot>)
    ensures
        forall|i: int| 0 <= i < slots_section(h, s).len() ==> (#[trigger] slots_section(h, s)[i]).metric
            == MetricId::History,
    decreases s.len(),
{
    if s.len() > 0 {
        lemma_slots_history_only(h, s.drop_last());
        let a = slots_section(h, s.drop_last());
        let b = slot_section(h, s.last());
        assert forall|i: int| 0 <= i < (a + b).len() implies (#[trigger] (a + b)[i]).metric == MetricId::History by {
            if i < a.len() {
                assert((a + b)[i] == a[i]);
            } else {
                assert((a + b)[i] == b[i - a.len()]);
            }
        }
    }
}

proof fn lemma_versions_info_only(h: Seq<char>, v: VersionResponse)
    ensures
        forall|i: int| 0 <= i < version_section(h, v).len() ==> (#[trigger] version_section(h, v)[i]).metric
            == MetricId::VersionInfo,
{
    let c = component_section(h, "core"@, v.version.core);
    let w = component_section(h, "web"@, v.version.web);
    let f = component_section(h, "ftl"@, v.version.ftl);
    let d = match v.version.docker {
        Some(x) => component_section(h, "docker"@, x),
        None => Seq::empty(),
    };
    let all = c + w + f + d;
    assert forall|i: int| 0 <= i < all.len() implies (#[trigger] all[i]).metric == MetricId::VersionInfo by {
        if i < c.len() {
            assert(all[i] == c[i]);
        } else if i < c.len() + w.len() {
            assert(all[i] == w[i - c.len()]);
        } else if i < c.len() + w.len() + f.len() {
            assert(all[i] == f[i - c.len() - w.len()]);
        } else {
            assert(all[i] == d[i - c.len() - w.len() - f.len()]);
        }
    }
}

/// The blocking reading of a scrape: gauge `status` is set once, to 1 when
/// blocking is `enabled` and to 0 for any other mode.
pub proof fn law_blocking_reading(h: Seq<char>, d: ScrapeCounts, now: int)
    ensures
        forall|i: int|
            0 <= i < scrape_samples_spec(h, d, now).len() && (#[trigger] scrape_samples_spec(h, d, now)[i]).metric
                == MetricId::Status ==> scrape_samples_spec(h, d, now)[i] == host_sv(
                h,
                MetricId::Status,
                if d.blocking@ == "enabled"@ { 1 } else { 0 },
            ),
        scrape_samples_spec(h, d, now).contains(
            host_sv(h, MetricId::Status, if d.blocking@ == "enabled"@ { 1 } else { 0 }),
        ),
{
    let ps = scrape_sections(h, d, now);
    lemma_readings_from(h, d, now, MetricId::Status, 3);
    let reading = host_sv(h, MetricId::Status, if d.blocking@ == "enabled"@ { 1 } else { 0 });
    assert(ps[3] == seq![reading]);
    assert(ps[3][0] == reading);
    assert(ps[3].contains(reading));
}

/// The query status readings of a scrape are exactly one per status that
/// Pi-hole reports, labelled with the status in ASCII lower case.
pub proof fn law_query_status_readings(h: Seq<char>, d: ScrapeCounts, now: int)
    ensures
        forall|i: int|
            0 <= i < scrape_samples_spec(h, d, now).len() && (#[trigger] scrape_samples_spec(h, d, now)[i]).metric
                == MetricId::QueryStatus ==> status_section(h, d.stats.queries.status@).contains(
                scrape_samples_spec(h, d, now)[i],
            ),
        forall|x: SampleView|
            status_section(h, d.stats.queries.status@).contains(x) ==> #[trigger] scrape_samples_spec(
                h,
                d,
                now,
            ).contains(x),
{
    let ps = scrape_sections(h, d, now);
    lemma_readings_from(h, d, now, MetricId::QueryStatus, 2);
}

/// The reply readings of a scrape are exactly the fourteen of the reply
/// section, one per reply type.
pub proof fn law_reply_readings(h: Seq<char>, d: ScrapeCounts, now: int)
    ensures
        forall|i: int|
            0 <= i < scrape_samples_spec(h, d, now).len() && (#[trigger] scrape_samples_spec(h, d, now)[i]).metric
                == MetricId::Reply ==> reply_section(h, d.stats.queries.replies).contains(
                scrape_samples_spec(h, d, now)[i],
            ),
        forall|x: SampleView|
            reply_section(h, d.stats.queries.replies).contains(x) ==> #[trigger] scrape_samples_spec(
                h,
                d,
                now,
            ).contains(x),
{
    let ps = scrape_sections(h, d, now);
    lemma_readings_from(h, d, now, MetricId::Reply, 4);
}

/// The gauges that section `j` of a scrape (in the order of
/// `scrape_sections`) may set.
pub open spec fn section_may_set(j: int, m: MetricId) -> bool {
    if j == 0 {
        ||| m == MetricId::DomainsBlocked
        ||| m == MetricId::DnsQueriesToday
        ||| m == MetricId::AdsBlockedToday
        ||| m == MetricId::UniqueDomains
        ||| m == MetricId::QueriesForwarded
        ||| m == MetricId::QueriesCached
        ||| m == MetricId::ClientsEverSeen
        ||| m == MetricId::UniqueClients
        ||| m == MetricId::DnsQueriesAllTypes
    } else if j == 1 {
        m == MetricId::GravityLastUpdate || m == MetricId::GravityAgeSeconds
    } else if j == 2 {
        m == MetricId::QueryStatus
    } else if j == 3 {
        m == MetricId::Status
    } else if j == 4 {
        m == MetricId::Reply
    } else if j == 5 {
        m == MetricId::TopQueries
    } else if j == 6 {
        m == MetricId::TopAds
    } else if j == 7 {
        m == MetricId::TopSources
    } else if j == 8 {
        m == MetricId::UpstreamForwardedQueries || m == MetricId::UpstreamTotalQueries
    } else if j == 9 {
        m == MetricId::ForwardDestinations
    } else if j == 10 {
        m == MetricId::History || m == MetricId::QueriesLast10min || m == MetricId::AdsLast10min
    } else if j == 11 {
        m == MetricId::VersionInfo
    } else if j == 12 {
        ||| m == MetricId::FtlPid
        ||| m == MetricId::FtlPrivacyLevel
        ||| m == MetricId::FtlDatabaseGravity
        ||| m == MetricId::FtlDatabaseGroups
        ||| m == MetricId::FtlDatabaseLists
        ||| m == MetricId::FtlDatabaseClients
    } else if j == 13 {
        m == MetricId::SystemCpuNprocs
    } else {
        m == MetricId::DatabaseSizeBytes || m == MetricId::DatabaseQueries || m
            == MetricId::DatabaseQueriesDisk
    }
}

/// Each section of a scrape sets only the gauges it may set.
proof fn lemma_sections_may_set(h: Seq<char>, d: ScrapeCounts, now: int, m: MetricId)
    ensures
        forall|j: int| 0 <= j < 15 && !section_may_set(j, m) ==> free_of(#[trigger] scrape_sections(h, d, now)[j], m),
{
    let ps = scrape_sections(h, d, now);
    match d.history {
        Some(hist) => {
            lemma_slots_history_only(h, hist.history@);
            let s = hist.history@;
            let a = slots_section(h, s);
            let b = if s.len() > 0 {
                let latest = s[latest_index(s)];
                seq![
                    host_sv(h, MetricId::QueriesLast10min, latest.total as int),
                    host_sv(h, MetricId::AdsLast10min, latest.blocked as int),
                ]
            } else {
                Seq::empty()
            };
            assert forall|i: int| 0 <= i < (a + b).len() implies section_may_set(10, (#[trigger] (a + b)[i]).metric) by {
                if i < a.len() {
                    assert((a + b)[i] == a[i]);
                } else {
                    assert((a + b)[i] == b[i - a.len()]);
                }
            }
        },
        None => {},
    }
    match d.version {
        Some(v) => lemma_versions_info_only(h, v),
        None => {},
    }
    match d.ftl {
        Some(f) => {
            let a = seq![
                host_sv(h, MetricId::FtlPid, f.pid as int),
                host_sv(h, MetricId::FtlPrivacyLevel, f.privacy_level as int),
            ];
            let b = ftl_section(h, f).subrange(2, ftl_section(h, f).len() as int);
            assert forall|i: int| 0 <= i < ftl_section(h, f).len() implies section_may_set(12, (#[trigger] ftl_section(h, f)[i]).metric) by {
                if i >= 2 {
                    match f.database {
                        Some(db) => {},
                        None => {},
                    }
                }
            }
        },
        None => {},
    }
    assert forall|j: int| 0 <= j < 15 && !section_may_set(j, m) implies free_of(#[trigger] ps[j], m) by {
        assert forall|i: int| 0 <= i < ps[j].len() implies (#[trigger] ps[j][i]).metric != m by {
            if j == 10 || j == 11 || j == 12 {
            } else {
                assert(section_may_set(j, ps[j][i].metric));
            }
        }
    }
}

/// The readings of gauge `m`, set by section `k` alone, are exactly that
/// section's readings of `m`.
proof fn lemma_readings_from(h: Seq<char>, d: ScrapeCounts, now: int, m: MetricId, k: int)
    requires
        0 <= k < 15,
        forall|j: int| 0 <= j < 15 && j != k ==> !section_may_set(j, m),
    ensures
        forall|i: int|
            0 <= i < scrape_samples_spec(h, d, now).len() && (#[trigger] scrape_samples_spec(h, d, now)[i]).metric
                == m ==> scrape_sections(h, d, now)[k].contains(scrape_samples_spec(h, d, now)[i]),
        forall|x: SampleView|
            scrape_sections(h, d, now)[k].contains(x) ==> #[trigger] scrape_samples_spec(h, d, now).contains(x),
{
    let ps = scrape_sections(h, d, now);
    lemma_sections_concat(h, d, now);
    lemma_sections_may_set(h, d, now, m);
    assert forall|j: int| 0 <= j < 15 && j != k implies free_of(#[trigger] ps[j], m) by {
        assert(!section_may_set(j, m));
    }
    lemma_isolated(ps, 15, m, k);
}

/// A summary reading of gauge `m`, which the summary sets to `v`: every
/// reading of `m` in the scrape is that one, and the scrape has it.
pub open spec fn reads_exactly(s: Seq<SampleView>, h: Seq<char>, m: MetricId, v: int) -> bool {
    &&& forall|i: int| 0 <= i < s.len() && (#[trigger] s[i]).metric == m ==> s[i] == host_sv(h, m, v)
    &&& s.contains(host_sv(h, m, v))
}

proof fn lemma_summary_reading(h: Seq<char>, d: ScrapeCounts, now: int, m: MetricId, v: int, p: int)
    requires
        0 <= p < 9,
        summary_section(h, d.stats)[p] == host_sv(h, m, v),
        forall|q: int| 0 <= q < 9 && q != p ==> (#[trigger] summary_section(h, d.stats)[q]).metric != m,
        forall|j: int| 0 <= j < 15 && j != 0 ==> !section_may_set(j, m),
    ensures
        reads_exactly(scrape_samples_spec(h, d, now), h, m, v),
{
    lemma_readings_from(h, d, now, m, 0);
    let all = scrape_samples_spec(h, d, now);
    let sum = summary_section(h, d.stats);
    assert(scrape_sections(h, d, now)[0] == sum);
    assert(sum.contains(host_sv(h, m, v)));
    assert forall|i: int| 0 <= i < all.len() && (#[trigger] all[i]).metric == m implies all[i] == host_sv(h, m, v) by {
        assert(sum.contains(all[i]));
        let q = choose|q: int| 0 <= q < sum.len() && sum[q] == all[i];
        assert(sum.len() == 9);
        assert(q == p);
    }
}

/// The counters of the statistics summary: each gauge reads the field of
/// the summary it stands for, once per scrape.
pub proof fn law_summary_readings(h: Seq<char>, d: ScrapeCounts, now: int)
    ensures
        reads_exactly(scrape_samples_spec(h, d, now), h, MetricId::DomainsBlocked, d.stats.gravity.domains_being_blocked as int),
        reads_exactly(scrape_samples_spec(h, d, now), h, MetricId::DnsQueriesToday, d.stats.queries.total as int),
        reads_exactly(scrape_samples_spec(h, d, now), h, MetricId::AdsBlockedToday, d.stats.queries.blocked as int),
        reads_exactly(scrape_samples_spec(h, d, now), h, MetricId::UniqueDomains, d.stats.queries.unique_domains as int),
        reads_exactly(scrape_samples_spec(h, d, now), h, MetricId::QueriesForwarded, d.stats.queries.forwarded as int),
        reads_exactly(scrape_samples_spec(h, d, now), h, MetricId::QueriesCached, d.stats.queries.cached as int),
        reads_exactly(scrape_samples_spec(h, d, now), h, MetricId::ClientsEverSeen, d.stats.clients.total as int),
        reads_exactly(scrape_samples_spec(h, d, now), h, MetricId::UniqueClients, d.stats.clients.active as int),
        reads_exactly(scrape_samples_spec(h, d, now), h, MetricId::DnsQueriesAllTypes, d.stats.queries.total as int),
{
    lemma_summary_reading(h, d, now, MetricId::DomainsBlocked, d.stats.gravity.domains_being_blocked as int, 0);
    lemma_summary_reading(h, d, now, MetricId::DnsQueriesToday, d.stats.queries.total as int, 1);
    lemma_summary_reading(h, d, now, MetricId::AdsBlockedToday, d.stats.queries.blocked as int, 2);
    lemma_summary_reading(h, d, now, MetricId::UniqueDomains, d.stats.queries.unique_domains as int, 3);
    lemma_summary_reading(h, d, now, MetricId::QueriesForwarded, d.stats.queries.forwarded as int, 4);
    lemma_summary_reading(h, d, now, MetricId::QueriesCached, d.stats.queries.cached as int, 5);
    lemma_summary_reading(h, d, now, MetricId::ClientsEverSeen, d.stats.clients.total as int, 6);
    lemma_summary_reading(h, d, now, MetricId::UniqueClients, d.stats.clients.active as int, 7);
    lemma_summary_reading(h, d, now, MetricId::DnsQueriesAllTypes, d.stats.queries.total as int, 8);
}

/// The top lists of a scrape: every `top_ads` reading is a blocked domain
/// with its count, every `top_queries` reading a permitted one, and every
/// `top_sources` reading a client with its address and name; each entry of
/// the lists is read.
pub proof fn law_top_list_readings(h: Seq<char>, d: ScrapeCounts, now: int)
    ensures
        forall|i: int|
            0 <= i < scrape_samples_spec(h, d, now).len() && (#[trigger] scrape_samples_spec(h, d, now)[i]).metric
                == MetricId::TopAds ==> exists|k: int|
                0 <= k < d.blocked_domains.domains@.len() && scrape_samples_spec(h, d, now)[i] == sv(
                    MetricId::TopAds,
                    seq![h, d.blocked_domains.domains@[k].domain@],
                    d.blocked_domains.domains@[k].count as int,
                ),
        forall|k: int|
            0 <= k < d.blocked_domains.domains@.len() ==> scrape_samples_spec(h, d, now).contains(
                sv(
                    MetricId::TopAds,
                    seq![h, (#[trigger] d.blocked_domains.domains@[k]).domain@],
                    d.blocked_domains.domains@[k].count as int,
                ),
            ),
        forall|i: int|
            0 <= i < scrape_samples_spec(h, d, now).len() && (#[trigger] scrape_samples_spec(h, d, now)[i]).metric
                == MetricId::TopQueries ==> exists|k: int|
                0 <= k < d.permitted_domains.domains@.len() && scrape_samples_spec(h, d, now)[i] == sv(
                    MetricId::TopQueries,
                    seq![h, d.permitted_domains.domains@[k].domain@],
                    d.permitted_domains.domains@[k].count as int,
                ),
        forall|k: int|
            0 <= k < d.permitted_domains.domains@.len() ==> scrape_samples_spec(h, d, now).contains(
                sv(
                    MetricId::TopQueries,
                    seq![h, (#[trigger] d.permitted_domains.domains@[k]).domain@],
                    d.permitted_domains.domains@[k].count as int,
                ),
            ),
        forall|i: int|
            0 <= i < scrape_samples_spec(h, d, now).len() && (#[trigger] scrape_samples_spec(h, d, now)[i]).metric
                == MetricId::TopSources ==> exists|k: int|
                0 <= k < d.clients@.len() && scrape_samples_spec(h, d, now)[i] == sv(
                    MetricId::TopSources,
                    seq![h, d.clients@[k].ip@, d.clients@[k].name@],
                    d.clients@[k].count as int,
                ),
{
    let all = scrape_samples_spec(h, d, now);
    let ps = scrape_sections(h, d, now);
    lemma_readings_from(h, d, now, MetricId::TopAds, 6);
    lemma_readings_from(h, d, now, MetricId::TopQueries, 5);
    lemma_readings_from(h, d, now, MetricId::TopSources, 7);
    assert forall|i: int| 0 <= i < all.len() && (#[trigger] all[i]).metric == MetricId::TopAds implies exists|k: int|
        0 <= k < d.blocked_domains.domains@.len() && all[i] == sv(
            MetricId::TopAds,
            seq![h, d.blocked_domains.domains@[k].domain@],
            d.blocked_domains.domains@[k].count as int,
        ) by {
        let k = choose|k: int| 0 <= k < ps[6].len() && ps[6][k] == all[i];
        assert(all[i] == sv(
            MetricId::TopAds,
            seq![h, d.blocked_domains.domains@[k].domain@],
            d.blocked_domains.domains@[k].count as int,
        ));
    }
    assert forall|k: int| 0 <= k < d.blocked_domains.domains@.len() implies all.contains(
        sv(
            MetricId::TopAds,
            seq![h, (#[trigger] d.blocked_domains.domains@[k]).domain@],
            d.blocked_domains.domains@[k].count as int,
        ),
    ) by {
        assert(ps[6].contains(ps[6][k]));
    }
    assert forall|i: int| 0 <= i < all.len() && (#[trigger] all[i]).metric == MetricId::TopQueries implies exists|k: int|
        0 <= k < d.permitted_domains.domains@.len() && all[i] == sv(
            MetricId::TopQueries,
            seq![h, d.permitted_domains.domains@[k].domain@],
            d.permitted_domains.domains@[k].count as int,
        ) by {
        let k = choose|k: int| 0 <= k < ps[5].len() && ps[5][k] == all[i];
        assert(all[i] == sv(
            MetricId::TopQueries,
            seq![h, d.permitted_domains.domains@[k].domain@],
            d.permitted_domains.domains@[k].count as int,
        ));
    }
    assert forall|k: int| 0 <= k < d.permitted_domains.domains@.len() implies all.contains(
        sv(
            MetricId::TopQueries,
            seq![h, (#[trigger] d.permitted_domains.domains@[k]).domain@],
            d.permitted_domains.domains@[k].count as int,
        ),
    ) by {
        assert(ps[5].contains(ps[5][k]));
    }
    assert forall|i: int| 0 <= i < all.len() && (#[trigger] all[i]).metric == MetricId::TopSources implies exists|k: int|
        0 <= k < d.clients@.len() && all[i] == sv(
            MetricId::TopSources,
            seq![h, d.clients@[k].ip@, d.clients@[k].name@],
            d.clients@[k].count as int,
        ) by {
        let k = choose|k: int| 0 <= k < ps[7].len() && ps[7][k] == all[i];
        assert(all[i] == sv(MetricId::TopSources, seq![h, d.clients@[k].ip@, d.clients@[k].name@], d.clients@[k].count as int));
    }
}

/// The forward destination readings of a scrape: each is labelled, under
/// the label names `hostname`, `destination`, `destination_name`, `port`,
/// with the host, an upstream's address, its name and its port, and reads
/// that upstream's count.
pub proof fn law_destination_readings(h: Seq<char>, d: ScrapeCounts, now: int)
    ensures
        crate::catalog::metric_labels_spec(MetricId::ForwardDestinations) == seq![
            "hostname"@,
            "destination"@,
            "destination_name"@,
            "port"@,
        ],
        forall|i: int|
            0 <= i < scrape_samples_spec(h, d, now).len() && (#[trigger] scrape_samples_spec(h, d, now)[i]).metric
                == MetricId::ForwardDestinations ==> exists|k: int|
                0 <= k < d.upstreams.upstreams@.len() && scrape_samples_spec(h, d, now)[i].labels == seq![
                    h,
                    d.upstreams.upstreams@[k].ip@,
                    d.upstreams.upstreams@[k].name@,
                    crate::model::port_label_spec(d.upstreams.upstreams@[k].port),
                ] && scrape_samples_spec(h, d, now)[i].value == d.upstreams.upstreams@[k].count as int,
{
    let all = scrape_samples_spec(h, d, now);
    let ps = scrape_sections(h, d, now);
    lemma_readings_from(h, d, now, MetricId::ForwardDestinations, 9);
    assert forall|i: int| 0 <= i < all.len() && (#[trigger] all[i]).metric == MetricId::ForwardDestinations implies exists|k: int|
        0 <= k < d.upstreams.upstreams@.len() && all[i].labels == seq![
            h,
            d.upstreams.upstreams@[k].ip@,
            d.upstreams.upstreams@[k].name@,
            crate::model::port_label_spec(d.upstreams.upstreams@[k].port),
        ] && all[i].value == d.upstreams.upstreams@[k].count as int by {
        let k = choose|k: int| 0 <= k < ps[9].len() && ps[9][k] == all[i];
        assert(all[i] == ps[9][k]);
    }
}

} // verus!
