//! The exporter's registry of gauge vectors, and its rendering in the
//! Prometheus text format.
use vstd::prelude::*;
use vstd::utf8::{decode_utf8, valid_utf8};

use prometheus::Encoder;

use crate::catalog::{
    label_names_spec, lemma_name_nonempty, metric_at, metric_help_spec, metric_id_at,
    metric_labels_spec, metric_name_spec, namespace, MetricId, NUM_METRICS,
};

verus! {

#[verifier::external_type_specification]
#[verifier::external_body]
pub struct ExRegistry(prometheus::Registry);

#[verifier::external_type_specification]
#[verifier::external_body]
pub struct ExPrometheusError(prometheus::Error);

/// Why the metrics could not be rendered.
#[derive(Debug)]
pub enum RenderError {
    /// The text encoder refused the gathered metrics.
    Encode(prometheus::Error),
    /// The encoder produced bytes that are not UTF-8.
    NotUtf8,
}

/// A gauge vector registered in a [`GaugeRegistry`]. Its readings are
/// floating point, which this library does not hold: the program sets them
/// through `vec`. Nothing verified reads inside it.
#[verifier::external_body]
pub struct Gauge {
    pub vec: prometheus::GaugeVec,
}

/// A gauge vector's descriptor as plain values: its fully qualified name,
/// its help text and its label names.
pub struct GaugeDesc {
    pub name: Seq<char>,
    pub help: Seq<char>,
    pub labels: Seq<Seq<char>>,
}

/// The descriptor that `prometheus::GaugeVec::new` recorded for a gauge
/// vector.
pub uninterp spec fn gauge_desc(g: Gauge) -> GaugeDesc;

/// The identifier that `prometheus::core::Desc::new` gives a descriptor with
/// this fully qualified name and no constant labels (a hash of the name).
/// The registry refuses a descriptor whose identifier it already holds.
pub uninterp spec fn descriptor_id(fq_name: Seq<char>) -> u64;

/// How prometheus joins a namespace and a metric name (with no subsystem)
/// into the fully qualified name.
pub open spec fn fq_name_spec(namespace: Seq<char>, name: Seq<char>) -> Seq<char> {
    if name.len() == 0 {
        Seq::empty()
    } else if namespace.len() > 0 {
        namespace + "_"@ + name
    } else {
        name
    }
}

/// A character that may begin a metric name (`[a-zA-Z_:]`) or, without
/// the colon, a label name (`[a-zA-Z_]`).
pub open spec fn ident_start(c: char, colon: bool) -> bool {
    (0x61 <= c as u32 && c as u32 <= 0x7a) || (0x41 <= c as u32 && c as u32 <= 0x5a) || c == '_'
        || (colon && c == ':')
}

/// A character that may continue a name: one that may begin it, or an ASCII
/// digit.
pub open spec fn ident_char(c: char, colon: bool) -> bool {
    ident_start(c, colon) || (0x30 <= c as u32 && c as u32 <= 0x39)
}

/// prometheus's check of a metric name (`colon`) or of a label name.
pub open spec fn valid_ident(s: Seq<char>, colon: bool) -> bool {
    &&& s.len() > 0
    &&& ident_start(s[0], colon)
    &&& forall|i: int| 1 <= i < s.len() ==> ident_char(#[trigger] s[i], colon)
}

/// What `prometheus::core::Desc::new` accepts: a help text, a valid metric
/// name, and valid label names that are pairwise distinct.
pub open spec fn valid_desc(d: GaugeDesc) -> bool {
    &&& d.help.len() > 0
    &&& valid_ident(d.name, true)
    &&& forall|k: int| 0 <= k < d.labels.len() ==> valid_ident(#[trigger] d.labels[k], false)
    &&& d.labels.no_duplicates()
}

/// A prometheus registry that holds nothing but gauge vectors registered
/// through this type.
pub struct GaugeRegistry {
    registry: prometheus::Registry,
}

/// The descriptors of the gauge vectors that a registry holds.
pub uninterp spec fn registered_gauges(r: GaugeRegistry) -> Set<GaugeDesc>;

/// Whether a registry holds a descriptor with the identifier of `fq_name`.
pub open spec fn holds_id(held: Set<GaugeDesc>, fq_name: Seq<char>) -> bool {
    exists|d: GaugeDesc| held.contains(d) && descriptor_id(d.name) == descriptor_id(fq_name)
}

/// Calls `prometheus::Registry::new`: a registry without collectors.
#[verifier::external_body]
fn fresh_registry() -> (r: GaugeRegistry)
    ensures
        registered_gauges(r) == Set::<GaugeDesc>::empty(),
{
    GaugeRegistry { registry: prometheus::Registry::new() }
}

/// Calls `prometheus::GaugeVec::new` with `Opts::new(name, help)` in
/// `namespace` and the label names, then `prometheus::Registry::register` on
/// a clone of it. Claimed, as the source shows: the vector is built exactly
/// when its descriptor is valid (`Desc::new`), and then registered exactly
/// when the registry holds no descriptor with the same identifier (for a
/// collector of one descriptor the other checks of `register` cannot fail
/// first); a gauge that comes back bears that descriptor and is now held;
/// on an error the registry holds what it held (it checks before it
/// inserts).
#[verifier::external_body]
fn register_gauge_vec(
    r: &mut GaugeRegistry,
    namespace: &str,
    name: &str,
    help: &str,
    labels: &Vec<&'static str>,
) -> (res: Result<Gauge, prometheus::Error>)
    ensures
        res is Ok <==> valid_desc(
            GaugeDesc {
                name: fq_name_spec(namespace@, name@),
                help: help@,
                labels: labels@.map_values(|s: &'static str| s@),
            },
        ) && !(exists|d: GaugeDesc|
            registered_gauges(*old(r)).contains(d) && descriptor_id(d.name) == descriptor_id(
                fq_name_spec(namespace@, name@),
            )),
        res matches Ok(g) ==> gauge_desc(g) == (GaugeDesc {
            name: fq_name_spec(namespace@, name@),
            help: help@,
            labels: labels@.map_values(|s: &'static str| s@),
        }) && registered_gauges(*final(r)) == registered_gauges(*old(r)).insert(gauge_desc(g)),
        res is Err ==> registered_gauges(*final(r)) == registered_gauges(*old(r)),
{
    let vec = prometheus::GaugeVec::new(prometheus::Opts::new(name, help).namespace(namespace), labels.as_slice())?;
    r.registry.register(Box::new(vec.clone()))?;
    Ok(Gauge { vec })
}

/// Calls `prometheus::Registry::gather` on the registry and encodes the
/// families with `prometheus::TextEncoder`, into a fresh byte buffer.
/// Claimed, as the source shows: it succeeds, with valid UTF-8. The registry
/// holds only gauge vectors built from valid descriptors, so every gathered
/// family has a name; `gather` drops families without readings; the encoder
/// fails only on a family without a name or without readings, writes
/// nothing but the bytes of `&str` values, and writing to a `Vec` does not
/// fail. Not claimed: which bytes.
#[verifier::external_body]
fn encode_registry(r: &GaugeRegistry) -> (res: Result<Vec<u8>, prometheus::Error>)
    ensures
        res is Ok,
        res matches Ok(bytes) ==> valid_utf8(bytes@),
{
    let mut buffer = Vec::new();
    prometheus::TextEncoder::new().encode(&r.registry.gather(), &mut buffer).map(|()| buffer)
}

/// Calls `String::from_utf8`: the text that the bytes encode when they are
/// valid UTF-8, otherwise nothing.
#[verifier::external_body]
fn utf8_text(bytes: Vec<u8>) -> (r: Option<String>)
    ensures
        r is Some <==> valid_utf8(bytes@),
        r matches Some(s) ==> s@ == decode_utf8(bytes@),
{
    String::from_utf8(bytes).ok()
}

/// The descriptor that the catalogue gives a gauge: its name in the
/// `pihole` namespace, its help text and its label names.
pub open spec fn catalogue_desc(id: MetricId) -> GaugeDesc {
    GaugeDesc {
        name: fq_name_spec("pihole"@, metric_name_spec(id)),
        help: metric_help_spec(id),
        labels: metric_labels_spec(id),
    }
}

/// The descriptors of the first `k` gauges of the catalogue.
pub open spec fn catalogue_descs_upto(k: int) -> Set<GaugeDesc> {
    Set::new(|d: GaugeDesc| exists|i: int| 0 <= i < k && d == #[trigger] catalogue_desc(metric_at(i)))
}

/// The descriptors of every gauge of the catalogue.
pub open spec fn catalogue_descs() -> Set<GaugeDesc> {
    catalogue_descs_upto(NUM_METRICS as int)
}

/// The identifiers that prometheus computes for the names of the catalogue
/// are pairwise distinct. The identifiers are hashes, which this library
/// does not state, so this is a condition of success, not a proved fact; the
/// names themselves are distinct (`law_metric_names_distinct`).
pub open spec fn catalogue_ids_distinct() -> bool {
    forall|i: int, j: int|
        0 <= i < j < NUM_METRICS ==> descriptor_id(#[trigger] catalogue_desc(metric_at(i)).name)
            != descriptor_id(#[trigger] catalogue_desc(metric_at(j)).name)
}

/// No gauge of the catalogue has an identifier that the descriptors of
/// `held` already bear.
pub open spec fn catalogue_ids_free(held: Set<GaugeDesc>) -> bool {
    forall|i: int| 0 <= i < NUM_METRICS ==> !holds_id(held, #[trigger] catalogue_desc(metric_at(i)).name)
}

/// The characters of a gauge's name and its help text, as the catalogue
/// gives them.
proof fn lemma_catalogue_texts(id: MetricId)
    ensures
        metric_help_spec(id).len() > 0,
        metric_name_spec(id).len() > 0,
        forall|i: int| 0 <= i < metric_name_spec(id).len() ==> ident_char(#[trigger] metric_name_spec(id)[i], true),
{
    match id {
        MetricId::DomainsBlocked => {
            reveal_strlit("domains_being_blocked");
            reveal_strlit("This represent the number of domains being blocked");
        },
        MetricId::DnsQueriesToday => {
            reveal_strlit("dns_queries_today");
            reveal_strlit("This represent the number of DNS queries made over the current day");
        },
        MetricId::AdsBlockedToday => {
            reveal_strlit("ads_blocked_today");
            reveal_strlit("This represent the number of ads blocked over the current day");
        },
        MetricId::AdsPercentageToday => {
            reveal_strlit("ads_percentage_today");
            reveal_strlit("This represent the percentage of ads blocked over the current day");
        },
        MetricId::UniqueDomains => {
            reveal_strlit("unique_domains");
            reveal_strlit("This represent the number of unique domains seen");
        },
        MetricId::QueriesForwarded => {
            reveal_strlit("queries_forwarded");
            reveal_strlit("This represent the number of queries forwarded");
        },
        MetricId::QueriesCached => {
            reveal_strlit("queries_cached");
            reveal_strlit("This represent the number of queries cached");
        },
        MetricId::ClientsEverSeen => {
            reveal_strlit("clients_ever_seen");
            reveal_strlit("This represent the number of clients ever seen");
        },
        MetricId::UniqueClients => {
            reveal_strlit("unique_clients");
            reveal_strlit("This represent the number of unique clients seen in the last 24h");
        },
        MetricId::RequestRate => {
            reveal_strlit("request_rate");
            reveal_strlit("This represent the number of requests per second");
        },
        MetricId::DnsQueriesAllTypes => {
            reveal_strlit("dns_queries_all_types");
            reveal_strlit("This represent the number of DNS queries made for all types");
        },
        MetricId::Reply => {
            reveal_strlit("reply");
            reveal_strlit("This represent the number of replies made for all types");
        },
        MetricId::TopQueries => {
            reveal_strlit("top_queries");
            reveal_strlit("This represent the number of top queries made by Pi-hole by domain");
        },
        MetricId::TopAds => {
            reveal_strlit("top_ads");
            reveal_strlit("This represent the number of top ads made by Pi-hole by domain");
        },
        MetricId::TopSources => {
            reveal_strlit("top_sources");
            reveal_strlit("This represent the number of top sources requests made by Pi-hole by source host");
        },
        MetricId::ForwardDestinations => {
            reveal_strlit("forward_destinations");
            reveal_strlit("This represent the number of forward destinations requests made by Pi-hole by destination");
        },
        MetricId::ForwardDestinationsResponseTime => {
            reveal_strlit("forward_destinations_responsetime");
            reveal_strlit("This represent the seconds a forward destinations took to process a requests made by Pi-hole");
        },
        MetricId::ForwardDestinationsResponseVariance => {
            reveal_strlit("forward_destinations_responsevariance");
            reveal_strlit("This represent the variants in response time a forward destinations took to process a requests made by Pi-hole");
        },
        MetricId::QueryTypes => {
            reveal_strlit("querytypes");
            reveal_strlit("This represent the number of queries made by Pi-hole by type");
        },
        MetricId::Status => {
            reveal_strlit("status");
            reveal_strlit("This if Pi-hole is enabled");
        },
        MetricId::QueryStatus => {
            reveal_strlit("query_status");
            reveal_strlit("This represent the number of queries by Pi-hole processing status");
        },
        MetricId::GravityLastUpdate => {
            reveal_strlit("gravity_last_update");
            reveal_strlit("Unix timestamp of the last gravity update");
        },
        MetricId::GravityAgeSeconds => {
            reveal_strlit("gravity_age_seconds");
            reveal_strlit("Seconds since the last gravity update");
        },
        MetricId::QueriesLast10min => {
            reveal_strlit("queries_last_10min");
            reveal_strlit("This represent the number of queries in the last full slot of 10 minutes");
        },
        MetricId::AdsLast10min => {
            reveal_strlit("ads_last_10min");
            reveal_strlit("This represent the number of ads in the last full slot of 10 minutes");
        },
        MetricId::History => {
            reveal_strlit("history");
            reveal_strlit("Historical query counts per 10-minute slot over the last 24 hours");
        },
        MetricId::BlockingTimerSeconds => {
            reveal_strlit("blocking_timer_seconds");
            reveal_strlit("Seconds until Pi-hole blocking mode reverts when temporarily disabled");
        },
        MetricId::UpstreamForwardedQueries => {
            reveal_strlit("upstream_forwarded_queries");
            reveal_strlit("Total forwarded queries reported by upstream stats");
        },
        MetricId::UpstreamTotalQueries => {
            reveal_strlit("upstream_total_queries");
            reveal_strlit("Total queries reported by upstream stats");
        },
        MetricId::ApiSummaryTookSeconds => {
            reveal_strlit("api_summary_took_seconds");
            reveal_strlit("Time Pi-hole took to generate the stats summary response");
        },
        MetricId::VersionInfo => {
            reveal_strlit("version_info");
            reveal_strlit("Pi-hole component version information (value is always 1)");
        },
        MetricId::FtlUptimeSeconds => {
            reveal_strlit("ftl_uptime_seconds");
            reveal_strlit("Pi-hole FTL process uptime in seconds");
        },
        MetricId::FtlPid => {
            reveal_strlit("ftl_pid");
            reveal_strlit("Pi-hole FTL process ID");
        },
        MetricId::FtlMemPercent => {
            reveal_strlit("ftl_mem_percent");
            reveal_strlit("Pi-hole FTL memory usage percent");
        },
        MetricId::FtlCpuPercent => {
            reveal_strlit("ftl_cpu_percent");
            reveal_strlit("Pi-hole FTL CPU usage percent");
        },
        MetricId::FtlQueryFrequency => {
            reveal_strlit("ftl_query_frequency");
            reveal_strlit("Pi-hole FTL query frequency");
        },
        MetricId::FtlPrivacyLevel => {
            reveal_strlit("ftl_privacy_level");
            reveal_strlit("Pi-hole FTL privacy level");
        },
        MetricId::FtlDatabaseGravity => {
            reveal_strlit("ftl_database_gravity");
            reveal_strlit("Gravity domains in FTL database stats");
        },
        MetricId::FtlDatabaseGroups => {
            reveal_strlit("ftl_database_groups");
            reveal_strlit("Groups in FTL database stats");
        },
        MetricId::FtlDatabaseLists => {
            reveal_strlit("ftl_database_lists");
            reveal_strlit("Lists in FTL database stats");
        },
        MetricId::FtlDatabaseClients => {
            reveal_strlit("ftl_database_clients");
            reveal_strlit("Clients in FTL database stats");
        },
        MetricId::SystemUptimeSeconds => {
            reveal_strlit("system_uptime_seconds");
            reveal_strlit("Host system uptime in seconds");
        },
        MetricId::SystemRamTotalKb => {
            reveal_strlit("system_ram_total_kb");
            reveal_strlit("Host RAM total in kilobytes");
        },
        MetricId::SystemRamFreeKb => {
            reveal_strlit("system_ram_free_kb");
            reveal_strlit("Host RAM free in kilobytes");
        },
        MetricId::SystemRamUsedKb => {
            reveal_strlit("system_ram_used_kb");
            reveal_strlit("Host RAM used in kilobytes");
        },
        MetricId::SystemRamAvailableKb => {
            reveal_strlit("system_ram_available_kb");
            reveal_strlit("Host RAM available in kilobytes");
        },
        MetricId::SystemRamUsedPercent => {
            reveal_strlit("system_ram_used_percent");
            reveal_strlit("Host RAM used percent");
        },
        MetricId::SystemSwapTotalKb => {
            reveal_strlit("system_swap_total_kb");
            reveal_strlit("Host swap total in kilobytes");
        },
        MetricId::SystemSwapFreeKb => {
            reveal_strlit("system_swap_free_kb");
            reveal_strlit("Host swap free in kilobytes");
        },
        MetricId::SystemSwapUsedKb => {
            reveal_strlit("system_swap_used_kb");
            reveal_strlit("Host swap used in kilobytes");
        },
        MetricId::SystemSwapUsedPercent => {
            reveal_strlit("system_swap_used_percent");
            reveal_strlit("Host swap used percent");
        },
        MetricId::SystemCpuPercent => {
            reveal_strlit("system_cpu_percent");
            reveal_strlit("Host CPU usage percent");
        },
        MetricId::SystemCpuNprocs => {
            reveal_strlit("system_cpu_nprocs");
            reveal_strlit("Host CPU processor count");
        },
        MetricId::SystemLoad => {
            reveal_strlit("system_load");
            reveal_strlit("Host load average");
        },
        MetricId::SystemFtlMemPercent => {
            reveal_strlit("system_ftl_mem_percent");
            reveal_strlit("FTL memory usage percent from system info");
        },
        MetricId::SystemFtlCpuPercent => {
            reveal_strlit("system_ftl_cpu_percent");
            reveal_strlit("FTL CPU usage percent from system info");
        },
        MetricId::DatabaseSizeBytes => {
            reveal_strlit("database_size_bytes");
            reveal_strlit("Pi-hole query database size in bytes");
        },
        MetricId::DatabaseQueries => {
            reveal_strlit("database_queries");
            reveal_strlit("Queries stored in the in-memory database");
        },
        MetricId::DatabaseEarliestTimestamp => {
            reveal_strlit("database_earliest_timestamp");
            reveal_strlit("Earliest query timestamp in the in-memory database");
        },
        MetricId::DatabaseQueriesDisk => {
            reveal_strlit("database_queries_disk");
            reveal_strlit("Queries stored on disk");
        },
        MetricId::DatabaseEarliestTimestampDisk => {
            reveal_strlit("database_earliest_timestamp_disk");
            reveal_strlit("Earliest query timestamp on disk");
        },
        MetricId::CpuTemp => {
            reveal_strlit("cpu_temp");
            reveal_strlit("CPU temperature reported by Pi-hole sensors");
        },
        MetricId::CpuTempHotLimit => {
            reveal_strlit("cpu_temp_hot_limit");
            reveal_strlit("CPU temperature hot limit");
        },
        MetricId::ScrapeSuccess => {
            reveal_strlit("scrape_success");
            reveal_strlit("Whether the last metrics scrape from Pi-hole succeeded (1 = yes, 0 = no)");
        },
        MetricId::ScrapeDurationSeconds => {
            reveal_strlit("scrape_duration_seconds");
            reveal_strlit("Duration of the last Pi-hole metrics scrape in seconds");
        },
        MetricId::LastScrapeTimestamp => {
            reveal_strlit("last_scrape_timestamp");
            reveal_strlit("Unix timestamp of the last successful metrics scrape");
        },
    }
}

/// Every gauge of the catalogue has a descriptor that prometheus accepts.
pub proof fn law_catalogue_descs_valid(id: MetricId)
    ensures
        valid_desc(catalogue_desc(id)),
{
    lemma_catalogue_texts(id);
    let n = metric_name_spec(id);
    let f = catalogue_desc(id).name;
    reveal_strlit("pihole");
    reveal_strlit("_");
    assert(f =~= "pihole"@ + "_"@ + n);
    assert forall|i: int| 1 <= i < f.len() implies ident_char(#[trigger] f[i], true) by {
        if i >= 7 {
            assert(f[i] == n[i - 7]);
        }
    }
    lemma_labels_valid(crate::catalog::metric_label_set(id));
}

proof fn lemma_labels_valid(l: crate::catalog::LabelSet)
    ensures
        forall|k: int| 0 <= k < label_names_spec(l).len() ==> valid_ident(#[trigger] label_names_spec(l)[k], false),
        label_names_spec(l).no_duplicates(),
{
    reveal_strlit("hostname");
    reveal_strlit("type");
    reveal_strlit("domain");
    reveal_strlit("source");
    reveal_strlit("source_name");
    reveal_strlit("destination");
    reveal_strlit("destination_name");
    reveal_strlit("port");
    reveal_strlit("status");
    reveal_strlit("timestamp");
    reveal_strlit("field");
    reveal_strlit("component");
    reveal_strlit("version");
    reveal_strlit("branch");
    reveal_strlit("hash");
    reveal_strlit("period");
    reveal_strlit("unit");
    let names = label_names_spec(l);
    assert forall|k: int| 0 <= k < names.len() implies valid_ident(#[trigger] names[k], false) by {
        let s = names[k];
        assert forall|i: int| 1 <= i < s.len() implies ident_char(#[trigger] s[i], false) by {}
    }
    assert forall|a: int, b: int| 0 <= a < names.len() && 0 <= b < names.len() && a != b implies names[a]
        != names[b] by {
        if names[a] == names[b] {
            assert(names[a].len() == names[b].len());
            assert(names[a][0] == names[b][0]);
            assert(names[a][names[a].len() - 1] == names[b][names[b].len() - 1]);
        }
    }
}

/// The identifiers held after the first `i` gauges of the catalogue were
/// added to `start`: those of `start` and those of the `i` gauges.
proof fn lemma_held_ids(start: Set<GaugeDesc>, i: int, fq: Seq<char>)
    requires
        0 <= i <= NUM_METRICS,
    ensures
        holds_id(start.union(catalogue_descs_upto(i)), fq) <==> (holds_id(start, fq) || exists|a: int|
            0 <= a < i && descriptor_id(#[trigger] catalogue_desc(metric_at(a)).name) == descriptor_id(fq)),
{
    let cur = start.union(catalogue_descs_upto(i));
    if holds_id(cur, fq) {
        let d = choose|d: GaugeDesc| cur.contains(d) && descriptor_id(d.name) == descriptor_id(fq);
        if !start.contains(d) {
            let a = choose|a: int| 0 <= a < i && d == #[trigger] catalogue_desc(metric_at(a));
            assert(descriptor_id(catalogue_desc(metric_at(a)).name) == descriptor_id(fq));
        }
    }
    if holds_id(start, fq) {
        let d = choose|d: GaugeDesc| start.contains(d) && descriptor_id(d.name) == descriptor_id(fq);
        assert(cur.contains(d));
    }
    if exists|a: int| 0 <= a < i && descriptor_id(#[trigger] catalogue_desc(metric_at(a)).name) == descriptor_id(fq) {
        let a = choose|a: int| 0 <= a < i && descriptor_id(#[trigger] catalogue_desc(metric_at(a)).name)
            == descriptor_id(fq);
        assert(catalogue_descs_upto(i).contains(catalogue_desc(metric_at(a))));
        assert(cur.contains(catalogue_desc(metric_at(a))));
    }
}

/// When gauge `i` of the catalogue is refused although its descriptor is
/// valid, its identifier is held already: by `start` or by an earlier gauge.
/// Then the identifiers were not all free and distinct, and what was added
/// is part of the catalogue.
proof fn lemma_refusal(start: Set<GaugeDesc>, i: int)
    requires
        0 <= i < NUM_METRICS,
        holds_id(start, catalogue_desc(metric_at(i)).name) || exists|a: int|
            0 <= a < i && descriptor_id(#[trigger] catalogue_desc(metric_at(a)).name) == descriptor_id(
                catalogue_desc(metric_at(i)).name,
            ),
    ensures
        !(catalogue_ids_distinct() && catalogue_ids_free(start)),
        catalogue_descs_upto(i).subset_of(catalogue_descs()),
{
    assert forall|d: GaugeDesc| #[trigger] catalogue_descs_upto(i).contains(d) implies catalogue_descs().contains(
        d,
    ) by {
        let j = choose|j: int| 0 <= j < i && d == #[trigger] catalogue_desc(metric_at(j));
        assert(0 <= j < NUM_METRICS && d == catalogue_desc(metric_at(j)));
    }
    if catalogue_ids_distinct() && catalogue_ids_free(start) {
        assert(!holds_id(start, catalogue_desc(metric_at(i)).name));
        let a = choose|a: int| 0 <= a < i && descriptor_id(#[trigger] catalogue_desc(metric_at(a)).name)
            == descriptor_id(catalogue_desc(metric_at(i)).name);
        assert(descriptor_id(catalogue_desc(metric_at(a)).name) != descriptor_id(
            catalogue_desc(metric_at(i)).name,
        ));
    }
}

impl GaugeRegistry {
    /// A registry that holds no gauge.
    pub fn new() -> (r: GaugeRegistry)
        ensures
            registered_gauges(r) == Set::<GaugeDesc>::empty(),
    {
        fresh_registry()
    }

    /// Registers every gauge of the catalogue, in catalogue order, in the
    /// `pihole` namespace, with its help text and label names. It succeeds
    /// exactly when the registry holds none of their identifiers and these
    /// are pairwise distinct: on a fresh registry, whenever the identifiers
    /// of the catalogue are distinct. On success the gauges come back in
    /// catalogue order and the registry holds them besides what it held; on
    /// the first refusal the registration stops, having added only gauges
    /// of the catalogue.
    pub fn register_catalogue(&mut self) -> (r: Result<Vec<Gauge>, prometheus::Error>)
        ensures
            r is Ok <==> catalogue_ids_distinct() && catalogue_ids_free(registered_gauges(*old(self))),
            r matches Ok(gs) ==> gs@.len() == NUM_METRICS && (forall|i: int|
                0 <= i < NUM_METRICS ==> gauge_desc(#[trigger] gs@[i]) == catalogue_desc(metric_at(i)))
                && registered_gauges(*final(self)) == registered_gauges(*old(self)).union(
                catalogue_descs(),
            ),
            r is Err ==> registered_gauges(*old(self)).subset_of(registered_gauges(*final(self)))
                && registered_gauges(*final(self)).subset_of(
                registered_gauges(*old(self)).union(catalogue_descs()),
            ),
    {
        let ghost start = registered_gauges(*self);
        let mut gauges: Vec<Gauge> = Vec::new();
        let mut i: usize = 0;
        assert(catalogue_descs_upto(0) =~= Set::<GaugeDesc>::empty());
        assert(start.union(catalogue_descs_upto(0)) =~= start);
        while i < NUM_METRICS
            invariant
                i <= NUM_METRICS,
                gauges@.len() == i,
                forall|j: int| 0 <= j < i ==> gauge_desc(#[trigger] gauges@[j]) == catalogue_desc(metric_at(j)),
                registered_gauges(*self) == start.union(catalogue_descs_upto(i as int)),
                start == registered_gauges(*old(self)),
                forall|a: int, b: int|
                    0 <= a < b < i ==> descriptor_id(#[trigger] catalogue_desc(metric_at(a)).name)
                        != descriptor_id(#[trigger] catalogue_desc(metric_at(b)).name),
                forall|a: int| 0 <= a < i ==> !holds_id(start, #[trigger] catalogue_desc(metric_at(a)).name),
            decreases NUM_METRICS - i,
        {
            let id = metric_id_at(i);
            let labels = id.label_names();
            proof {
                law_catalogue_descs_valid(id);
            }
            let ghost cur = registered_gauges(*self);
            let ghost fq = catalogue_desc(metric_at(i as int)).name;
            proof {
                lemma_held_ids(start, i as int, fq);
            }
            let res = register_gauge_vec(self, namespace(), id.name(), id.help(), &labels);
            match res {
                Ok(g) => {
                    assert(start.union(catalogue_descs_upto(i + 1)) =~= start.union(
                        catalogue_descs_upto(i as int),
                    ).insert(catalogue_desc(metric_at(i as int))));
                    gauges.push(g);
                },
                Err(e) => {
                    proof {
                        lemma_refusal(start, i as int);
                    }
                    return Err(e);
                },
            }
            i = i + 1;
        }
        Ok(gauges)
    }
}

/// Every gauge of the catalogue is registered under `pihole_` and its name,
/// with its help text and its label names.
pub proof fn law_registered_names_prefixed(id: MetricId)
    ensures
        catalogue_desc(id).name == "pihole_"@ + metric_name_spec(id),
        catalogue_desc(id).help == metric_help_spec(id),
        catalogue_desc(id).labels == metric_labels_spec(id),
{
    lemma_name_nonempty(id);
    assert("pihole"@ + "_"@ =~= "pihole_"@) by {
        reveal_strlit("pihole");
        reveal_strlit("_");
        reveal_strlit("pihole_");
    }
    assert("pihole"@.len() > 0) by {
        reveal_strlit("pihole");
    }
    assert("pihole"@ + "_"@ + metric_name_spec(id) =~= "pihole_"@ + metric_name_spec(id));
}

/// The text of an encoding of the metrics: the encoder's error, or its
/// bytes read as UTF-8.
pub fn render_encoded(encoded: Result<Vec<u8>, prometheus::Error>) -> (r: Result<String, RenderError>)
    ensures
        match encoded {
            Ok(bytes) => if valid_utf8(bytes@) {
                r matches Ok(text) && text@ == decode_utf8(bytes@)
            } else {
                r matches Err(RenderError::NotUtf8)
            },
            Err(e) => r == Err::<String, RenderError>(RenderError::Encode(e)),
        },
{
    match encoded {
        Ok(bytes) => match utf8_text(bytes) {
            Some(text) => Ok(text),
            None => Err(RenderError::NotUtf8),
        },
        Err(e) => Err(RenderError::Encode(e)),
    }
}

/// The registry's metrics in the Prometheus text format. Rendering a
/// registry of gauges always succeeds; the readings, which are floating
/// point, and so the text, are not stated.
pub fn encode_metrics(registry: &GaugeRegistry) -> (r: Result<String, RenderError>)
    ensures
        r is Ok,
{
    render_encoded(encode_registry(registry))
}

} // verus!
