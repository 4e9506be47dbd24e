//! The catalogue of the exporter's gauges: their names, help texts and label
//! names, in the order in which they are registered.
use vstd::prelude::*;

verus! {

/// The namespace that prefixes every metric name.
pub fn namespace() -> (r: &'static str)
    ensures
        r@ == "pihole"@,
{
    "pihole"
}

/// How many gauges the exporter registers.
pub const NUM_METRICS: usize = 66;

/// One gauge of the exporter.
#[derive(Debug, Clone, Copy, PartialEq, Eq, Structural)]
pub enum MetricId {
    DomainsBlocked,
    DnsQueriesToday,
    AdsBlockedToday,
    AdsPercentageToday,
    UniqueDomains,
    QueriesForwarded,
    QueriesCached,
    ClientsEverSeen,
    UniqueClients,
    RequestRate,
    DnsQueriesAllTypes,
    Reply,
    TopQueries,
    TopAds,
    TopSources,
    ForwardDestinations,
    ForwardDestinationsResponseTime,
    ForwardDestinationsResponseVariance,
    QueryTypes,
    Status,
    QueryStatus,
    GravityLastUpdate,
    GravityAgeSeconds,
    QueriesLast10min,
    AdsLast10min,
    History,
    BlockingTimerSeconds,
    UpstreamForwardedQueries,
    UpstreamTotalQueries,
    ApiSummaryTookSeconds,
    VersionInfo,
    FtlUptimeSeconds,
    FtlPid,
    FtlMemPercent,
    FtlCpuPercent,
    FtlQueryFrequency,
    FtlPrivacyLevel,
    FtlDatabaseGravity,
    FtlDatabaseGroups,
    FtlDatabaseLists,
    FtlDatabaseClients,
    SystemUptimeSeconds,
    SystemRamTotalKb,
    SystemRamFreeKb,
    SystemRamUsedKb,
    SystemRamAvailableKb,
    SystemRamUsedPercent,
    SystemSwapTotalKb,
    SystemSwapFreeKb,
    SystemSwapUsedKb,
    SystemSwapUsedPercent,
    SystemCpuPercent,
    SystemCpuNprocs,
    SystemLoad,
    SystemFtlMemPercent,
    SystemFtlCpuPercent,
    DatabaseSizeBytes,
    DatabaseQueries,
    DatabaseEarliestTimestamp,
    DatabaseQueriesDisk,
    DatabaseEarliestTimestampDisk,
    CpuTemp,
    CpuTempHotLimit,
    ScrapeSuccess,
    ScrapeDurationSeconds,
    LastScrapeTimestamp,
}

/// The label names that a gauge takes.
#[derive(Debug, Clone, Copy, PartialEq, Eq, Structural)]
pub enum LabelSet {
    Host,
    HostType,
    HostDomain,
    HostSourceSourceName,
    HostDestinationDestinationNamePort,
    HostStatus,
    HostTimestampField,
    HostComponentVersionBranchHash,
    HostPeriod,
    HostUnit,
}

/// The position of a gauge in the catalogue.
pub open spec fn metric_index(id: MetricId) -> int {
    match id {
        MetricId::DomainsBlocked => 0,
        MetricId::DnsQueriesToday => 1,
        MetricId::AdsBlockedToday => 2,
        MetricId::AdsPercentageToday => 3,
        MetricId::UniqueDomains => 4,
        MetricId::QueriesForwarded => 5,
        MetricId::QueriesCached => 6,
        MetricId::ClientsEverSeen => 7,
        MetricId::UniqueClients => 8,
        MetricId::RequestRate => 9,
        MetricId::DnsQueriesAllTypes => 10,
        MetricId::Reply => 11,
        MetricId::TopQueries => 12,
        MetricId::TopAds => 13,
        MetricId::TopSources => 14,
        MetricId::ForwardDestinations => 15,
        MetricId::ForwardDestinationsResponseTime => 16,
        MetricId::ForwardDestinationsResponseVariance => 17,
        MetricId::QueryTypes => 18,
        MetricId::Status => 19,
        MetricId::QueryStatus => 20,
        MetricId::GravityLastUpdate => 21,
        MetricId::GravityAgeSeconds => 22,
        MetricId::QueriesLast10min => 23,
        MetricId::AdsLast10min => 24,
        MetricId::History => 25,
        MetricId::BlockingTimerSeconds => 26,
        MetricId::UpstreamForwardedQueries => 27,
        MetricId::UpstreamTotalQueries => 28,
        MetricId::ApiSummaryTookSeconds => 29,
        MetricId::VersionInfo => 30,
        MetricId::FtlUptimeSeconds => 31,
        MetricId::FtlPid => 32,
        MetricId::FtlMemPercent => 33,
        MetricId::FtlCpuPercent => 34,
        MetricId::FtlQueryFrequency => 35,
        MetricId::FtlPrivacyLevel => 36,
        MetricId::FtlDatabaseGravity => 37,
        MetricId::FtlDatabaseGroups => 38,
        MetricId::FtlDatabaseLists => 39,
        MetricId::FtlDatabaseClients => 40,
        MetricId::SystemUptimeSeconds => 41,
        MetricId::SystemRamTotalKb => 42,
        MetricId::SystemRamFreeKb => 43,
        MetricId::SystemRamUsedKb => 44,
        MetricId::SystemRamAvailableKb => 45,
        MetricId::SystemRamUsedPercent => 46,
        MetricId::SystemSwapTotalKb => 47,
        MetricId::SystemSwapFreeKb => 48,
        MetricId::SystemSwapUsedKb => 49,
        MetricId::SystemSwapUsedPercent => 50,
        MetricId::SystemCpuPercent => 51,
        MetricId::SystemCpuNprocs => 52,
        MetricId::SystemLoad => 53,
        MetricId::SystemFtlMemPercent => 54,
        MetricId::SystemFtlCpuPercent => 55,
        MetricId::DatabaseSizeBytes => 56,
        MetricId::DatabaseQueries => 57,
        MetricId::DatabaseEarliestTimestamp => 58,
        MetricId::DatabaseQueriesDisk => 59,
        MetricId::DatabaseEarliestTimestampDisk => 60,
        MetricId::CpuTemp => 61,
        MetricId::CpuTempHotLimit => 62,
        MetricId::ScrapeSuccess => 63,
        MetricId::ScrapeDurationSeconds => 64,
        MetricId::LastScrapeTimestamp => 65,
    }
}

/// The gauge at a position of the catalogue.
pub open spec fn metric_at(i: int) -> MetricId {
    if i == 0 {
        MetricId::DomainsBlocked
    } else if i == 1 {
        MetricId::DnsQueriesToday
    } else if i == 2 {
        MetricId::AdsBlockedToday
    } else if i == 3 {
        MetricId::AdsPercentageToday
    } else if i == 4 {
        MetricId::UniqueDomains
    } else if i == 5 {
        MetricId::QueriesForwarded
    } else if i == 6 {
        MetricId::QueriesCached
    } else if i == 7 {
        MetricId::ClientsEverSeen
    } else if i == 8 {
        MetricId::UniqueClients
    } else if i == 9 {
        MetricId::RequestRate
    } else if i == 10 {
        MetricId::DnsQueriesAllTypes
    } else if i == 11 {
        MetricId::Reply
    } else if i == 12 {
        MetricId::TopQueries
    } else if i == 13 {
        MetricId::TopAds
    } else if i == 14 {
        MetricId::TopSources
    } else if i == 15 {
        MetricId::ForwardDestinations
    } else if i == 16 {
        MetricId::ForwardDestinationsResponseTime
    } else if i == 17 {
        MetricId::ForwardDestinationsResponseVariance
    } else if i == 18 {
        MetricId::QueryTypes
    } else if i == 19 {
        MetricId::Status
    } else if i == 20 {
        MetricId::QueryStatus
    } else if i == 21 {
        MetricId::GravityLastUpdate
    } else if i == 22 {
        MetricId::GravityAgeSeconds
    } else if i == 23 {
        MetricId::QueriesLast10min
    } else if i == 24 {
        MetricId::AdsLast10min
    } else if i == 25 {
        MetricId::History
    } else if i == 26 {
        MetricId::BlockingTimerSeconds
    } else if i == 27 {
        MetricId::UpstreamForwardedQueries
    } else if i == 28 {
        MetricId::UpstreamTotalQueries
    } else if i == 29 {
        MetricId::ApiSummaryTookSeconds
    } else if i == 30 {
        MetricId::VersionInfo
    } else if i == 31 {
        MetricId::FtlUptimeSeconds
    } else if i == 32 {
        MetricId::FtlPid
    } else if i == 33 {
        MetricId::FtlMemPercent
    } else if i == 34 {
        MetricId::FtlCpuPercent
    } else if i == 35 {
        MetricId::FtlQueryFrequency
    } else if i == 36 {
        MetricId::FtlPrivacyLevel
    } else if i == 37 {
        MetricId::FtlDatabaseGravity
    } else if i == 38 {
        MetricId::FtlDatabaseGroups
    } else if i == 39 {
        MetricId::FtlDatabaseLists
    } else if i == 40 {
        MetricId::FtlDatabaseClients
    } else if i == 41 {
        MetricId::SystemUptimeSeconds
    } else if i == 42 {
        MetricId::SystemRamTotalKb
    } else if i == 43 {
        MetricId::SystemRamFreeKb
    } else if i == 44 {
        MetricId::SystemRamUsedKb
    } else if i == 45 {
        MetricId::SystemRamAvailableKb
    } else if i == 46 {
        MetricId::SystemRamUsedPercent
    } else if i == 47 {
        MetricId::SystemSwapTotalKb
    } else if i == 48 {
        MetricId::SystemSwapFreeKb
    } else if i == 49 {
        MetricId::SystemSwapUsedKb
    } else if i == 50 {
        MetricId::SystemSwapUsedPercent
    } else if i == 51 {
        MetricId::SystemCpuPercent
    } else if i == 52 {
        MetricId::SystemCpuNprocs
    } else if i == 53 {
        MetricId::SystemLoad
    } else if i == 54 {
        MetricId::SystemFtlMemPercent
    } else if i == 55 {
        MetricId::SystemFtlCpuPercent
    } else if i == 56 {
        MetricId::DatabaseSizeBytes
    } else if i == 57 {
        MetricId::DatabaseQueries
    } else if i == 58 {
        MetricId::DatabaseEarliestTimestamp
    } else if i == 59 {
        MetricId::DatabaseQueriesDisk
    } else if i == 60 {
        MetricId::DatabaseEarliestTimestampDisk
    } else if i == 61 {
        MetricId::CpuTemp
    } else if i == 62 {
        MetricId::CpuTempHotLimit
    } else if i == 63 {
        MetricId::ScrapeSuccess
    } else if i == 64 {
        MetricId::ScrapeDurationSeconds
    } else {
        MetricId::LastScrapeTimestamp
    }
}

/// The name of a gauge, without the namespace.
pub open spec fn metric_name_spec(id: MetricId) -> Seq<char> {
    match id {
        MetricId::DomainsBlocked => "domains_being_blocked"@,
        MetricId::DnsQueriesToday => "dns_queries_today"@,
        MetricId::AdsBlockedToday => "ads_blocked_today"@,
        MetricId::AdsPercentageToday => "ads_percentage_today"@,
        MetricId::UniqueDomains => "unique_domains"@,
        MetricId::QueriesForwarded => "queries_forwarded"@,
        MetricId::QueriesCached => "queries_cached"@,
        MetricId::ClientsEverSeen => "clients_ever_seen"@,
        MetricId::UniqueClients => "unique_clients"@,
        MetricId::RequestRate => "request_rate"@,
        MetricId::DnsQueriesAllTypes => "dns_queries_all_types"@,
        MetricId::Reply => "reply"@,
        MetricId::TopQueries => "top_queries"@,
        MetricId::TopAds => "top_ads"@,
        MetricId::TopSources => "top_sources"@,
        MetricId::ForwardDestinations => "forward_destinations"@,
        MetricId::ForwardDestinationsResponseTime => "forward_destinations_responsetime"@,
        MetricId::ForwardDestinationsResponseVariance => "forward_destinations_responsevariance"@,
        MetricId::QueryTypes => "querytypes"@,
        MetricId::Status => "status"@,
        MetricId::QueryStatus => "query_status"@,
        MetricId::GravityLastUpdate => "gravity_last_update"@,
        MetricId::GravityAgeSeconds => "gravity_age_seconds"@,
        MetricId::QueriesLast10min => "queries_last_10min"@,
        MetricId::AdsLast10min => "ads_last_10min"@,
        MetricId::History => "history"@,
        MetricId::BlockingTimerSeconds => "blocking_timer_seconds"@,
        MetricId::UpstreamForwardedQueries => "upstream_forwarded_queries"@,
        MetricId::UpstreamTotalQueries => "upstream_total_queries"@,
        MetricId::ApiSummaryTookSeconds => "api_summary_took_seconds"@,
        MetricId::VersionInfo => "version_info"@,
        MetricId::FtlUptimeSeconds => "ftl_uptime_seconds"@,
        MetricId::FtlPid => "ftl_pid"@,
        MetricId::FtlMemPercent => "ftl_mem_percent"@,
        MetricId::FtlCpuPercent => "ftl_cpu_percent"@,
        MetricId::FtlQueryFrequency => "ftl_query_frequency"@,
        MetricId::FtlPrivacyLevel => "ftl_privacy_level"@,
        MetricId::FtlDatabaseGravity => "ftl_database_gravity"@,
        MetricId::FtlDatabaseGroups => "ftl_database_groups"@,
        MetricId::FtlDatabaseLists => "ftl_database_lists"@,
        MetricId::FtlDatabaseClients => "ftl_database_clients"@,
        MetricId::SystemUptimeSeconds => "system_uptime_seconds"@,
        MetricId::SystemRamTotalKb => "system_ram_total_kb"@,
        MetricId::SystemRamFreeKb => "system_ram_free_kb"@,
        MetricId::SystemRamUsedKb => "system_ram_used_kb"@,
        MetricId::SystemRamAvailableKb => "system_ram_available_kb"@,
        MetricId::SystemRamUsedPercent => "system_ram_used_percent"@,
        MetricId::SystemSwapTotalKb => "system_swap_total_kb"@,
        MetricId::SystemSwapFreeKb => "system_swap_free_kb"@,
        MetricId::SystemSwapUsedKb => "system_swap_used_kb"@,
        MetricId::SystemSwapUsedPercent => "system_swap_used_percent"@,
        MetricId::SystemCpuPercent => "system_cpu_percent"@,
        MetricId::SystemCpuNprocs => "system_cpu_nprocs"@,
        MetricId::SystemLoad => "system_load"@,
        MetricId::SystemFtlMemPercent => "system_ftl_mem_percent"@,
        MetricId::SystemFtlCpuPercent => "system_ftl_cpu_percent"@,
        MetricId::DatabaseSizeBytes => "database_size_bytes"@,
        MetricId::DatabaseQueries => "database_queries"@,
        MetricId::DatabaseEarliestTimestamp => "database_earliest_timestamp"@,
        MetricId::DatabaseQueriesDisk => "database_queries_disk"@,
        MetricId::DatabaseEarliestTimestampDisk => "database_earliest_timestamp_disk"@,
        MetricId::CpuTemp => "cpu_temp"@,
        MetricId::CpuTempHotLimit => "cpu_temp_hot_limit"@,
        MetricId::ScrapeSuccess => "scrape_success"@,
        MetricId::ScrapeDurationSeconds => "scrape_duration_seconds"@,
        MetricId::LastScrapeTimestamp => "last_scrape_timestamp"@,
    }
}

/// The help text of a gauge.
pub open spec fn metric_help_spec(id: MetricId) -> Seq<char> {
    match id {
        MetricId::DomainsBlocked => "This represent the number of domains being blocked"@,
        MetricId::DnsQueriesToday => "This represent the number of DNS queries made over the current day"@,
        MetricId::AdsBlockedToday => "This represent the number of ads blocked over the current day"@,
        MetricId::AdsPercentageToday => "This represent the percentage of ads blocked over the current day"@,
        MetricId::UniqueDomains => "This represent the number of unique domains seen"@,
        MetricId::QueriesForwarded => "This represent the number of queries forwarded"@,
        MetricId::QueriesCached => "This represent the number of queries cached"@,
        MetricId::ClientsEverSeen => "This represent the number of clients ever seen"@,
        MetricId::UniqueClients => "This represent the number of unique clients seen in the last 24h"@,
        MetricId::RequestRate => "This represent the number of requests per second"@,
        MetricId::DnsQueriesAllTypes => "This represent the number of DNS queries made for all types"@,
        MetricId::Reply => "This represent the number of replies made for all types"@,
        MetricId::TopQueries => "This represent the number of top queries made by Pi-hole by domain"@,
        MetricId::TopAds => "This represent the number of top ads made by Pi-hole by domain"@,
        MetricId::TopSources => "This represent the number of top sources requests made by Pi-hole by source host"@,
        MetricId::ForwardDestinations => "This represent the number of forward destinations requests made by Pi-hole by destination"@,
        MetricId::ForwardDestinationsResponseTime => "This represent the seconds a forward destinations took to process a requests made by Pi-hole"@,
        MetricId::ForwardDestinationsResponseVariance => "This represent the variants in response time a forward destinations took to process a requests made by Pi-hole"@,
        MetricId::QueryTypes => "This represent the number of queries made by Pi-hole by type"@,
        MetricId::Status => "This if Pi-hole is enabled"@,
        MetricId::QueryStatus => "This represent the number of queries by Pi-hole processing status"@,
        MetricId::GravityLastUpdate => "Unix timestamp of the last gravity update"@,
        MetricId::GravityAgeSeconds => "Seconds since the last gravity update"@,
        MetricId::QueriesLast10min => "This represent the number of queries in the last full slot of 10 minutes"@,
        MetricId::AdsLast10min => "This represent the number of ads in the last full slot of 10 minutes"@,
        MetricId::History => "Historical query counts per 10-minute slot over the last 24 hours"@,
        MetricId::BlockingTimerSeconds => "Seconds until Pi-hole blocking mode reverts when temporarily disabled"@,
        MetricId::UpstreamForwardedQueries => "Total forwarded queries reported by upstream stats"@,
        MetricId::UpstreamTotalQueries => "Total queries reported by upstream stats"@,
        MetricId::ApiSummaryTookSeconds => "Time Pi-hole took to generate the stats summary response"@,
        MetricId::VersionInfo => "Pi-hole component version information (value is always 1)"@,
        MetricId::FtlUptimeSeconds => "Pi-hole FTL process uptime in seconds"@,
        MetricId::FtlPid => "Pi-hole FTL process ID"@,
        MetricId::FtlMemPercent => "Pi-hole FTL memory usage percent"@,
        MetricId::FtlCpuPercent => "Pi-hole FTL CPU usage percent"@,
        MetricId::FtlQueryFrequency => "Pi-hole FTL query frequency"@,
        MetricId::FtlPrivacyLevel => "Pi-hole FTL privacy level"@,
        MetricId::FtlDatabaseGravity => "Gravity domains in FTL database stats"@,
        MetricId::FtlDatabaseGroups => "Groups in FTL database stats"@,
        MetricId::FtlDatabaseLists => "Lists in FTL database stats"@,
        MetricId::FtlDatabaseClients => "Clients in FTL database stats"@,
        MetricId::SystemUptimeSeconds => "Host system uptime in seconds"@,
        MetricId::SystemRamTotalKb => "Host RAM total in kilobytes"@,
        MetricId::SystemRamFreeKb => "Host RAM free in kilobytes"@,
        MetricId::SystemRamUsedKb => "Host RAM used in kilobytes"@,
        MetricId::SystemRamAvailableKb => "Host RAM available in kilobytes"@,
        MetricId::SystemRamUsedPercent => "Host RAM used percent"@,
        MetricId::SystemSwapTotalKb => "Host swap total in kilobytes"@,
        MetricId::SystemSwapFreeKb => "Host swap free in kilobytes"@,
        MetricId::SystemSwapUsedKb => "Host swap used in kilobytes"@,
        MetricId::SystemSwapUsedPercent => "Host swap used percent"@,
        MetricId::SystemCpuPercent => "Host CPU usage percent"@,
        MetricId::SystemCpuNprocs => "Host CPU processor count"@,
        MetricId::SystemLoad => "Host load average"@,
        MetricId::SystemFtlMemPercent => "FTL memory usage percent from system info"@,
        MetricId::SystemFtlCpuPercent => "FTL CPU usage percent from system info"@,
        MetricId::DatabaseSizeBytes => "Pi-hole query database size in bytes"@,
        MetricId::DatabaseQueries => "Queries stored in the in-memory database"@,
        MetricId::DatabaseEarliestTimestamp => "Earliest query timestamp in the in-memory database"@,
        MetricId::DatabaseQueriesDisk => "Queries stored on disk"@,
        MetricId::DatabaseEarliestTimestampDisk => "Earliest query timestamp on disk"@,
        MetricId::CpuTemp => "CPU temperature reported by Pi-hole sensors"@,
        MetricId::CpuTempHotLimit => "CPU temperature hot limit"@,
        MetricId::ScrapeSuccess => "Whether the last metrics scrape from Pi-hole succeeded (1 = yes, 0 = no)"@,
        MetricId::ScrapeDurationSeconds => "Duration of the last Pi-hole metrics scrape in seconds"@,
        MetricId::LastScrapeTimestamp => "Unix timestamp of the last successful metrics scrape"@,
    }
}

/// The label names of a gauge.
pub open spec fn metric_label_set(id: MetricId) -> LabelSet {
    match id {
        MetricId::DomainsBlocked => LabelSet::Host,
        MetricId::DnsQueriesToday => LabelSet::Host,
        MetricId::AdsBlockedToday => LabelSet::Host,
        MetricId::AdsPercentageToday => LabelSet::Host,
        MetricId::UniqueDomains => LabelSet::Host,
        MetricId::QueriesForwarded => LabelSet::Host,
        MetricId::QueriesCached => LabelSet::Host,
        MetricId::ClientsEverSeen => LabelSet::Host,
        MetricId::UniqueClients => LabelSet::Host,
        MetricId::RequestRate => LabelSet::Host,
        MetricId::DnsQueriesAllTypes => LabelSet::Host,
        MetricId::Reply => LabelSet::HostType,
        MetricId::TopQueries => LabelSet::HostDomain,
        MetricId::TopAds => LabelSet::HostDomain,
        MetricId::TopSources => LabelSet::HostSourceSourceName,
        MetricId::ForwardDestinations => LabelSet::HostDestinationDestinationNamePort,
        MetricId::ForwardDestinationsResponseTime => LabelSet::HostDestinationDestinationNamePort,
        MetricId::ForwardDestinationsResponseVariance => LabelSet::HostDestinationDestinationNamePort,
        MetricId::QueryTypes => LabelSet::HostType,
        MetricId::Status => LabelSet::Host,
        MetricId::QueryStatus => LabelSet::HostStatus,
        MetricId::GravityLastUpdate => LabelSet::Host,
        MetricId::GravityAgeSeconds => LabelSet::Host,
        MetricId::QueriesLast10min => LabelSet::Host,
        MetricId::AdsLast10min => LabelSet::Host,
        MetricId::History => LabelSet::HostTimestampField,
        MetricId::BlockingTimerSeconds => LabelSet::Host,
        MetricId::UpstreamForwardedQueries => LabelSet::Host,
        MetricId::UpstreamTotalQueries => LabelSet::Host,
        MetricId::ApiSummaryTookSeconds => LabelSet::Host,
        MetricId::VersionInfo => LabelSet::HostComponentVersionBranchHash,
        MetricId::FtlUptimeSeconds => LabelSet::Host,
        MetricId::FtlPid => LabelSet::Host,
        MetricId::FtlMemPercent => LabelSet::Host,
        MetricId::FtlCpuPercent => LabelSet::Host,
        MetricId::FtlQueryFrequency => LabelSet::Host,
        MetricId::FtlPrivacyLevel => LabelSet::Host,
        MetricId::FtlDatabaseGravity => LabelSet::Host,
        MetricId::FtlDatabaseGroups => LabelSet::Host,
        MetricId::FtlDatabaseLists => LabelSet::Host,
        MetricId::FtlDatabaseClients => LabelSet::Host,
        MetricId::SystemUptimeSeconds => LabelSet::Host,
        MetricId::SystemRamTotalKb => LabelSet::Host,
        MetricId::SystemRamFreeKb => LabelSet::Host,
        MetricId::SystemRamUsedKb => LabelSet::Host,
        MetricId::SystemRamAvailableKb => LabelSet::Host,
        MetricId::SystemRamUsedPercent => LabelSet::Host,
        MetricId::SystemSwapTotalKb => LabelSet::Host,
        MetricId::SystemSwapFreeKb => LabelSet::Host,
        MetricId::SystemSwapUsedKb => LabelSet::Host,
        MetricId::SystemSwapUsedPercent => LabelSet::Host,
        MetricId::SystemCpuPercent => LabelSet::Host,
        MetricId::SystemCpuNprocs => LabelSet::Host,
        MetricId::SystemLoad => LabelSet::HostPeriod,
        MetricId::SystemFtlMemPercent => LabelSet::Host,
        MetricId::SystemFtlCpuPercent => LabelSet::Host,
        MetricId::DatabaseSizeBytes => LabelSet::Host,
        MetricId::DatabaseQueries => LabelSet::Host,
        MetricId::DatabaseEarliestTimestamp => LabelSet::Host,
        MetricId::DatabaseQueriesDisk => LabelSet::Host,
        MetricId::DatabaseEarliestTimestampDisk => LabelSet::Host,
        MetricId::CpuTemp => LabelSet::HostUnit,
        MetricId::CpuTempHotLimit => LabelSet::HostUnit,
        MetricId::ScrapeSuccess => LabelSet::Host,
        MetricId::ScrapeDurationSeconds => LabelSet::Host,
        MetricId::LastScrapeTimestamp => LabelSet::Host,
    }
}

/// The label names of a label set, in order.
pub open spec fn label_names_spec(l: LabelSet) -> Seq<Seq<char>> {
    match l {
        LabelSet::Host => seq!["hostname"@],
        LabelSet::HostType => seq!["hostname"@, "type"@],
        LabelSet::HostDomain => seq!["hostname"@, "domain"@],
        LabelSet::HostSourceSourceName => seq!["hostname"@, "source"@, "source_name"@],
        LabelSet::HostDestinationDestinationNamePort => seq!["hostname"@, "destination"@, "destination_name"@, "port"@],
        LabelSet::HostStatus => seq!["hostname"@, "status"@],
        LabelSet::HostTimestampField => seq!["hostname"@, "timestamp"@, "field"@],
        LabelSet::HostComponentVersionBranchHash => seq!["hostname"@, "component"@, "version"@, "branch"@, "hash"@],
        LabelSet::HostPeriod => seq!["hostname"@, "period"@],
        LabelSet::HostUnit => seq!["hostname"@, "unit"@],
    }
}

/// The label names of a gauge, in order.
pub open spec fn metric_labels_spec(id: MetricId) -> Seq<Seq<char>> {
    label_names_spec(metric_label_set(id))
}

/// The gauge at position `i` of the catalogue.
pub fn metric_id_at(i: usize) -> (id: MetricId)
    requires
        i < NUM_METRICS,
    ensures
        id == metric_at(i as int),
        metric_index(id) == i,
{
    if i == 0 {
        MetricId::DomainsBlocked
    } else if i == 1 {
        MetricId::DnsQueriesToday
    } else if i == 2 {
        MetricId::AdsBlockedToday
    } else if i == 3 {
        MetricId::AdsPercentageToday
    } else if i == 4 {
        MetricId::UniqueDomains
    } else if i == 5 {
        MetricId::QueriesForwarded
    } else if i == 6 {
        MetricId::QueriesCached
    } else if i == 7 {
        MetricId::ClientsEverSeen
    } else if i == 8 {
        MetricId::UniqueClients
    } else if i == 9 {
        MetricId::RequestRate
    } else if i == 10 {
        MetricId::DnsQueriesAllTypes
    } else if i == 11 {
        MetricId::Reply
    } else if i == 12 {
        MetricId::TopQueries
    } else if i == 13 {
        MetricId::TopAds
    } else if i == 14 {
        MetricId::TopSources
    } else if i == 15 {
        MetricId::ForwardDestinations
    } else if i == 16 {
        MetricId::ForwardDestinationsResponseTime
    } else if i == 17 {
        MetricId::ForwardDestinationsResponseVariance
    } else if i == 18 {
        MetricId::QueryTypes
    } else if i == 19 {
        MetricId::Status
    } else if i == 20 {
        MetricId::QueryStatus
    } else if i == 21 {
        MetricId::GravityLastUpdate
    } else if i == 22 {
        MetricId::GravityAgeSeconds
    } else if i == 23 {
        MetricId::QueriesLast10min
    } else if i == 24 {
        MetricId::AdsLast10min
    } else if i == 25 {
        MetricId::History
    } else if i == 26 {
        MetricId::BlockingTimerSeconds
    } else if i == 27 {
        MetricId::UpstreamForwardedQueries
    } else if i == 28 {
        MetricId::UpstreamTotalQueries
    } else if i == 29 {
        MetricId::ApiSummaryTookSeconds
    } else if i == 30 {
        MetricId::VersionInfo
    } else if i == 31 {
        MetricId::FtlUptimeSeconds
    } else if i == 32 {
        MetricId::FtlPid
    } else if i == 33 {
        MetricId::FtlMemPercent
    } else if i == 34 {
        MetricId::FtlCpuPercent
    } else if i == 35 {
        MetricId::FtlQueryFrequency
    } else if i == 36 {
        MetricId::FtlPrivacyLevel
    } else if i == 37 {
        MetricId::FtlDatabaseGravity
    } else if i == 38 {
        MetricId::FtlDatabaseGroups
    } else if i == 39 {
        MetricId::FtlDatabaseLists
    } else if i == 40 {
        MetricId::FtlDatabaseClients
    } else if i == 41 {
        MetricId::SystemUptimeSeconds
    } else if i == 42 {
        MetricId::SystemRamTotalKb
    } else if i == 43 {
        MetricId::SystemRamFreeKb
    } else if i == 44 {
        MetricId::SystemRamUsedKb
    } else if i == 45 {
        MetricId::SystemRamAvailableKb
    } else if i == 46 {
        MetricId::SystemRamUsedPercent
    } else if i == 47 {
        MetricId::SystemSwapTotalKb
    } else if i == 48 {
        MetricId::SystemSwapFreeKb
    } else if i == 49 {
        MetricId::SystemSwapUsedKb
    } else if i == 50 {
        MetricId::SystemSwapUsedPercent
    } else if i == 51 {
        MetricId::SystemCpuPercent
    } else if i == 52 {
        MetricId::SystemCpuNprocs
    } else if i == 53 {
        MetricId::SystemLoad
    } else if i == 54 {
        MetricId::SystemFtlMemPercent
    } else if i == 55 {
        MetricId::SystemFtlCpuPercent
    } else if i == 56 {
        MetricId::DatabaseSizeBytes
    } else if i == 57 {
        MetricId::DatabaseQueries
    } else if i == 58 {
        MetricId::DatabaseEarliestTimestamp
    } else if i == 59 {
        MetricId::DatabaseQueriesDisk
    } else if i == 60 {
        MetricId::DatabaseEarliestTimestampDisk
    } else if i == 61 {
        MetricId::CpuTemp
    } else if i == 62 {
        MetricId::CpuTempHotLimit
    } else if i == 63 {
        MetricId::ScrapeSuccess
    } else if i == 64 {
        MetricId::ScrapeDurationSeconds
    } else {
        MetricId::LastScrapeTimestamp
    }
}

impl MetricId {
    /// The position of the gauge in the catalogue.
    pub fn position(&self) -> (r: usize)
        ensures
            r == metric_index(*self),
            r < NUM_METRICS,
    {
        match self {
            MetricId::DomainsBlocked => 0,
            MetricId::DnsQueriesToday => 1,
            MetricId::AdsBlockedToday => 2,
            MetricId::AdsPercentageToday => 3,
            MetricId::UniqueDomains => 4,
            MetricId::QueriesForwarded => 5,
            MetricId::QueriesCached => 6,
            MetricId::ClientsEverSeen => 7,
            MetricId::UniqueClients => 8,
            MetricId::RequestRate => 9,
            MetricId::DnsQueriesAllTypes => 10,
            MetricId::Reply => 11,
            MetricId::TopQueries => 12,
            MetricId::TopAds => 13,
            MetricId::TopSources => 14,
            MetricId::ForwardDestinations => 15,
            MetricId::ForwardDestinationsResponseTime => 16,
            MetricId::ForwardDestinationsResponseVariance => 17,
            MetricId::QueryTypes => 18,
            MetricId::Status => 19,
            MetricId::QueryStatus => 20,
            MetricId::GravityLastUpdate => 21,
            MetricId::GravityAgeSeconds => 22,
            MetricId::QueriesLast10min => 23,
            MetricId::AdsLast10min => 24,
            MetricId::History => 25,
            MetricId::BlockingTimerSeconds => 26,
            MetricId::UpstreamForwardedQueries => 27,
            MetricId::UpstreamTotalQueries => 28,
            MetricId::ApiSummaryTookSeconds => 29,
            MetricId::VersionInfo => 30,
            MetricId::FtlUptimeSeconds => 31,
            MetricId::FtlPid => 32,
            MetricId::FtlMemPercent => 33,
            MetricId::FtlCpuPercent => 34,
            MetricId::FtlQueryFrequency => 35,
            MetricId::FtlPrivacyLevel => 36,
            MetricId::FtlDatabaseGravity => 37,
            MetricId::FtlDatabaseGroups => 38,
            MetricId::FtlDatabaseLists => 39,
            MetricId::FtlDatabaseClients => 40,
            MetricId::SystemUptimeSeconds => 41,
            MetricId::SystemRamTotalKb => 42,
            MetricId::SystemRamFreeKb => 43,
            MetricId::SystemRamUsedKb => 44,
            MetricId::SystemRamAvailableKb => 45,
            MetricId::SystemRamUsedPercent => 46,
            MetricId::SystemSwapTotalKb => 47,
            MetricId::SystemSwapFreeKb => 48,
            MetricId::SystemSwapUsedKb => 49,
            MetricId::SystemSwapUsedPercent => 50,
            MetricId::SystemCpuPercent => 51,
            MetricId::SystemCpuNprocs => 52,
            MetricId::SystemLoad => 53,
            MetricId::SystemFtlMemPercent => 54,
            MetricId::SystemFtlCpuPercent => 55,
            MetricId::DatabaseSizeBytes => 56,
            MetricId::DatabaseQueries => 57,
            MetricId::DatabaseEarliestTimestamp => 58,
            MetricId::DatabaseQueriesDisk => 59,
            MetricId::DatabaseEarliestTimestampDisk => 60,
            MetricId::CpuTemp => 61,
            MetricId::CpuTempHotLimit => 62,
            MetricId::ScrapeSuccess => 63,
            MetricId::ScrapeDurationSeconds => 64,
            MetricId::LastScrapeTimestamp => 65,
        }
    }

    /// The name of the gauge, without the namespace.
    pub fn name(&self) -> (r: &'static str)
        ensures
            r@ == metric_name_spec(*self),
    {
        match self {
            MetricId::DomainsBlocked => "domains_being_blocked",
            MetricId::DnsQueriesToday => "dns_queries_today",
            MetricId::AdsBlockedToday => "ads_blocked_today",
            MetricId::AdsPercentageToday => "ads_percentage_today",
            MetricId::UniqueDomains => "unique_domains",
            MetricId::QueriesForwarded => "queries_forwarded",
            MetricId::QueriesCached => "queries_cached",
            MetricId::ClientsEverSeen => "clients_ever_seen",
            MetricId::UniqueClients => "unique_clients",
            MetricId::RequestRate => "request_rate",
            MetricId::DnsQueriesAllTypes => "dns_queries_all_types",
            MetricId::Reply => "reply",
            MetricId::TopQueries => "top_queries",
            MetricId::TopAds => "top_ads",
            MetricId::TopSources => "top_sources",
            MetricId::ForwardDestinations => "forward_destinations",
            MetricId::ForwardDestinationsResponseTime => "forward_destinations_responsetime",
            MetricId::ForwardDestinationsResponseVariance => "forward_destinations_responsevariance",
            MetricId::QueryTypes => "querytypes",
            MetricId::Status => "status",
            MetricId::QueryStatus => "query_status",
            MetricId::GravityLastUpdate => "gravity_last_update",
            MetricId::GravityAgeSeconds => "gravity_age_seconds",
            MetricId::QueriesLast10min => "queries_last_10min",
            MetricId::AdsLast10min => "ads_last_10min",
            MetricId::History => "history",
            MetricId::BlockingTimerSeconds => "blocking_timer_seconds",
            MetricId::UpstreamForwardedQueries => "upstream_forwarded_queries",
            MetricId::UpstreamTotalQueries => "upstream_total_queries",
            MetricId::ApiSummaryTookSeconds => "api_summary_took_seconds",
            MetricId::VersionInfo => "version_info",
            MetricId::FtlUptimeSeconds => "ftl_uptime_seconds",
            MetricId::FtlPid => "ftl_pid",
            MetricId::FtlMemPercent => "ftl_mem_percent",
            MetricId::FtlCpuPercent => "ftl_cpu_percent",
            MetricId::FtlQueryFrequency => "ftl_query_frequency",
            MetricId::FtlPrivacyLevel => "ftl_privacy_level",
            MetricId::FtlDatabaseGravity => "ftl_database_gravity",
            MetricId::FtlDatabaseGroups => "ftl_database_groups",
            MetricId::FtlDatabaseLists => "ftl_database_lists",
            MetricId::FtlDatabaseClients => "ftl_database_clients",
            MetricId::SystemUptimeSeconds => "system_uptime_seconds",
            MetricId::SystemRamTotalKb => "system_ram_total_kb",
            MetricId::SystemRamFreeKb => "system_ram_free_kb",
            MetricId::SystemRamUsedKb => "system_ram_used_kb",
            MetricId::SystemRamAvailableKb => "system_ram_available_kb",
            MetricId::SystemRamUsedPercent => "system_ram_used_percent",
            MetricId::SystemSwapTotalKb => "system_swap_total_kb",
            MetricId::SystemSwapFreeKb => "system_swap_free_kb",
            MetricId::SystemSwapUsedKb => "system_swap_used_kb",
            MetricId::SystemSwapUsedPercent => "system_swap_used_percent",
            MetricId::SystemCpuPercent => "system_cpu_percent",
            MetricId::SystemCpuNprocs => "system_cpu_nprocs",
            MetricId::SystemLoad => "system_load",
            MetricId::SystemFtlMemPercent => "system_ftl_mem_percent",
            MetricId::SystemFtlCpuPercent => "system_ftl_cpu_percent",
            MetricId::DatabaseSizeBytes => "database_size_bytes",
            MetricId::DatabaseQueries => "database_queries",
            MetricId::DatabaseEarliestTimestamp => "database_earliest_timestamp",
            MetricId::DatabaseQueriesDisk => "database_queries_disk",
            MetricId::DatabaseEarliestTimestampDisk => "database_earliest_timestamp_disk",
            MetricId::CpuTemp => "cpu_temp",
            MetricId::CpuTempHotLimit => "cpu_temp_hot_limit",
            MetricId::ScrapeSuccess => "scrape_success",
            MetricId::ScrapeDurationSeconds => "scrape_duration_seconds",
            MetricId::LastScrapeTimestamp => "last_scrape_timestamp",
        }
    }

    /// The help text of the gauge.
    pub fn help(&self) -> (r: &'static str)
        ensures
            r@ == metric_help_spec(*self),
    {
        match self {
            MetricId::DomainsBlocked => "This represent the number of domains being blocked",
            MetricId::DnsQueriesToday => "This represent the number of DNS queries made over the current day",
            MetricId::AdsBlockedToday => "This represent the number of ads blocked over the current day",
            MetricId::AdsPercentageToday => "This represent the percentage of ads blocked over the current day",
            MetricId::UniqueDomains => "This represent the number of unique domains seen",
            MetricId::QueriesForwarded => "This represent the number of queries forwarded",
            MetricId::QueriesCached => "This represent the number of queries cached",
            MetricId::ClientsEverSeen => "This represent the number of clients ever seen",
            MetricId::UniqueClients => "This represent the number of unique clients seen in the last 24h",
            MetricId::RequestRate => "This represent the number of requests per second",
            MetricId::DnsQueriesAllTypes => "This represent the number of DNS queries made for all types",
            MetricId::Reply => "This represent the number of replies made for all types",
            MetricId::TopQueries => "This represent the number of top queries made by Pi-hole by domain",
            MetricId::TopAds => "This represent the number of top ads made by Pi-hole by domain",
            MetricId::TopSources => "This represent the number of top sources requests made by Pi-hole by source host",
            MetricId::ForwardDestinations => "This represent the number of forward destinations requests made by Pi-hole by destination",
            MetricId::ForwardDestinationsResponseTime => "This represent the seconds a forward destinations took to process a requests made by Pi-hole",
            MetricId::ForwardDestinationsResponseVariance => "This represent the variants in response time a forward destinations took to process a requests made by Pi-hole",
            MetricId::QueryTypes => "This represent the number of queries made by Pi-hole by type",
            MetricId::Status => "This if Pi-hole is enabled",
            MetricId::QueryStatus => "This represent the number of queries by Pi-hole processing status",
            MetricId::GravityLastUpdate => "Unix timestamp of the last gravity update",
            MetricId::GravityAgeSeconds => "Seconds since the last gravity update",
            MetricId::QueriesLast10min => "This represent the number of queries in the last full slot of 10 minutes",
            MetricId::AdsLast10min => "This represent the number of ads in the last full slot of 10 minutes",
            MetricId::History => "Historical query counts per 10-minute slot over the last 24 hours",
            MetricId::BlockingTimerSeconds => "Seconds until Pi-hole blocking mode reverts when temporarily disabled",
            MetricId::UpstreamForwardedQueries => "Total forwarded queries reported by upstream stats",
            MetricId::UpstreamTotalQueries => "Total queries reported by upstream stats",
            MetricId::ApiSummaryTookSeconds => "Time Pi-hole took to generate the stats summary response",
            MetricId::VersionInfo => "Pi-hole component version information (value is always 1)",
            MetricId::FtlUptimeSeconds => "Pi-hole FTL process uptime in seconds",
            MetricId::FtlPid => "Pi-hole FTL process ID",
            MetricId::FtlMemPercent => "Pi-hole FTL memory usage percent",
            MetricId::FtlCpuPercent => "Pi-hole FTL CPU usage percent",
            MetricId::FtlQueryFrequency => "Pi-hole FTL query frequency",
            MetricId::FtlPrivacyLevel => "Pi-hole FTL privacy level",
            MetricId::FtlDatabaseGravity => "Gravity domains in FTL database stats",
            MetricId::FtlDatabaseGroups => "Groups in FTL database stats",
            MetricId::FtlDatabaseLists => "Lists in FTL database stats",
            MetricId::FtlDatabaseClients => "Clients in FTL database stats",
            MetricId::SystemUptimeSeconds => "Host system uptime in seconds",
            MetricId::SystemRamTotalKb => "Host RAM total in kilobytes",
            MetricId::SystemRamFreeKb => "Host RAM free in kilobytes",
            MetricId::SystemRamUsedKb => "Host RAM used in kilobytes",
            MetricId::SystemRamAvailableKb => "Host RAM available in kilobytes",
            MetricId::SystemRamUsedPercent => "Host RAM used percent",
            MetricId::SystemSwapTotalKb => "Host swap total in kilobytes",
            MetricId::SystemSwapFreeKb => "Host swap free in kilobytes",
            MetricId::SystemSwapUsedKb => "Host swap used in kilobytes",
            MetricId::SystemSwapUsedPercent => "Host swap used percent",
            MetricId::SystemCpuPercent => "Host CPU usage percent",
            MetricId::SystemCpuNprocs => "Host CPU processor count",
            MetricId::SystemLoad => "Host load average",
            MetricId::SystemFtlMemPercent => "FTL memory usage percent from system info",
            MetricId::SystemFtlCpuPercent => "FTL CPU usage percent from system info",
            MetricId::DatabaseSizeBytes => "Pi-hole query database size in bytes",
            MetricId::DatabaseQueries => "Queries stored in the in-memory database",
            MetricId::DatabaseEarliestTimestamp => "Earliest query timestamp in the in-memory database",
            MetricId::DatabaseQueriesDisk => "Queries stored on disk",
            MetricId::DatabaseEarliestTimestampDisk => "Earliest query timestamp on disk",
            MetricId::CpuTemp => "CPU temperature reported by Pi-hole sensors",
            MetricId::CpuTempHotLimit => "CPU temperature hot limit",
            MetricId::ScrapeSuccess => "Whether the last metrics scrape from Pi-hole succeeded (1 = yes, 0 = no)",
            MetricId::ScrapeDurationSeconds => "Duration of the last Pi-hole metrics scrape in seconds",
            MetricId::LastScrapeTimestamp => "Unix timestamp of the last successful metrics scrape",
        }
    }

    /// The label set of the gauge.
    pub fn label_set(&self) -> (r: LabelSet)
        ensures
            r == metric_label_set(*self),
    {
        match self {
            MetricId::DomainsBlocked => LabelSet::Host,
            MetricId::DnsQueriesToday => LabelSet::Host,
            MetricId::AdsBlockedToday => LabelSet::Host,
            MetricId::AdsPercentageToday => LabelSet::Host,
            MetricId::UniqueDomains => LabelSet::Host,
            MetricId::QueriesForwarded => LabelSet::Host,
            MetricId::QueriesCached => LabelSet::Host,
            MetricId::ClientsEverSeen => LabelSet::Host,
            MetricId::UniqueClients => LabelSet::Host,
            MetricId::RequestRate => LabelSet::Host,
            MetricId::DnsQueriesAllTypes => LabelSet::Host,
            MetricId::Reply => LabelSet::HostType,
            MetricId::TopQueries => LabelSet::HostDomain,
            MetricId::TopAds => LabelSet::HostDomain,
            MetricId::TopSources => LabelSet::HostSourceSourceName,
            MetricId::ForwardDestinations => LabelSet::HostDestinationDestinationNamePort,
            MetricId::ForwardDestinationsResponseTime => LabelSet::HostDestinationDestinationNamePort,
            MetricId::ForwardDestinationsResponseVariance => LabelSet::HostDestinationDestinationNamePort,
            MetricId::QueryTypes => LabelSet::HostType,
            MetricId::Status => LabelSet::Host,
            MetricId::QueryStatus => LabelSet::HostStatus,
            MetricId::GravityLastUpdate => LabelSet::Host,
            MetricId::GravityAgeSeconds => LabelSet::Host,
            MetricId::QueriesLast10min => LabelSet::Host,
            MetricId::AdsLast10min => LabelSet::Host,
            MetricId::History => LabelSet::HostTimestampField,
            MetricId::BlockingTimerSeconds => LabelSet::Host,
            MetricId::UpstreamForwardedQueries => LabelSet::Host,
            MetricId::UpstreamTotalQueries => LabelSet::Host,
            MetricId::ApiSummaryTookSeconds => LabelSet::Host,
            MetricId::VersionInfo => LabelSet::HostComponentVersionBranchHash,
            MetricId::FtlUptimeSeconds => LabelSet::Host,
            MetricId::FtlPid => LabelSet::Host,
            MetricId::FtlMemPercent => LabelSet::Host,
            MetricId::FtlCpuPercent => LabelSet::Host,
            MetricId::FtlQueryFrequency => LabelSet::Host,
            MetricId::FtlPrivacyLevel => LabelSet::Host,
            MetricId::FtlDatabaseGravity => LabelSet::Host,
            MetricId::FtlDatabaseGroups => LabelSet::Host,
            MetricId::FtlDatabaseLists => LabelSet::Host,
            MetricId::FtlDatabaseClients => LabelSet::Host,
            MetricId::SystemUptimeSeconds => LabelSet::Host,
            MetricId::SystemRamTotalKb => LabelSet::Host,
            MetricId::SystemRamFreeKb => LabelSet::Host,
            MetricId::SystemRamUsedKb => LabelSet::Host,
            MetricId::SystemRamAvailableKb => LabelSet::Host,
            MetricId::SystemRamUsedPercent => LabelSet::Host,
            MetricId::SystemSwapTotalKb => LabelSet::Host,
            MetricId::SystemSwapFreeKb => LabelSet::Host,
            MetricId::SystemSwapUsedKb => LabelSet::Host,
            MetricId::SystemSwapUsedPercent => LabelSet::Host,
            MetricId::SystemCpuPercent => LabelSet::Host,
            MetricId::SystemCpuNprocs => LabelSet::Host,
            MetricId::SystemLoad => LabelSet::HostPeriod,
            MetricId::SystemFtlMemPercent => LabelSet::Host,
            MetricId::SystemFtlCpuPercent => LabelSet::Host,
            MetricId::DatabaseSizeBytes => LabelSet::Host,
            MetricId::DatabaseQueries => LabelSet::Host,
            MetricId::DatabaseEarliestTimestamp => LabelSet::Host,
            MetricId::DatabaseQueriesDisk => LabelSet::Host,
            MetricId::DatabaseEarliestTimestampDisk => LabelSet::Host,
            MetricId::CpuTemp => LabelSet::HostUnit,
            MetricId::CpuTempHotLimit => LabelSet::HostUnit,
            MetricId::ScrapeSuccess => LabelSet::Host,
            MetricId::ScrapeDurationSeconds => LabelSet::Host,
            MetricId::LastScrapeTimestamp => LabelSet::Host,
        }
    }

    /// The label names of the gauge, in order.
    pub fn label_names(&self) -> (r: Vec<&'static str>)
        ensures
            r@.map_values(|s: &'static str| s@) == metric_labels_spec(*self),
    {
        self.label_set().names()
    }
}

impl LabelSet {
    /// The label names, in order.
    pub fn names(&self) -> (r: Vec<&'static str>)
        ensures
            r@.map_values(|s: &'static str| s@) == label_names_spec(*self),
    {
        let mut v: Vec<&'static str> = Vec::new();
        match self {
            LabelSet::Host => {
                v.push("hostname");
            },
            LabelSet::HostType => {
                v.push("hostname");
                v.push("type");
            },
            LabelSet::HostDomain => {
                v.push("hostname");
                v.push("domain");
            },
            LabelSet::HostSourceSourceName => {
                v.push("hostname");
                v.push("source");
                v.push("source_name");
            },
            LabelSet::HostDestinationDestinationNamePort => {
                v.push("hostname");
                v.push("destination");
                v.push("destination_name");
                v.push("port");
            },
            LabelSet::HostStatus => {
                v.push("hostname");
                v.push("status");
            },
            LabelSet::HostTimestampField => {
                v.push("hostname");
                v.push("timestamp");
                v.push("field");
            },
            LabelSet::HostComponentVersionBranchHash => {
                v.push("hostname");
                v.push("component");
                v.push("version");
                v.push("branch");
                v.push("hash");
            },
            LabelSet::HostPeriod => {
                v.push("hostname");
                v.push("period");
            },
            LabelSet::HostUnit => {
                v.push("hostname");
                v.push("unit");
            },
        }
        assert(v@.map_values(|s: &'static str| s@) =~= label_names_spec(*self));
        v
    }
}

/// Every gauge has a position in the catalogue, and the position gives the
/// gauge back.
pub proof fn law_catalogue_positions(id: MetricId)
    ensures
        0 <= metric_index(id) < NUM_METRICS,
        metric_at(metric_index(id)) == id,
{
}

/// The catalogue position of the gauge that bears the name `s`, read from
/// the name's length and three of its characters; -1 for no gauge's name.
spec fn position_of_name(s: Seq<char>) -> int {
    let c4 = if s.len() > 4 { s[4] } else { ' ' };
    let c11 = if s.len() > 11 { s[11] } else { ' ' };
    let c13 = if s.len() > 13 { s[13] } else { ' ' };
    if s.len() == 21 && c4 == 'i' && c11 == 'n' && c13 == '_' {
        0
    } else if s.len() == 17 && c4 == 'q' && c11 == '_' && c13 == 'o' {
        1
    } else if s.len() == 17 && c4 == 'b' && c11 == '_' && c13 == 'o' {
        2
    } else if s.len() == 20 && c4 == 'p' && c11 == 'a' && c13 == 'e' {
        3
    } else if s.len() == 14 && c4 == 'u' && c11 == 'i' && c13 == 's' {
        4
    } else if s.len() == 17 && c4 == 'i' && c11 == 'w' && c13 == 'r' {
        5
    } else if s.len() == 14 && c4 == 'i' && c11 == 'h' && c13 == 'd' {
        6
    } else if s.len() == 17 && c4 == 'n' && c11 == 'r' && c13 == 's' {
        7
    } else if s.len() == 14 && c4 == 'u' && c11 == 'n' && c13 == 's' {
        8
    } else if s.len() == 12 && c4 == 'e' && c11 == 'e' && c13 == ' ' {
        9
    } else if s.len() == 21 && c4 == 'q' && c11 == '_' && c13 == 'l' {
        10
    } else if s.len() == 5 && c4 == 'y' && c11 == ' ' && c13 == ' ' {
        11
    } else if s.len() == 11 && c4 == 'q' && c11 == ' ' && c13 == ' ' {
        12
    } else if s.len() == 7 && c4 == 'a' && c11 == ' ' && c13 == ' ' {
        13
    } else if s.len() == 11 && c4 == 's' && c11 == ' ' && c13 == ' ' {
        14
    } else if s.len() == 20 && c4 == 'a' && c11 == 't' && c13 == 'n' {
        15
    } else if s.len() == 33 && c4 == 'a' && c11 == 't' && c13 == 'n' {
        16
    } else if s.len() == 37 && c4 == 'a' && c11 == 't' && c13 == 'n' {
        17
    } else if s.len() == 10 && c4 == 'y' && c11 == ' ' && c13 == ' ' {
        18
    } else if s.len() == 6 && c4 == 'u' && c11 == ' ' && c13 == ' ' {
        19
    } else if s.len() == 12 && c4 == 'y' && c11 == 's' && c13 == ' ' {
        20
    } else if s.len() == 19 && c4 == 'i' && c11 == 't' && c13 == 'u' {
        21
    } else if s.len() == 19 && c4 == 'i' && c11 == '_' && c13 == 'e' {
        22
    } else if s.len() == 18 && c4 == 'i' && c11 == 't' && c13 == '1' {
        23
    } else if s.len() == 14 && c4 == 'l' && c11 == 'm' && c13 == 'n' {
        24
    } else if s.len() == 7 && c4 == 'o' && c11 == ' ' && c13 == ' ' {
        25
    } else if s.len() == 22 && c4 == 'k' && c11 == 'm' && c13 == 'r' {
        26
    } else if s.len() == 26 && c4 == 'r' && c11 == 'r' && c13 == 'a' {
        27
    } else if s.len() == 22 && c4 == 'r' && c11 == 't' && c13 == 'l' {
        28
    } else if s.len() == 24 && c4 == 's' && c11 == '_' && c13 == 'o' {
        29
    } else if s.len() == 12 && c4 == 'i' && c11 == 'o' && c13 == ' ' {
        30
    } else if s.len() == 18 && c4 == 'u' && c11 == 's' && c13 == 'c' {
        31
    } else if s.len() == 7 && c4 == 'p' && c11 == ' ' && c13 == ' ' {
        32
    } else if s.len() == 15 && c4 == 'm' && c11 == 'c' && c13 == 'n' {
        33
    } else if s.len() == 15 && c4 == 'c' && c11 == 'c' && c13 == 'n' {
        34
    } else if s.len() == 19 && c4 == 'q' && c11 == 'r' && c13 == 'q' {
        35
    } else if s.len() == 17 && c4 == 'p' && c11 == '_' && c13 == 'e' {
        36
    } else if s.len() == 20 && c4 == 'd' && c11 == 'e' && c13 == 'g' {
        37
    } else if s.len() == 19 && c4 == 'd' && c11 == 'e' && c13 == 'g' {
        38
    } else if s.len() == 18 && c4 == 'd' && c11 == 'e' && c13 == 'l' {
        39
    } else if s.len() == 20 && c4 == 'd' && c11 == 'e' && c13 == 'c' {
        40
    } else if s.len() == 21 && c4 == 'e' && c11 == 'm' && c13 == '_' {
        41
    } else if s.len() == 19 && c4 == 'e' && c11 == 't' && c13 == 't' {
        42
    } else if s.len() == 18 && c4 == 'e' && c11 == 'f' && c13 == 'e' {
        43
    } else if s.len() == 18 && c4 == 'e' && c11 == 'u' && c13 == 'e' {
        44
    } else if s.len() == 23 && c4 == 'e' && c11 == 'a' && c13 == 'a' {
        45
    } else if s.len() == 23 && c4 == 'e' && c11 == 'u' && c13 == 'e' {
        46
    } else if s.len() == 20 && c4 == 'e' && c11 == '_' && c13 == 'o' {
        47
    } else if s.len() == 19 && c4 == 'e' && c11 == '_' && c13 == 'r' {
        48
    } else if s.len() == 19 && c4 == 'e' && c11 == '_' && c13 == 's' {
        49
    } else if s.len() == 24 && c4 == 'e' && c11 == '_' && c13 == 's' {
        50
    } else if s.len() == 18 && c4 == 'e' && c11 == 'p' && c13 == 'r' {
        51
    } else if s.len() == 17 && c4 == 'e' && c11 == 'n' && c13 == 'r' {
        52
    } else if s.len() == 11 && c4 == 'e' && c11 == ' ' && c13 == ' ' {
        53
    } else if s.len() == 22 && c4 == 'e' && c11 == 'm' && c13 == 'm' {
        54
    } else if s.len() == 22 && c4 == 'e' && c11 == 'c' && c13 == 'u' {
        55
    } else if s.len() == 19 && c4 == 'b' && c11 == 'z' && c13 == '_' {
        56
    } else if s.len() == 16 && c4 == 'b' && c11 == 'e' && c13 == 'i' {
        57
    } else if s.len() == 27 && c4 == 'b' && c11 == 'r' && c13 == 'i' {
        58
    } else if s.len() == 21 && c4 == 'b' && c11 == 'e' && c13 == 'i' {
        59
    } else if s.len() == 32 && c4 == 'b' && c11 == 'r' && c13 == 'i' {
        60
    } else if s.len() == 8 && c4 == 't' && c11 == ' ' && c13 == ' ' {
        61
    } else if s.len() == 18 && c4 == 't' && c11 == 't' && c13 == 'l' {
        62
    } else if s.len() == 14 && c4 == 'p' && c11 == 'e' && c13 == 's' {
        63
    } else if s.len() == 23 && c4 == 'p' && c11 == 't' && c13 == 'o' {
        64
    } else if s.len() == 21 && c4 == '_' && c11 == '_' && c13 == 'i' {
        65
    } else {
        -1
    }
}

proof fn lemma_position_of_name(id: MetricId)
    ensures
        position_of_name(metric_name_spec(id)) == metric_index(id),
{
    match id {
        MetricId::DomainsBlocked => {
            reveal_strlit("domains_being_blocked");
        },
        MetricId::DnsQueriesToday => {
            reveal_strlit("dns_queries_today");
        },
        MetricId::AdsBlockedToday => {
            reveal_strlit("ads_blocked_today");
        },
        MetricId::AdsPercentageToday => {
            reveal_strlit("ads_percentage_today");
        },
        MetricId::UniqueDomains => {
            reveal_strlit("unique_domains");
        },
        MetricId::QueriesForwarded => {
            reveal_strlit("queries_forwarded");
        },
        MetricId::QueriesCached => {
            reveal_strlit("queries_cached");
        },
        MetricId::ClientsEverSeen => {
            reveal_strlit("clients_ever_seen");
        },
        MetricId::UniqueClients => {
            reveal_strlit("unique_clients");
        },
        MetricId::RequestRate => {
            reveal_strlit("request_rate");
        },
        MetricId::DnsQueriesAllTypes => {
            reveal_strlit("dns_queries_all_types");
        },
        MetricId::Reply => {
            reveal_strlit("reply");
        },
        MetricId::TopQueries => {
            reveal_strlit("top_queries");
        },
        MetricId::TopAds => {
            reveal_strlit("top_ads");
        },
        MetricId::TopSources => {
            reveal_strlit("top_sources");
        },
        MetricId::ForwardDestinations => {
            reveal_strlit("forward_destinations");
        },
        MetricId::ForwardDestinationsResponseTime => {
            reveal_strlit("forward_destinations_responsetime");
        },
        MetricId::ForwardDestinationsResponseVariance => {
            reveal_strlit("forward_destinations_responsevariance");
        },
        MetricId::QueryTypes => {
            reveal_strlit("querytypes");
        },
        MetricId::Status => {
            reveal_strlit("status");
        },
        MetricId::QueryStatus => {
            reveal_strlit("query_status");
        },
        MetricId::GravityLastUpdate => {
            reveal_strlit("gravity_last_update");
        },
        MetricId::GravityAgeSeconds => {
            reveal_strlit("gravity_age_seconds");
        },
        MetricId::QueriesLast10min => {
            reveal_strlit("queries_last_10min");
        },
        MetricId::AdsLast10min => {
            reveal_strlit("ads_last_10min");
        },
        MetricId::History => {
            reveal_strlit("history");
        },
        MetricId::BlockingTimerSeconds => {
            reveal_strlit("blocking_timer_seconds");
        },
        MetricId::UpstreamForwardedQueries => {
            reveal_strlit("upstream_forwarded_queries");
        },
        MetricId::UpstreamTotalQueries => {
            reveal_strlit("upstream_total_queries");
        },
        MetricId::ApiSummaryTookSeconds => {
            reveal_strlit("api_summary_took_seconds");
        },
        MetricId::VersionInfo => {
            reveal_strlit("version_info");
        },
        MetricId::FtlUptimeSeconds => {
            reveal_strlit("ftl_uptime_seconds");
        },
        MetricId::FtlPid => {
            reveal_strlit("ftl_pid");
        },
        MetricId::FtlMemPercent => {
            reveal_strlit("ftl_mem_percent");
        },
        MetricId::FtlCpuPercent => {
            reveal_strlit("ftl_cpu_percent");
        },
        MetricId::FtlQueryFrequency => {
            reveal_strlit("ftl_query_frequency");
        },
        MetricId::FtlPrivacyLevel => {
            reveal_strlit("ftl_privacy_level");
        },
        MetricId::FtlDatabaseGravity => {
            reveal_strlit("ftl_database_gravity");
        },
        MetricId::FtlDatabaseGroups => {
            reveal_strlit("ftl_database_groups");
        },
        MetricId::FtlDatabaseLists => {
            reveal_strlit("ftl_database_lists");
        },
        MetricId::FtlDatabaseClients => {
            reveal_strlit("ftl_database_clients");
        },
        MetricId::SystemUptimeSeconds => {
            reveal_strlit("system_uptime_seconds");
        },
        MetricId::SystemRamTotalKb => {
            reveal_strlit("system_ram_total_kb");
        },
        MetricId::SystemRamFreeKb => {
            reveal_strlit("system_ram_free_kb");
        },
        MetricId::SystemRamUsedKb => {
            reveal_strlit("system_ram_used_kb");
        },
        MetricId::SystemRamAvailableKb => {
            reveal_strlit("system_ram_available_kb");
        },
        MetricId::SystemRamUsedPercent => {
            reveal_strlit("system_ram_used_percent");
        },
        MetricId::SystemSwapTotalKb => {
            reveal_strlit("system_swap_total_kb");
        },
        MetricId::SystemSwapFreeKb => {
            reveal_strlit("system_swap_free_kb");
        },
        MetricId::SystemSwapUsedKb => {
            reveal_strlit("system_swap_used_kb");
        },
        MetricId::SystemSwapUsedPercent => {
            reveal_strlit("system_swap_used_percent");
        },
        MetricId::SystemCpuPercent => {
            reveal_strlit("system_cpu_percent");
        },
        MetricId::SystemCpuNprocs => {
            reveal_strlit("system_cpu_nprocs");
        },
        MetricId::SystemLoad => {
            reveal_strlit("system_load");
        },
        MetricId::SystemFtlMemPercent => {
            reveal_strlit("system_ftl_mem_percent");
        },
        MetricId::SystemFtlCpuPercent => {
            reveal_strlit("system_ftl_cpu_percent");
        },
        MetricId::DatabaseSizeBytes => {
            reveal_strlit("database_size_bytes");
        },
        MetricId::DatabaseQueries => {
            reveal_strlit("database_queries");
        },
        MetricId::DatabaseEarliestTimestamp => {
            reveal_strlit("database_earliest_timestamp");
        },
        MetricId::DatabaseQueriesDisk => {
            reveal_strlit("database_queries_disk");
        },
        MetricId::DatabaseEarliestTimestampDisk => {
            reveal_strlit("database_earliest_timestamp_disk");
        },
        MetricId::CpuTemp => {
            reveal_strlit("cpu_temp");
        },
        MetricId::CpuTempHotLimit => {
            reveal_strlit("cpu_temp_hot_limit");
        },
        MetricId::ScrapeSuccess => {
            reveal_strlit("scrape_success");
        },
        MetricId::ScrapeDurationSeconds => {
            reveal_strlit("scrape_duration_seconds");
        },
        MetricId::LastScrapeTimestamp => {
            reveal_strlit("last_scrape_timestamp");
        },
    }
}

/// Every gauge has a name.
pub proof fn lemma_name_nonempty(id: MetricId)
    ensures
        metric_name_spec(id).len() > 0,
{
    lemma_position_of_name(id);
    law_catalogue_positions(id);
}

/// No two gauges share a name, so each registers once.
pub proof fn law_metric_names_distinct(a: MetricId, b: MetricId)
    requires
        a != b,
    ensures
        metric_name_spec(a) != metric_name_spec(b),
{
    lemma_position_of_name(a);
    lemma_position_of_name(b);
    law_catalogue_positions(a);
    law_catalogue_positions(b);
}

/// Every gauge is labelled with the Pi-hole host first.
pub proof fn law_hostname_label_first(id: MetricId)
    ensures
        metric_labels_spec(id).len() >= 1,
        metric_labels_spec(id)[0] == "hostname"@,
{
}


/// Every gauge of the catalogue, in the order in which they are registered.
pub fn registration_order() -> (r: Vec<MetricId>)
    ensures
        r@.len() == NUM_METRICS,
        forall|i: int| 0 <= i < NUM_METRICS ==> #[trigger] r@[i] == metric_at(i),
{
    let mut r: Vec<MetricId> = Vec::new();
    let mut i: usize = 0;
    while i < NUM_METRICS
        invariant
            i <= NUM_METRICS,
            r@.len() == i,
            forall|j: int| 0 <= j < i ==> #[trigger] r@[j] == metric_at(j),
        decreases NUM_METRICS - i,
    {
        r.push(metric_id_at(i));
        i = i + 1;
    }
    r
}

/// The label names of every gauge, in the order in which its readings give
/// their values.
pub proof fn law_gauge_label_names()
    ensures
        metric_labels_spec(MetricId::DomainsBlocked) == seq!["hostname"@],
        metric_labels_spec(MetricId::DnsQueriesToday) == seq!["hostname"@],
        metric_labels_spec(MetricId::AdsBlockedToday) == seq!["hostname"@],
        metric_labels_spec(MetricId::AdsPercentageToday) == seq!["hostname"@],
        metric_labels_spec(MetricId::UniqueDomains) == seq!["hostname"@],
        metric_labels_spec(MetricId::QueriesForwarded) == seq!["hostname"@],
        metric_labels_spec(MetricId::QueriesCached) == seq!["hostname"@],
        metric_labels_spec(MetricId::ClientsEverSeen) == seq!["hostname"@],
        metric_labels_spec(MetricId::UniqueClients) == seq!["hostname"@],
        metric_labels_spec(MetricId::RequestRate) == seq!["hostname"@],
        metric_labels_spec(MetricId::DnsQueriesAllTypes) == seq!["hostname"@],
        metric_labels_spec(MetricId::Reply) == seq!["hostname"@, "type"@],
        metric_labels_spec(MetricId::TopQueries) == seq!["hostname"@, "domain"@],
        metric_labels_spec(MetricId::TopAds) == seq!["hostname"@, "domain"@],
        metric_labels_spec(MetricId::TopSources) == seq!["hostname"@, "source"@, "source_name"@],
        metric_labels_spec(MetricId::ForwardDestinations) == seq!["hostname"@, "destination"@, "destination_name"@, "port"@],
        metric_labels_spec(MetricId::ForwardDestinationsResponseTime) == seq!["hostname"@, "destination"@, "destination_name"@, "port"@],
        metric_labels_spec(MetricId::ForwardDestinationsResponseVariance) == seq!["hostname"@, "destination"@, "destination_name"@, "port"@],
        metric_labels_spec(MetricId::QueryTypes) == seq!["hostname"@, "type"@],
        metric_labels_spec(MetricId::Status) == seq!["hostname"@],
        metric_labels_spec(MetricId::QueryStatus) == seq!["hostname"@, "status"@],
        metric_labels_spec(MetricId::GravityLastUpdate) == seq!["hostname"@],
        metric_labels_spec(MetricId::GravityAgeSeconds) == seq!["hostname"@],
        metric_labels_spec(MetricId::QueriesLast10min) == seq!["hostname"@],
        metric_labels_spec(MetricId::AdsLast10min) == seq!["hostname"@],
        metric_labels_spec(MetricId::History) == seq!["hostname"@, "timestamp"@, "field"@],
        metric_labels_spec(MetricId::BlockingTimerSeconds) == seq!["hostname"@],
        metric_labels_spec(MetricId::UpstreamForwardedQueries) == seq!["hostname"@],
        metric_labels_spec(MetricId::UpstreamTotalQueries) == seq!["hostname"@],
        metric_labels_spec(MetricId::ApiSummaryTookSeconds) == seq!["hostname"@],
        metric_labels_spec(MetricId::VersionInfo) == seq!["hostname"@, "component"@, "version"@, "branch"@, "hash"@],
        metric_labels_spec(MetricId::FtlUptimeSeconds) == seq!["hostname"@],
        metric_labels_spec(MetricId::FtlPid) == seq!["hostname"@],
        metric_labels_spec(MetricId::FtlMemPercent) == seq!["hostname"@],
        metric_labels_spec(MetricId::FtlCpuPercent) == seq!["hostname"@],
        metric_labels_spec(MetricId::FtlQueryFrequency) == seq!["hostname"@],
        metric_labels_spec(MetricId::FtlPrivacyLevel) == seq!["hostname"@],
        metric_labels_spec(MetricId::FtlDatabaseGravity) == seq!["hostname"@],
        metric_labels_spec(MetricId::FtlDatabaseGroups) == seq!["hostname"@],
        metric_labels_spec(MetricId::FtlDatabaseLists) == seq!["hostname"@],
        metric_labels_spec(MetricId::FtlDatabaseClients) == seq!["hostname"@],
        metric_labels_spec(MetricId::SystemUptimeSeconds) == seq!["hostname"@],
        metric_labels_spec(MetricId::SystemRamTotalKb) == seq!["hostname"@],
        metric_labels_spec(MetricId::SystemRamFreeKb) == seq!["hostname"@],
        metric_labels_spec(MetricId::SystemRamUsedKb) == seq!["hostname"@],
        metric_labels_spec(MetricId::SystemRamAvailableKb) == seq!["hostname"@],
        metric_labels_spec(MetricId::SystemRamUsedPercent) == seq!["hostname"@],
        metric_labels_spec(MetricId::SystemSwapTotalKb) == seq!["hostname"@],
        metric_labels_spec(MetricId::SystemSwapFreeKb) == seq!["hostname"@],
        metric_labels_spec(MetricId::SystemSwapUsedKb) == seq!["hostname"@],
        metric_labels_spec(MetricId::SystemSwapUsedPercent) == seq!["hostname"@],
        metric_labels_spec(MetricId::SystemCpuPercent) == seq!["hostname"@],
        metric_labels_spec(MetricId::SystemCpuNprocs) == seq!["hostname"@],
        metric_labels_spec(MetricId::SystemLoad) == seq!["hostname"@, "period"@],
        metric_labels_spec(MetricId::SystemFtlMemPercent) == seq!["hostname"@],
        metric_labels_spec(MetricId::SystemFtlCpuPercent) == seq!["hostname"@],
        metric_labels_spec(MetricId::DatabaseSizeBytes) == seq!["hostname"@],
        metric_labels_spec(MetricId::DatabaseQueries) == seq!["hostname"@],
        metric_labels_spec(MetricId::DatabaseEarliestTimestamp) == seq!["hostname"@],
        metric_labels_spec(MetricId::DatabaseQueriesDisk) == seq!["hostname"@],
        metric_labels_spec(MetricId::DatabaseEarliestTimestampDisk) == seq!["hostname"@],
        metric_labels_spec(MetricId::CpuTemp) == seq!["hostname"@, "unit"@],
        metric_labels_spec(MetricId::CpuTempHotLimit) == seq!["hostname"@, "unit"@],
        metric_labels_spec(MetricId::ScrapeSuccess) == seq!["hostname"@],
        metric_labels_spec(MetricId::ScrapeDurationSeconds) == seq!["hostname"@],
        metric_labels_spec(MetricId::LastScrapeTimestamp) == seq!["hostname"@],
{
}

} // verus!
