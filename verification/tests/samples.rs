use pihole_exporter::catalog::MetricId;
use pihole_exporter::info::{ComponentVersions, VersionDetail, VersionInfo, VersionResponse};
use pihole_exporter::model::{
    ClientStats, DomainCount, GravityStats, HistoryResponse, HistorySlot, PiHoleClient, ReplyStats,
    TopDomains,
};
use pihole_exporter::samples::{
    load_period_label, scrape_samples, sensor_unit_label, scrape_success_sample, summary_line, DatabaseCounts, FtlCounts, QueryCounts,
    Sample, ScrapeCounts, StatusCount, SummaryCounts, SystemCounts, UpstreamCount, UpstreamCounts,
};

fn replies() -> ReplyStats {
    ReplyStats {
        UNKNOWN: 1,
        NODATA: 2,
        NXDOMAIN: 3,
        CNAME: 4,
        IP: 5,
        DOMAIN: 6,
        RRNAME: 7,
        SERVFAIL: 8,
        REFUSED: 9,
        NOTIMP: 10,
        OTHER: 11,
        DNSSEC: 12,
        NONE: 13,
        BLOB: 14,
    }
}

fn minimal(last_update: i64, blocking: &str) -> ScrapeCounts {
    ScrapeCounts {
        stats: SummaryCounts {
            queries: QueryCounts {
                total: 100,
                blocked: 20,
                unique_domains: 30,
                forwarded: 40,
                cached: 50,
                status: vec![StatusCount { status: "GRAVITY".to_string(), count: 7 }],
                replies: replies(),
            },
            clients: ClientStats { active: 3, total: 9 },
            gravity: GravityStats { domains_being_blocked: 1000, last_update },
        },
        blocking: blocking.to_string(),
        blocked_domains: TopDomains { domains: vec![DomainCount { domain: "ads.example".to_string(), count: 5 }] },
        permitted_domains: TopDomains { domains: vec![] },
        clients: vec![PiHoleClient { ip: "10.0.0.1".to_string(), name: "lap".to_string(), count: 6 }],
        upstreams: UpstreamCounts {
            upstreams: vec![
                UpstreamCount { ip: "1.1.1.1".to_string(), name: "one".to_string(), port: 53, count: 11 },
                UpstreamCount { ip: "cache".to_string(), name: "cache".to_string(), port: -1, count: 12 },
            ],
            forwarded_queries: 21,
            total_queries: 22,
        },
        history: None,
        version: None,
        ftl: None,
        system: None,
        database: None,
    }
}

fn find<'a>(samples: &'a [Sample], metric: MetricId) -> Vec<&'a Sample> {
    samples.iter().filter(|s| s.metric == metric).collect()
}

#[test]
fn summary_counters() {
    let s = scrape_samples("pi", &minimal(0, "enabled"), 1_000);
    let q = find(&s, MetricId::DnsQueriesToday);
    assert_eq!(q.len(), 1);
    assert_eq!(q[0].value, 100);
    assert_eq!(q[0].labels, vec!["pi".to_string()]);
    assert_eq!(find(&s, MetricId::DnsQueriesAllTypes)[0].value, 100);
    assert_eq!(find(&s, MetricId::AdsBlockedToday)[0].value, 20);
    assert_eq!(find(&s, MetricId::DomainsBlocked)[0].value, 1000);
    assert_eq!(find(&s, MetricId::UniqueClients)[0].value, 3);
    assert_eq!(find(&s, MetricId::ClientsEverSeen)[0].value, 9);
    assert!(find(&s, MetricId::GravityLastUpdate).is_empty());
    assert_eq!(find(&s, MetricId::Status)[0].value, 1);
    assert_eq!(s[0].metric, MetricId::DomainsBlocked);
}

#[test]
fn gravity_age_and_status() {
    let s = scrape_samples("pi", &minimal(400, "disabled"), 1_000);
    assert_eq!(find(&s, MetricId::GravityLastUpdate)[0].value, 400);
    assert_eq!(find(&s, MetricId::GravityAgeSeconds)[0].value, 600);
    assert_eq!(find(&s, MetricId::Status)[0].value, 0);
    let st = find(&s, MetricId::QueryStatus);
    assert_eq!(st[0].labels, vec!["pi".to_string(), "gravity".to_string()]);
    assert_eq!(st[0].value, 7);
}

#[test]
fn replies_and_lists() {
    let s = scrape_samples("pi", &minimal(0, "enabled"), 0);
    let r = find(&s, MetricId::Reply);
    assert_eq!(r.len(), 14);
    assert_eq!(r[1].labels[1], "no_data");
    assert_eq!(r[1].value, 2);
    assert_eq!(r[13].labels[1], "blob");
    assert_eq!(r[13].value, 14);
    assert!(find(&s, MetricId::TopQueries).is_empty());
    let ads = find(&s, MetricId::TopAds);
    assert_eq!(ads[0].labels, vec!["pi".to_string(), "ads.example".to_string()]);
    let src = find(&s, MetricId::TopSources);
    assert_eq!(src[0].labels, vec!["pi".to_string(), "10.0.0.1".to_string(), "lap".to_string()]);
    let fwd = find(&s, MetricId::ForwardDestinations);
    assert_eq!(fwd[0].labels[3], "53");
    assert_eq!(fwd[1].labels[3], "");
    assert_eq!(fwd[1].value, 12);
    assert_eq!(find(&s, MetricId::UpstreamTotalQueries)[0].value, 22);
}

#[test]
fn optional_sections() {
    let mut d = minimal(0, "enabled");
    d.history = Some(HistoryResponse {
        history: vec![
            HistorySlot { timestamp: 600, total: 1, cached: 2, blocked: 3, forwarded: 4 },
            HistorySlot { timestamp: 1200, total: 10, cached: 20, blocked: 30, forwarded: 40 },
        ],
    });
    d.version = Some(VersionResponse {
        version: VersionInfo {
            core: ComponentVersions {
                local: Some(VersionDetail { version: Some("v6.0".to_string()), branch: Some("master".to_string()), hash: None }),
                remote: None,
            },
            web: ComponentVersions { local: None, remote: None },
            ftl: ComponentVersions { local: None, remote: None },
            docker: Some(ComponentVersions {
                local: Some(VersionDetail { version: None, branch: None, hash: None }),
                remote: None,
            }),
        },
    });
    d.ftl = Some(FtlCounts { pid: 42, privacy_level: 0, database: None });
    d.system = Some(SystemCounts { nprocs: 4 });
    d.database = Some(DatabaseCounts { size: 1, queries: 2, queries_disk: 3 });
    let s = scrape_samples("pi", &d, 0);
    let h = find(&s, MetricId::History);
    assert_eq!(h.len(), 8);
    assert_eq!(h[0].labels, vec!["pi".to_string(), "600".to_string(), "total".to_string()]);
    assert_eq!(h[5].labels[2], "blocked");
    assert_eq!(h[5].value, 30);
    assert_eq!(find(&s, MetricId::QueriesLast10min)[0].value, 10);
    assert_eq!(find(&s, MetricId::AdsLast10min)[0].value, 30);
    let v = find(&s, MetricId::VersionInfo);
    assert_eq!(v.len(), 2);
    assert_eq!(
        v[0].labels,
        vec!["pi", "core_local", "v6.0", "master", ""].iter().map(|x| x.to_string()).collect::<Vec<_>>()
    );
    assert_eq!(v[1].labels[1], "docker_local");
    assert_eq!(v[1].labels[2], "unknown");
    assert_eq!(v[1].value, 1);
    assert_eq!(find(&s, MetricId::FtlPid)[0].value, 42);
    assert!(find(&s, MetricId::FtlDatabaseGravity).is_empty());
    assert_eq!(find(&s, MetricId::SystemCpuNprocs)[0].value, 4);
    assert_eq!(find(&s, MetricId::DatabaseQueriesDisk)[0].value, 3);
}

#[test]
fn every_sample_matches_its_label_names() {
    let s = scrape_samples("pi", &minimal(5, "enabled"), 10);
    for sample in &s {
        assert_eq!(sample.labels.len(), sample.metric.label_names().len());
        assert_eq!(sample.labels[0], "pi");
    }
}

#[test]
fn success_sample_and_summary_line() {
    let s = scrape_success_sample("pi", true);
    assert_eq!((s.metric, s.value), (MetricId::ScrapeSuccess, 1));
    assert_eq!(scrape_success_sample("pi", false).value, 0);
    let q = minimal(0, "enabled").stats.queries;
    assert_eq!(summary_line(&q), "20 ads blocked / 100 total DNS queries");
}

#[test]
fn load_and_unit_labels() {
    assert_eq!(load_period_label(0, false), Some("1".to_string()));
    assert_eq!(load_period_label(1, false), Some("5".to_string()));
    assert_eq!(load_period_label(2, true), Some("15_percent".to_string()));
    assert_eq!(load_period_label(3, false), None);
    assert_eq!(sensor_unit_label(&None), "C");
    assert_eq!(sensor_unit_label(&Some("F".to_string())), "F");
}
