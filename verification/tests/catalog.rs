use pihole_exporter::catalog::{metric_id_at, namespace, registration_order, MetricId, NUM_METRICS};
use pihole_exporter::collect::{
    endpoint_url, first_failed_fetch, stage_failure_message, FetchStage, RequiredFetches,
};
use pihole_exporter::info::{version_entry_into_detail, VersionDetail, VersionEntry};

#[test]
fn catalogue_names_and_labels() {
    assert_eq!(namespace(), "pihole");
    assert_eq!(MetricId::DomainsBlocked.name(), "domains_being_blocked");
    assert_eq!(MetricId::ForwardDestinationsResponseTime.name(), "forward_destinations_responsetime");
    assert_eq!(MetricId::Status.help(), "This if Pi-hole is enabled");
    assert_eq!(MetricId::TopSources.label_names(), vec!["hostname", "source", "source_name"]);
    assert_eq!(
        MetricId::VersionInfo.label_names(),
        vec!["hostname", "component", "version", "branch", "hash"]
    );
}

#[test]
fn registration_order_covers_each_metric_once() {
    let order = registration_order();
    assert_eq!(order.len(), NUM_METRICS);
    assert_eq!(order[0], MetricId::DomainsBlocked);
    assert_eq!(order[NUM_METRICS - 1], MetricId::LastScrapeTimestamp);
    let mut names: Vec<&str> = order.iter().map(|m| m.name()).collect();
    names.sort();
    names.dedup();
    assert_eq!(names.len(), NUM_METRICS);
    for (i, m) in order.iter().enumerate() {
        assert_eq!(metric_id_at(i), *m);
        assert_eq!(m.label_names()[0], "hostname");
    }
}

#[test]
fn first_failed_fetch_order() {
    let all = RequiredFetches {
        stats: true,
        blocked_domains: true,
        permitted_domains: true,
        blocked_clients: true,
        permitted_clients: true,
        upstreams: true,
        status: true,
    };
    assert_eq!(first_failed_fetch(&all), None);
    let f = RequiredFetches { blocked_clients: false, permitted_clients: false, ..all };
    assert_eq!(first_failed_fetch(&f), Some(FetchStage::PermittedClients));
    let f = RequiredFetches { status: false, stats: false, ..all };
    assert_eq!(first_failed_fetch(&f), Some(FetchStage::StatsSummary));
    assert_eq!(
        endpoint_url("http://pi:80", FetchStage::Upstreams.endpoint()),
        "http://pi:80/api/stats/upstreams"
    );
}

#[test]
fn bare_version_string_becomes_detail() {
    let d = version_entry_into_detail(VersionEntry::VersionOnly("2026.05.0".to_string()));
    assert_eq!(d.version, Some("2026.05.0".to_string()));
    assert_eq!(d.branch, None);
    assert_eq!(d.hash, None);
    let d = version_entry_into_detail(VersionEntry::Detail(VersionDetail {
        version: Some("v6".to_string()),
        branch: Some("b".to_string()),
        hash: Some("h".to_string()),
    }));
    assert_eq!(d.hash, Some("h".to_string()));
}

#[test]
fn stage_failures_name_the_step() {
    assert_eq!(
        stage_failure_message(FetchStage::Auth, "authentication failed, status code: 401"),
        "authentication failed: authentication failed, status code: 401"
    );
    assert_eq!(
        stage_failure_message(FetchStage::Upstreams, "non-200 status code: 500"),
        "error fetching upstream stats: non-200 status code: 500"
    );
    assert_eq!(
        stage_failure_message(FetchStage::PermittedClients, "x"),
        "error fetching permitted clients: x"
    );
    assert_eq!(stage_failure_message(FetchStage::Status, ""), "error fetching status: ");
}
