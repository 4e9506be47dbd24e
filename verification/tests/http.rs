use pihole_exporter::http::{
    combine_scrape_errors, host_error_message, host_timeout_message, index_text, liveness_reply,
    metrics_after_scrape, render_reply, scrape_outcome, HostOutcome, scrape_refused_reply, serve_mode, task_failure_message, upstream_health_reply,
    ServeMode,
};
use pihole_exporter::catalog::{MetricId, NUM_METRICS};
use pihole_exporter::metrics::{encode_metrics, render_encoded, GaugeRegistry, RenderError};
use pihole_exporter::upstream::UpstreamHealth;

#[test]
fn liveness_always_ok_reply() {
    let r = liveness_reply();
    assert_eq!(r.status, 200);
    assert_eq!(r.body, "ok");
}

#[test]
fn health_reply_follows_status() {
    let r = upstream_health_reply(&Ok(()));
    assert_eq!((r.status, r.body.as_str()), (200, "ok"));
    let r = upstream_health_reply(&Err("no successful fetch yet".to_string()));
    assert_eq!(r.status, 503);
    assert_eq!(r.body, "error: upstream unavailable: no successful fetch yet");
}

#[test]
fn metrics_replies() {
    let r = scrape_refused_reply("boom");
    assert_eq!(r.status, 503);
    assert_eq!(r.body, "failed to fetch upstream data: boom");
    let r = render_reply(Ok("# HELP x\n".to_string()));
    assert_eq!((r.status, r.body.as_str()), (200, "# HELP x\n"));
    let r = render_reply(Err("bad".to_string()));
    assert_eq!(r.status, 500);
    assert_eq!(r.body, "failed to render metrics: bad");
}

#[test]
fn scrape_errors_combine() {
    assert_eq!(combine_scrape_errors(&vec![]), Ok(()));
    let errors = vec![
        host_error_message("a", "authentication failed: x"),
        host_timeout_message("b"),
        task_failure_message("panicked"),
    ];
    assert_eq!(
        combine_scrape_errors(&errors),
        Err("failed to collect metrics from Pi-hole:\na: authentication failed: x\nb: metrics collection timed out\nmetrics collection task failed: panicked".to_string())
    );
    assert_eq!(
        combine_scrape_errors(&vec!["one".to_string()]),
        Err("failed to collect metrics from Pi-hole:\none".to_string())
    );
}

#[test]
fn serve_mode_needs_both_files() {
    assert_eq!(serve_mode(true, true), Ok(ServeMode::Tls));
    assert_eq!(serve_mode(false, false), Ok(ServeMode::Plain));
    assert!(serve_mode(true, false).is_err());
    assert_eq!(
        serve_mode(false, true).unwrap_err(),
        "TLS requires both tls_cert_file and tls_key_file; set both or omit entirely"
    );
}

#[test]
fn index_lists_endpoints() {
    let t = index_text();
    assert!(t.starts_with("pihole-exporter\n"));
    assert!(t.contains("\n/liveness   process liveness probe (always ok)\n"));
    assert_eq!(
        t,
        "pihole-exporter\n\n/metrics    Prometheus text format (503 when upstream fetch failed)\n/healthz    upstream readiness probe (ok or 503)\n/readiness  upstream readiness probe (ok or 503)\n/liveness   process liveness probe (always ok)\n"
    );
}

#[test]
fn liveness_always_ok() {
    assert_eq!(liveness_reply().status, 200);
}

#[test]
fn readiness_and_healthz_fail_until_first_successful_fetch() {
    let health = UpstreamHealth::new();
    for path in ["/healthz", "/readiness"] {
        let reply = upstream_health_reply(&health.status());
        assert_eq!(reply.status, 503, "{path} should be unavailable before first fetch");
    }
}

#[test]
fn metrics_returns_503_when_upstream_unreachable() {
    let mut health = UpstreamHealth::new();
    let errors = vec![host_error_message(
        "127.0.0.1",
        "connection to Pi-hole failed at http://127.0.0.1:1/api/auth: connection refused",
    )];
    let outcome = combine_scrape_errors(&errors);
    let reply = metrics_after_scrape(&mut health, outcome).expect("refused");
    assert_eq!(reply.status, 503);
    assert_eq!(
        reply.body,
        "failed to fetch upstream data: failed to collect metrics from Pi-hole:\n127.0.0.1: connection to Pi-hole failed at http://127.0.0.1:1/api/auth: connection refused"
    );
    assert_eq!(upstream_health_reply(&health.status()).status, 503);
}

#[test]
fn successful_fetch_enables_probes_and_metrics() {
    let mut health = UpstreamHealth::new();
    health.mark_success();
    for path in ["/healthz", "/readiness"] {
        let reply = upstream_health_reply(&health.status());
        assert_eq!(reply.status, 200, "{path} should succeed after fetch");
    }
    let outcome = combine_scrape_errors(&vec![]);
    assert_eq!(outcome, Ok(()));
    assert!(metrics_after_scrape(&mut health, outcome).is_none());
    assert_eq!(health.status(), Ok(()));
    let mut registry = GaugeRegistry::new();
    registry.register_catalogue().expect("registry");
    let rendered = encode_metrics(&registry).map_err(|e| format!("{e:?}"));
    let reply = render_reply(rendered);
    assert_eq!(reply.status, 200, "/metrics should succeed after fetch");
}

#[test]
fn fetch_failure_marks_upstream_unhealthy_again() {
    let mut health = UpstreamHealth::new();
    health.mark_success();
    health.record_failure("authentication failed: token expired");
    let reply = upstream_health_reply(&health.status());
    assert_eq!(reply.status, 503);
    assert_eq!(reply.body, "error: upstream unavailable: authentication failed: token expired");
}

#[test]
fn encoded_metrics_are_read_as_utf8() {
    assert_eq!(render_encoded(Ok(b"pihole_up 1\n".to_vec())).unwrap(), "pihole_up 1\n");
    assert!(matches!(render_encoded(Ok(vec![0xff, 0xfe])), Err(RenderError::NotUtf8)));
    let e = prometheus::Error::Msg("bad".to_string());
    assert!(matches!(render_encoded(Err(e)), Err(RenderError::Encode(_))));
}

#[test]
fn registry_renders_in_text_format() {
    let mut registry = GaugeRegistry::new();
    let gauges = registry.register_catalogue().expect("registry");
    assert_eq!(gauges.len(), NUM_METRICS);
    assert_eq!(encode_metrics(&registry).unwrap(), "");
    gauges[MetricId::Status.position()]
        .vec
        .with_label_values(&["127.0.0.1"])
        .set(1.0);
    let text = encode_metrics(&registry).unwrap();
    assert!(text.contains("# HELP pihole_status This if Pi-hole is enabled"));
    assert!(text.contains("# TYPE pihole_status gauge"));
    assert!(text.contains("pihole_status{hostname=\"127.0.0.1\"} 1"));
    gauges[MetricId::TopSources.position()]
        .vec
        .with_label_values(&["h", "10.0.0.1", "pc"])
        .set(7.0);
    let text = encode_metrics(&registry).unwrap();
    assert!(text.contains("pihole_top_sources{hostname=\"h\",source=\"10.0.0.1\",source_name=\"pc\"} 7"));
}

#[test]
fn catalogue_registers_once() {
    let mut registry = GaugeRegistry::new();
    assert!(registry.register_catalogue().is_ok());
    assert!(registry.register_catalogue().is_err());
}

#[test]
fn scrape_outcome_lists_failed_hosts_in_order() {
    let outcomes = vec![
        HostOutcome::Collected,
        HostOutcome::Failed { hostname: "a".to_string(), error: "x".to_string() },
        HostOutcome::TimedOut { hostname: "b".to_string() },
        HostOutcome::TaskFailed("panicked".to_string()),
    ];
    assert_eq!(
        scrape_outcome(&outcomes),
        Err("failed to collect metrics from Pi-hole:\na: x\nb: metrics collection timed out\nmetrics collection task failed: panicked".to_string())
    );
    assert_eq!(scrape_outcome(&vec![HostOutcome::Collected, HostOutcome::Collected]), Ok(()));
    assert_eq!(scrape_outcome(&vec![]), Ok(()));
}
