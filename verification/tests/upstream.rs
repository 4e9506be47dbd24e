use pihole_exporter::upstream::UpstreamHealth;

#[test]
fn status_unavailable_until_first_success() {
    let health = UpstreamHealth::default();
    assert!(health.status().is_err());
}

#[test]
fn status_ok_after_success_and_err_after_failure() {
    let mut health = UpstreamHealth::default();
    health.mark_success();
    assert!(health.status().is_ok());

    health.record_failure("timeout");
    assert_eq!(health.status().unwrap_err(), "timeout".to_string());
}

#[test]
fn status_detail_before_any_fetch() {
    let health = UpstreamHealth::new();
    assert_eq!(health.status().unwrap_err(), "no successful fetch yet");
}

#[test]
fn last_scrape_decides() {
    let mut health = UpstreamHealth::new();
    health.record_failure("down");
    health.mark_success();
    assert!(health.status().is_ok());
    health.update_from_scrape(&Err("gone".to_string()));
    assert_eq!(health.status().unwrap_err(), "gone");
    health.update_from_scrape(&Ok(()));
    assert!(health.status().is_ok());
}
