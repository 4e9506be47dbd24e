use pihole_exporter::model::{
    latest_history_slot, merge_clients, normalize_status_label, try_merge_clients, upstream_port_label, HistorySlot,
    PiHoleClient,
};

fn client(ip: &str, name: &str, count: i64) -> PiHoleClient {
    PiHoleClient {
        ip: ip.to_string(),
        name: name.to_string(),
        count,
    }
}

#[test]
fn merge_clients_combines_counts_by_ip() {
    let permitted = vec![PiHoleClient {
        ip: "192.168.1.10".to_string(),
        name: "host-a".to_string(),
        count: 5,
    }];
    let blocked = vec![PiHoleClient {
        ip: "192.168.1.10".to_string(),
        name: "host-a".to_string(),
        count: 3,
    }];

    let merged = merge_clients(&permitted, &blocked);
    assert_eq!(merged.len(), 1);
    assert_eq!(merged[0].count, 8);
}

#[test]
fn merge_clients_keeps_distinct_addresses_in_first_order() {
    let permitted = vec![client("10.0.0.1", "a", 1), client("10.0.0.2", "b", 2)];
    let blocked = vec![client("10.0.0.3", "c", 4), client("10.0.0.1", "a2", 10)];
    let merged = merge_clients(&permitted, &blocked);
    assert_eq!(merged.len(), 3);
    assert_eq!(merged[0].ip, "10.0.0.1");
    assert_eq!(merged[0].name, "a");
    assert_eq!(merged[0].count, 11);
    assert_eq!(merged[1].ip, "10.0.0.2");
    assert_eq!(merged[1].count, 2);
    assert_eq!(merged[2].ip, "10.0.0.3");
    assert_eq!(merged[2].count, 4);
}

#[test]
fn try_merge_refuses_a_sum_past_i64() {
    let permitted = vec![client("10.0.0.1", "a", i64::MAX)];
    let blocked = vec![client("10.0.0.2", "b", 1), client("10.0.0.1", "a", 1)];
    assert!(try_merge_clients(&permitted, &blocked).is_none());
    let low = vec![client("10.0.0.9", "z", i64::MIN), client("10.0.0.9", "z", -1)];
    assert!(try_merge_clients(&low, &[]).is_none());
}

#[test]
fn try_merge_accepts_sums_at_the_limit() {
    let permitted = vec![client("10.0.0.1", "a", i64::MAX - 1)];
    let blocked = vec![client("10.0.0.1", "a", 1), client("10.0.0.2", "b", i64::MAX)];
    let merged = try_merge_clients(&permitted, &blocked).expect("fits");
    assert_eq!(merged.len(), 2);
    assert_eq!(merged[0].count, i64::MAX);
    assert_eq!(merged[1].count, i64::MAX);
}

#[test]
fn merge_clients_of_nothing_is_empty() {
    assert!(merge_clients(&[], &[]).is_empty());
}

#[test]
fn normalize_status_label_lowercases() {
    assert_eq!(normalize_status_label("GRAVITY_CNAME"), "gravity_cname");
}

#[test]
fn normalize_status_label_leaves_non_ascii() {
    assert_eq!(normalize_status_label("ÄBC-Ü9z"), "Äbc-Ü9z");
}

fn slot(timestamp: i64, total: i64) -> HistorySlot {
    HistorySlot {
        timestamp,
        total,
        cached: 0,
        blocked: 0,
        forwarded: 0,
    }
}

#[test]
fn latest_history_slot_takes_greatest_timestamp_last_among_equals() {
    assert!(latest_history_slot(&[]).is_none());
    let h = vec![slot(10, 1), slot(30, 2), slot(20, 3), slot(30, 4)];
    assert_eq!(latest_history_slot(&h).unwrap().total, 4);
    let h = vec![slot(5, 7)];
    assert_eq!(latest_history_slot(&h).unwrap().total, 7);
}

#[test]
fn port_label_is_empty_for_missing_port() {
    assert_eq!(upstream_port_label(-1), "");
    assert_eq!(upstream_port_label(0), "0");
    assert_eq!(upstream_port_label(53), "53");
    assert_eq!(upstream_port_label(i64::MAX), "9223372036854775807");
}
