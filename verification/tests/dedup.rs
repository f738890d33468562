use rmq_monitor::utils::{get_unix_timestamp, has_msg_expired, ExpirationStatus, MsgExpirationLog};

fn key(q: &str, t: &str) -> (String, String) {
    (q.to_string(), t.to_string())
}

#[test]
fn dedup_first_fire() {
    let mut log = MsgExpirationLog::new();
    let t0: u64 = 1_700_000_000;
    let status = has_msg_expired(&mut log, key("jobs", "ready messages"), t0, 600);
    assert_eq!(status, ExpirationStatus::NotSentYet);
    // The entry was created at the call's timestamp: a candidate just past
    // t0's window fires again, one within it does not.
    let mut probe = MsgExpirationLog::new();
    has_msg_expired(&mut probe, key("jobs", "ready messages"), t0, 600);
    let at_window_end = has_msg_expired(&mut probe, key("jobs", "ready messages"), t0 + 600, 600);
    assert_eq!(at_window_end, ExpirationStatus::NotExpired);
    let past_window = has_msg_expired(&mut log, key("jobs", "ready messages"), t0 + 601, 600);
    assert_eq!(past_window, ExpirationStatus::Expired);
}

#[test]
fn dedup_suppression_within_window() {
    let mut log = MsgExpirationLog::new();
    let t0: u64 = 1_700_000_000;
    let k = key("jobs", "ready messages");
    assert_eq!(
        has_msg_expired(&mut log, k.clone(), t0, 600),
        ExpirationStatus::NotSentYet
    );
    assert_eq!(
        has_msg_expired(&mut log, k.clone(), t0 + 300, 600),
        ExpirationStatus::NotExpired
    );
    // The suppressed candidate left the timestamp unchanged: the window
    // still ends 600s after t0, not after t0 + 300.
    assert_eq!(
        has_msg_expired(&mut log, k.clone(), t0 + 601, 600),
        ExpirationStatus::Expired
    );
}

#[test]
fn dedup_renewal_updates_timestamp() {
    let mut log = MsgExpirationLog::new();
    let t0: u64 = 1_700_000_000;
    let k = key("jobs", "ready messages");
    assert_eq!(has_msg_expired(&mut log, k.clone(), t0, 600), ExpirationStatus::NotSentYet);
    assert_eq!(
        has_msg_expired(&mut log, k.clone(), t0 + 300, 600),
        ExpirationStatus::NotExpired
    );
    assert_eq!(
        has_msg_expired(&mut log, k.clone(), t0 + 601, 600),
        ExpirationStatus::Expired
    );
    // Renewed at t0 + 601: the next window runs from there.
    assert_eq!(
        has_msg_expired(&mut log, k.clone(), t0 + 601 + 600, 600),
        ExpirationStatus::NotExpired
    );
    assert_eq!(
        has_msg_expired(&mut log, k.clone(), t0 + 601 + 601, 600),
        ExpirationStatus::Expired
    );
}

#[test]
fn dedup_keys_are_independent() {
    let mut log = MsgExpirationLog::new();
    let t0: u64 = 1_700_000_000;
    assert_eq!(
        has_msg_expired(&mut log, key("jobs", "ready messages"), t0, 600),
        ExpirationStatus::NotSentYet
    );
    // A different queue, and a different trigger name on the same queue,
    // are fresh keys of their own.
    assert_eq!(
        has_msg_expired(&mut log, key("payments", "ready messages"), t0 + 1, 600),
        ExpirationStatus::NotSentYet
    );
    assert_eq!(
        has_msg_expired(&mut log, key("jobs", "memory consumption"), t0 + 2, 600),
        ExpirationStatus::NotSentYet
    );
    // And the first key is still suppressed.
    assert_eq!(
        has_msg_expired(&mut log, key("jobs", "ready messages"), t0 + 3, 600),
        ExpirationStatus::NotExpired
    );
}

#[test]
fn dedup_zero_window_requires_strict_passage() {
    let mut log = MsgExpirationLog::new();
    let t0: u64 = 42;
    let k = key("q", "t");
    assert_eq!(has_msg_expired(&mut log, k.clone(), t0, 0), ExpirationStatus::NotSentYet);
    // Even with a zero window, the same second is still suppressed.
    assert_eq!(has_msg_expired(&mut log, k.clone(), t0, 0), ExpirationStatus::NotExpired);
    assert_eq!(has_msg_expired(&mut log, k.clone(), t0 + 1, 0), ExpirationStatus::Expired);
}

#[test]
fn unix_timestamp_is_available() {
    let ts = get_unix_timestamp().expect("wall clock readable");
    assert!(ts > 0);
}
