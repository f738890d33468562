use rmq_monitor::json::{get_by_path, JsonVal, STAT_VALUE_SCALE};
use rmq_monitor::rmq::{
    basic_auth_token, build_queue_info, preprocess_queues_info, ExtractError, StatType,
};

fn field(key: &str, val: JsonVal) -> (String, JsonVal) {
    (key.to_string(), val)
}

fn text(s: &str) -> JsonVal {
    JsonVal::Text(s.to_string())
}

/// A well-formed queue document with a few numeric stats.
fn sample_doc() -> JsonVal {
    JsonVal::Object(vec![
        field("name", text("jobs")),
        field("state", text("running")),
        field("consumers", JsonVal::Num(3 * STAT_VALUE_SCALE)),
        field("messages", JsonVal::Num(120 * STAT_VALUE_SCALE)),
        field(
            "message_stats",
            JsonVal::Object(vec![field(
                "publish_details",
                JsonVal::Object(vec![field("rate", JsonVal::Num(2500))]),
            )]),
        ),
    ])
}

#[test]
fn extraction_completeness() {
    let doc = sample_doc();
    let ex = build_queue_info(&doc).expect("well-formed document");
    // Exactly one reading per stat type whose path resolves to a number,
    // in declaration order.
    assert_eq!(ex.readings.len(), 3);
    assert_eq!(ex.readings[0].stat.stat_type, StatType::ConsumersTotal);
    assert_eq!(ex.readings[0].stat.value, 3 * STAT_VALUE_SCALE);
    assert_eq!(ex.readings[1].stat.stat_type, StatType::MessagesTotal);
    assert_eq!(ex.readings[1].stat.value, 120 * STAT_VALUE_SCALE);
    assert_eq!(ex.readings[2].stat.stat_type, StatType::MessagesPublishRate);
    assert_eq!(ex.readings[2].stat.value, 2500);
    assert!(ex.malformed.is_empty());
    for r in &ex.readings {
        assert_eq!(r.name, "jobs");
        assert_eq!(r.state, "running");
    }
}

#[test]
fn extraction_empty_document_yields_no_readings() {
    let doc = JsonVal::Object(vec![
        field("name", text("idle")),
        field("state", text("running")),
    ]);
    let ex = build_queue_info(&doc).expect("well-formed document");
    assert!(ex.readings.is_empty());
    assert!(ex.malformed.is_empty());
}

#[test]
fn extraction_malformed_reading_is_scoped() {
    let doc = JsonVal::Object(vec![
        field("name", text("jobs")),
        field("state", text("running")),
        field("memory", text("lots")),
        field("messages_ready", JsonVal::Num(75 * STAT_VALUE_SCALE)),
    ]);
    let ex = build_queue_info(&doc).expect("well-formed document");
    // The non-numeric stat is reported and dropped; the rest still extracts.
    assert_eq!(ex.readings.len(), 1);
    assert_eq!(ex.readings[0].stat.stat_type, StatType::MessagesReady);
    assert_eq!(ex.malformed, vec![StatType::MemoryTotal]);
}

#[test]
fn extraction_missing_name_is_malformed() {
    let doc = JsonVal::Object(vec![
        field("state", text("running")),
        field("messages", JsonVal::Num(5 * STAT_VALUE_SCALE)),
    ]);
    assert_eq!(build_queue_info(&doc).unwrap_err(), ExtractError::MalformedDocument);
}

#[test]
fn extraction_missing_state_is_malformed() {
    let doc = JsonVal::Object(vec![
        field("name", text("jobs")),
        field("messages", JsonVal::Num(5 * STAT_VALUE_SCALE)),
    ]);
    assert_eq!(build_queue_info(&doc).unwrap_err(), ExtractError::MalformedDocument);
}

#[test]
fn extraction_non_string_name_is_malformed() {
    let doc = JsonVal::Object(vec![
        field("name", JsonVal::Num(7)),
        field("state", text("running")),
    ]);
    assert_eq!(build_queue_info(&doc).unwrap_err(), ExtractError::MalformedDocument);
}

#[test]
fn preprocess_concatenates_in_document_order() {
    let docs = vec![
        JsonVal::Object(vec![
            field("name", text("alpha")),
            field("state", text("running")),
            field("messages_ready", JsonVal::Num(10 * STAT_VALUE_SCALE)),
        ]),
        // Malformed at the whole-document level: skipped, neighbours kept.
        JsonVal::Object(vec![field("messages", JsonVal::Num(1))]),
        JsonVal::Object(vec![
            field("name", text("beta")),
            field("state", text("idle")),
            field("consumers", JsonVal::Num(2 * STAT_VALUE_SCALE)),
            field("messages_ready", JsonVal::Num(20 * STAT_VALUE_SCALE)),
        ]),
    ];
    let readings = preprocess_queues_info(&docs);
    assert_eq!(readings.len(), 3);
    assert_eq!(readings[0].name, "alpha");
    assert_eq!(readings[0].stat.stat_type, StatType::MessagesReady);
    assert_eq!(readings[1].name, "beta");
    assert_eq!(readings[1].stat.stat_type, StatType::ConsumersTotal);
    assert_eq!(readings[2].name, "beta");
    assert_eq!(readings[2].stat.stat_type, StatType::MessagesReady);
    assert_eq!(readings[2].stat.value, 20 * STAT_VALUE_SCALE);
}

#[test]
fn get_by_path_walks_nested_objects() {
    let doc = sample_doc();
    let path = StatType::MessagesPublishRate.path_segments();
    match get_by_path(&path, &doc) {
        Some(JsonVal::Num(x)) => assert_eq!(*x, 2500),
        other => panic!("unexpected resolution: {:?}", other),
    }
    // An absent intermediate key terminates with "absent", not an error.
    let path = StatType::MessagesDeliveryRate.path_segments();
    assert!(get_by_path(&path, &doc).is_none());
    // A non-object midway also resolves to "absent".
    let path = vec!["consumers", "rate"];
    assert!(get_by_path(&path, &doc).is_none());
}

#[test]
fn stat_type_table_is_complete() {
    let variants = StatType::variants();
    assert_eq!(variants.len(), 12);
    assert_eq!(variants[0], StatType::ConsumersTotal);
    assert_eq!(variants[11], StatType::MessagesRedeliverRate);
    assert_eq!(StatType::ConsumersTotal.json_path(), "consumers");
    assert_eq!(
        StatType::MessagesPublishRate.json_path(),
        "message_stats.publish_details.rate"
    );
    assert_eq!(
        StatType::MessagesUnacknowledgedRate.json_path(),
        "messages_unacknowledged_details.rate"
    );
    assert_eq!(StatType::MessagesReady.to_str(), "MessagesReady");
    assert_eq!(StatType::MemoryTotal.to_str(), "MemoryTotal");
    // Each dotted path is its segments joined with dots.
    for k in &variants {
        assert_eq!(k.path_segments().join("."), k.json_path());
    }
}

#[test]
fn basic_auth_token_encodes_user_and_password() {
    assert_eq!(basic_auth_token("user", "pass"), "dXNlcjpwYXNz");
    assert_eq!(basic_auth_token("guest", "guest"), "Z3Vlc3Q6Z3Vlc3Q=");
}
