use rmq_monitor::config::{
    default_expiration, default_protocol, default_trigger_when, SlackConfig, Trigger,
    TriggerData, TriggerWhen,
};
use rmq_monitor::json::STAT_VALUE_SCALE;
use rmq_monitor::rmq::{QueueInfo, QueueStat, StatType};
use rmq_monitor::utils::{build_msgs_for_trigger, check_trigger_applicability, is_threshold_passed};

fn reading(queue: &str, stat_type: StatType, value: i64) -> QueueInfo {
    QueueInfo {
        name: queue.to_string(),
        state: "running".to_string(),
        stat: QueueStat { stat_type, value },
    }
}

fn slack_config() -> SlackConfig {
    SlackConfig {
        webhook_url: "https://hooks.example.com/services/T000/B000/XXX".to_string(),
        channel: "alerts".to_string(),
        screen_name: "monitor".to_string(),
        icon_url: None,
        icon_emoji: Some(":rotating_light:".to_string()),
    }
}

#[test]
fn queue_filter_scopes_matching() {
    let trigger = Trigger::MessagesReady(TriggerData {
        threshold: 10 * STAT_VALUE_SCALE,
        trigger_when: TriggerWhen::Above,
        queue: Some("orders".to_string()),
    });
    let payments = reading("payments", StatType::MessagesReady, 50 * STAT_VALUE_SCALE);
    let orders = reading("orders", StatType::MessagesReady, 50 * STAT_VALUE_SCALE);
    // Same stat type, different queue: never a candidate.
    assert!(!check_trigger_applicability(&trigger, "payments", &payments.stat));
    assert!(check_trigger_applicability(&trigger, "orders", &orders.stat));

    let msgs = build_msgs_for_trigger(&[payments, orders], &trigger, &slack_config());
    assert_eq!(msgs.len(), 1);
    assert_eq!(msgs[0].metadata.queue_name, "orders");
}

#[test]
fn absent_queue_filter_matches_any_queue() {
    let trigger = Trigger::MessagesReady(TriggerData {
        threshold: 10 * STAT_VALUE_SCALE,
        trigger_when: TriggerWhen::Above,
        queue: None,
    });
    let stat = QueueStat { stat_type: StatType::MessagesReady, value: 50 * STAT_VALUE_SCALE };
    assert!(check_trigger_applicability(&trigger, "anything", &stat));
    let other = QueueStat { stat_type: StatType::MessagesTotal, value: 50 * STAT_VALUE_SCALE };
    assert!(!check_trigger_applicability(&trigger, "anything", &other));
}

#[test]
fn direction_above_is_strict() {
    let data = TriggerData {
        threshold: 100 * STAT_VALUE_SCALE,
        trigger_when: TriggerWhen::Above,
        queue: None,
    };
    assert!(!is_threshold_passed(100 * STAT_VALUE_SCALE, &data));
    assert!(is_threshold_passed(101 * STAT_VALUE_SCALE, &data));
    assert!(!is_threshold_passed(99 * STAT_VALUE_SCALE, &data));
}

#[test]
fn direction_below_is_strict() {
    let data = TriggerData {
        threshold: 100 * STAT_VALUE_SCALE,
        trigger_when: TriggerWhen::Below,
        queue: None,
    };
    assert!(!is_threshold_passed(100 * STAT_VALUE_SCALE, &data));
    assert!(is_threshold_passed(99 * STAT_VALUE_SCALE, &data));
    assert!(!is_threshold_passed(101 * STAT_VALUE_SCALE, &data));
}

#[test]
fn candidate_carries_alert_data() {
    let trigger = Trigger::MemoryTotal(TriggerData {
        threshold: 1024 * STAT_VALUE_SCALE,
        trigger_when: TriggerWhen::Above,
        queue: None,
    });
    let qi = reading("jobs", StatType::MemoryTotal, 2048 * STAT_VALUE_SCALE);
    let cfg = slack_config();
    let msgs = build_msgs_for_trigger(&[qi], &trigger, &cfg);
    assert_eq!(msgs.len(), 1);
    let m = &msgs[0];
    assert_eq!(m.username, "monitor");
    assert_eq!(m.channel, "#alerts");
    assert_eq!(m.icon_url, None);
    assert_eq!(m.icon_emoji, Some(":rotating_light:".to_string()));
    assert_eq!(m.metadata.queue_name, "jobs");
    assert_eq!(m.metadata.threshold, 1024 * STAT_VALUE_SCALE);
    assert_eq!(m.metadata.current_value, 2048 * STAT_VALUE_SCALE);
    assert_eq!(m.metadata.trigger_type, "memory consumption");
}

#[test]
fn trigger_accessors_follow_the_kind() {
    let data = TriggerData {
        threshold: 5 * STAT_VALUE_SCALE,
        trigger_when: TriggerWhen::Below,
        queue: Some("jobs".to_string()),
    };
    let trigger = Trigger::ConsumersTotal(data);
    assert_eq!(trigger.stat_type(), StatType::ConsumersTotal);
    assert_eq!(trigger.name(), "total number of consumers");
    assert_eq!(trigger.data().threshold, 5 * STAT_VALUE_SCALE);
    assert_eq!(trigger.data().trigger_when, TriggerWhen::Below);
    assert_eq!(trigger.data().queue, Some("jobs".to_string()));

    let rate = Trigger::MessagesRedeliverRate(TriggerData {
        threshold: 1,
        trigger_when: TriggerWhen::Above,
        queue: None,
    });
    assert_eq!(rate.stat_type(), StatType::MessagesRedeliverRate);
    assert_eq!(rate.name(), "redelivered messages per second");
}

#[test]
fn configuration_defaults() {
    assert_eq!(default_protocol(), "https");
    assert_eq!(default_expiration(), 600);
    assert_eq!(default_trigger_when(), TriggerWhen::Above);
}
