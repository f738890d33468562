//! The monitor's configuration: connection settings, notification settings,
//! and the threshold trigger rules. Loaded once at startup by the boundary
//! that reads the configuration file; the core treats it as already
//! validated and immutable.

use vstd::prelude::*;

use crate::json::StatValue;
use crate::rmq::StatType;

verus! {

/// The whole configuration.
#[derive(Debug)]
pub struct Config {
    pub rabbitmq: RabbitMqConfig,
    pub settings: MonitorSettings,
    pub slack: SlackConfig,
    pub triggers: Vec<Trigger>,
}

/// Where and how to reach the monitored service.
#[derive(Debug, Clone)]
pub struct RabbitMqConfig {
    pub protocol: String,
    pub host: String,
    pub username: String,
    pub password: String,
    pub port: String,
    pub vhost: String,
}

/// The protocol used when the configuration names none.
pub fn default_protocol() -> (r: String)
    ensures
        r@ == "https"@,
{
    "https".to_owned()
}

/// Polling cadence and the dedup expiration window.
#[derive(Debug, Clone)]
pub struct MonitorSettings {
    pub poll_seconds: u64,
    pub msg_expiration_seconds: u64,
}

/// The expiration window, in seconds, used when the configuration names
/// none.
pub fn default_expiration() -> (r: u64)
    ensures
        r == 600,
{
    600
}

/// Where notifications go.
#[derive(Debug, Clone)]
pub struct SlackConfig {
    pub webhook_url: String,
    pub channel: String,
    pub screen_name: String,
    pub icon_url: Option<String>,
    pub icon_emoji: Option<String>,
}

/// Which way a reading must pass the threshold to breach.
#[derive(Debug, Clone, Copy, PartialEq, Eq, Structural)]
pub enum TriggerWhen {
    Above,
    Below,
}

/// The direction used when the configuration names none.
pub fn default_trigger_when() -> (r: TriggerWhen)
    ensures
        r == TriggerWhen::Above,
{
    TriggerWhen::Above
}

/// One threshold rule's data: the threshold in fixed-point form, the
/// direction, and an optional queue-name scope (`None` means any queue).
#[derive(Debug, Clone)]
pub struct TriggerData {
    pub threshold: StatValue,
    pub trigger_when: TriggerWhen,
    pub queue: Option<String>,
}

/// One configured threshold rule, tagged by the stat type it watches.
#[derive(Debug, Clone)]
pub enum Trigger {
    ConsumersTotal(TriggerData),
    MemoryTotal(TriggerData),
    MessagesTotal(TriggerData),
    MessagesReady(TriggerData),
    MessagesUnacknowledged(TriggerData),
    MessagesTotalRate(TriggerData),
    MessagesReadyRate(TriggerData),
    MessagesUnacknowledgedRate(TriggerData),
    MessagesPublishRate(TriggerData),
    MessagesDeliveryRate(TriggerData),
    MessagesRedelivered(TriggerData),
    MessagesRedeliverRate(TriggerData),
}

impl Trigger {
    /// The rule's threshold data, whichever stat type it watches.
    pub open spec fn spec_data(&self) -> TriggerData {
        match *self {
            Trigger::ConsumersTotal(data) => data,
            Trigger::MemoryTotal(data) => data,
            Trigger::MessagesTotal(data) => data,
            Trigger::MessagesReady(data) => data,
            Trigger::MessagesUnacknowledged(data) => data,
            Trigger::MessagesTotalRate(data) => data,
            Trigger::MessagesReadyRate(data) => data,
            Trigger::MessagesUnacknowledgedRate(data) => data,
            Trigger::MessagesPublishRate(data) => data,
            Trigger::MessagesDeliveryRate(data) => data,
            Trigger::MessagesRedeliverRate(data) => data,
            Trigger::MessagesRedelivered(data) => data,
        }
    }

    /// The stat type the rule watches.
    pub open spec fn spec_stat_type(&self) -> StatType {
        match *self {
            Trigger::ConsumersTotal(_) => StatType::ConsumersTotal,
            Trigger::MemoryTotal(_) => StatType::MemoryTotal,
            Trigger::MessagesTotal(_) => StatType::MessagesTotal,
            Trigger::MessagesReady(_) => StatType::MessagesReady,
            Trigger::MessagesUnacknowledged(_) => StatType::MessagesUnacknowledged,
            Trigger::MessagesTotalRate(_) => StatType::MessagesTotalRate,
            Trigger::MessagesReadyRate(_) => StatType::MessagesReadyRate,
            Trigger::MessagesUnacknowledgedRate(_) => StatType::MessagesUnacknowledgedRate,
            Trigger::MessagesPublishRate(_) => StatType::MessagesPublishRate,
            Trigger::MessagesDeliveryRate(_) => StatType::MessagesDeliveryRate,
            Trigger::MessagesRedelivered(_) => StatType::MessagesRedelivered,
            Trigger::MessagesRedeliverRate(_) => StatType::MessagesRedeliverRate,
        }
    }

    /// The human-readable name used in alert text.
    pub open spec fn spec_name(&self) -> Seq<char> {
        match *self {
            Trigger::ConsumersTotal(_) => "total number of consumers"@,
            Trigger::MemoryTotal(_) => "memory consumption"@,
            Trigger::MessagesTotal(_) => "total number of messages"@,
            Trigger::MessagesReady(_) => "ready messages"@,
            Trigger::MessagesUnacknowledged(_) => "unacknowledged messages"@,
            Trigger::MessagesTotalRate(_) => "total messages per second"@,
            Trigger::MessagesReadyRate(_) => "ready messages per second"@,
            Trigger::MessagesUnacknowledgedRate(_) => "unacknowledged messages per second"@,
            Trigger::MessagesPublishRate(_) => "published messages per second"@,
            Trigger::MessagesDeliveryRate(_) => "delivered messages per second"@,
            Trigger::MessagesRedelivered(_) => "redelivered messages"@,
            Trigger::MessagesRedeliverRate(_) => "redelivered messages per second"@,
        }
    }

    /// The rule's threshold data, whichever stat type it watches.
    pub fn data(&self) -> (r: &TriggerData)
        ensures
            *r == self.spec_data(),
    {
        match self {
            Trigger::ConsumersTotal(data) => data,
            Trigger::MemoryTotal(data) => data,
            Trigger::MessagesTotal(data) => data,
            Trigger::MessagesReady(data) => data,
            Trigger::MessagesUnacknowledged(data) => data,
            Trigger::MessagesTotalRate(data) => data,
            Trigger::MessagesReadyRate(data) => data,
            Trigger::MessagesUnacknowledgedRate(data) => data,
            Trigger::MessagesPublishRate(data) => data,
            Trigger::MessagesDeliveryRate(data) => data,
            Trigger::MessagesRedelivered(data) => data,
            Trigger::MessagesRedeliverRate(data) => data,
        }
    }

    /// The stat type the rule watches.
    pub fn stat_type(&self) -> (r: StatType)
        ensures
            r == self.spec_stat_type(),
    {
        match *self {
            Trigger::ConsumersTotal(_) => StatType::ConsumersTotal,
            Trigger::MemoryTotal(_) => StatType::MemoryTotal,
            Trigger::MessagesTotal(_) => StatType::MessagesTotal,
            Trigger::MessagesReady(_) => StatType::MessagesReady,
            Trigger::MessagesUnacknowledged(_) => StatType::MessagesUnacknowledged,
            Trigger::MessagesTotalRate(_) => StatType::MessagesTotalRate,
            Trigger::MessagesReadyRate(_) => StatType::MessagesReadyRate,
            Trigger::MessagesUnacknowledgedRate(_) => StatType::MessagesUnacknowledgedRate,
            Trigger::MessagesPublishRate(_) => StatType::MessagesPublishRate,
            Trigger::MessagesDeliveryRate(_) => StatType::MessagesDeliveryRate,
            Trigger::MessagesRedelivered(_) => StatType::MessagesRedelivered,
            Trigger::MessagesRedeliverRate(_) => StatType::MessagesRedeliverRate,
        }
    }

    /// The human-readable name used in alert text.
    pub fn name(&self) -> (r: &'static str)
        ensures
            r@ == self.spec_name(),
    {
        match *self {
            Trigger::ConsumersTotal(_) => "total number of consumers",
            Trigger::MemoryTotal(_) => "memory consumption",
            Trigger::MessagesTotal(_) => "total number of messages",
            Trigger::MessagesReady(_) => "ready messages",
            Trigger::MessagesUnacknowledged(_) => "unacknowledged messages",
            Trigger::MessagesTotalRate(_) => "total messages per second",
            Trigger::MessagesReadyRate(_) => "ready messages per second",
            Trigger::MessagesUnacknowledgedRate(_) => "unacknowledged messages per second",
            Trigger::MessagesPublishRate(_) => "published messages per second",
            Trigger::MessagesDeliveryRate(_) => "delivered messages per second",
            Trigger::MessagesRedelivered(_) => "redelivered messages",
            Trigger::MessagesRedeliverRate(_) => "redelivered messages per second",
        }
    }
}

} // verus!
