//! The structured notification the core hands to the dispatch boundary.
//! The core produces data, never pre-rendered text: rendering stays with the
//! collaborator that delivers the message.

use vstd::prelude::*;

use crate::json::StatValue;

verus! {

/// One outgoing notification.
#[derive(Debug)]
pub struct SlackMsg {
    pub username: String,
    pub icon_url: Option<String>,
    pub icon_emoji: Option<String>,
    pub channel: String,
    pub metadata: SlackMsgMetadata,
}

/// The data a notification is rendered from.
#[derive(Debug)]
pub struct SlackMsgMetadata {
    pub queue_name: String,
    pub threshold: StatValue,
    pub current_value: StatValue,
    pub trigger_type: String,
}

/// Mathematical shadow of [`SlackMsgMetadata`].
pub ghost struct SlackMsgMetadataV {
    pub queue_name: Seq<char>,
    pub threshold: StatValue,
    pub current_value: StatValue,
    pub trigger_type: Seq<char>,
}

/// Mathematical shadow of [`SlackMsg`].
pub ghost struct SlackMsgV {
    pub username: Seq<char>,
    pub icon_url: Option<Seq<char>>,
    pub icon_emoji: Option<Seq<char>>,
    pub channel: Seq<char>,
    pub metadata: SlackMsgMetadataV,
}

/// The view of an optional string.
pub open spec fn opt_str_view(o: Option<String>) -> Option<Seq<char>> {
    match o {
        Some(s) => Some(s@),
        None => None,
    }
}

impl View for SlackMsgMetadata {
    type V = SlackMsgMetadataV;

    open spec fn view(&self) -> SlackMsgMetadataV {
        SlackMsgMetadataV {
            queue_name: self.queue_name@,
            threshold: self.threshold,
            current_value: self.current_value,
            trigger_type: self.trigger_type@,
        }
    }
}

impl View for SlackMsg {
    type V = SlackMsgV;

    open spec fn view(&self) -> SlackMsgV {
        SlackMsgV {
            username: self.username@,
            icon_url: opt_str_view(self.icon_url),
            icon_emoji: opt_str_view(self.icon_emoji),
            channel: self.channel@,
            metadata: self.metadata@,
        }
    }
}

/// The views of a sequence of messages.
pub open spec fn msgs_view(s: Seq<SlackMsg>) -> Seq<SlackMsgV> {
    s.map_values(|m: SlackMsg| m@)
}

} // verus!
