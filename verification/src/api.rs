//! Data shapes of an earlier revision of the monitored-service client and
//! the rich notification format. Kept for callers that still exchange these
//! values; the monitoring core itself works with the types in [`crate::rmq`]
//! and [`crate::slack`].

use vstd::prelude::*;

verus! {

/// A queue's stats in the earlier flat form: one named value per stat.
#[derive(Debug)]
pub struct QueuesInfo {
    pub name: String,
    pub state: String,
    pub stats: Vec<QueueStat>,
}

/// One named stat of the earlier flat form.
#[derive(Debug, Clone)]
pub struct QueueStat {
    pub name: String,
    pub value: u64,
}

/// A notification in the rich attachment format.
#[derive(Debug)]
pub struct SlackMsg {
    pub username: String,
    pub icon_url: Option<String>,
    pub channel: String,
    pub text: Option<String>,
    pub attachments: Option<Vec<SlackAttachment>>,
}

/// One attachment of a rich notification.
#[derive(Debug)]
pub struct SlackAttachment {
    pub fallback: String,
    pub title: String,
    pub color: Option<String>,
    pub pretext: String,
    pub author_name: String,
    pub author_link: Option<String>,
    pub author_icon: Option<String>,
    pub mrkdwn_in: Option<Vec<String>>,
    pub text: String,
    pub thumb_url: Option<String>,
    pub fields: Option<Vec<SlackMsgField>>,
}

/// One titled field of a rich attachment.
#[derive(Debug)]
pub struct SlackMsgField {
    pub title: String,
    pub value: String,
    pub short: bool,
}

} // verus!
