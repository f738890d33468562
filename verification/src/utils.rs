//! Trigger matching and the time-windowed dedup gate: the decision core of
//! the monitor.

use vstd::prelude::*;
use vstd::map::*;

use crate::config::{SlackConfig, Trigger, TriggerData, TriggerWhen};
use crate::json::str_eq;
use crate::json::StatValue;
use crate::rmq::{qis_view, QueueInfo, QueueInfoV, QueueStat, QueueStatV};
use crate::slack::{msgs_view, opt_str_view, SlackMsg, SlackMsgMetadata, SlackMsgMetadataV, SlackMsgV};

verus! {

/// Seconds since the UNIX epoch, as used by the dedup gate.
pub type UnixTimestamp = u64;

/// A reading matches a trigger iff the stat types agree and the trigger's
/// queue scope, when present, names the reading's queue.
pub open spec fn spec_trigger_applicable(
    t: Trigger,
    queue_name: Seq<char>,
    stat: QueueStatV,
) -> bool {
    &&& t.spec_stat_type() == stat.stat_type
    &&& match t.spec_data().queue {
        Some(q) => q@ == queue_name,
        None => true,
    }
}

/// A matched reading breaches iff it passes the threshold strictly in the
/// trigger's direction; equality never triggers.
pub open spec fn spec_threshold_passed(stat_value: StatValue, data: TriggerData) -> bool {
    match data.trigger_when {
        TriggerWhen::Above => stat_value > data.threshold,
        TriggerWhen::Below => stat_value < data.threshold,
    }
}

/// The candidate alert built for a breaching (reading, trigger) pair.
pub open spec fn spec_candidate_msg(cfg: SlackConfig, t: Trigger, qi: QueueInfoV) -> SlackMsgV {
    SlackMsgV {
        username: cfg.screen_name@,
        icon_url: opt_str_view(cfg.icon_url),
        icon_emoji: opt_str_view(cfg.icon_emoji),
        channel: "#"@ + cfg.channel@,
        metadata: SlackMsgMetadataV {
            queue_name: qi.name,
            threshold: t.spec_data().threshold,
            current_value: qi.stat.value,
            trigger_type: t.spec_name(),
        },
    }
}

/// Maps a reading to the candidate alert it yields under `t`, if any.
pub open spec fn spec_candidate_fn(t: Trigger, cfg: SlackConfig) -> spec_fn(QueueInfoV) -> Option<
    SlackMsgV,
> {
    |qi: QueueInfoV|
        if spec_trigger_applicable(t, qi.name, qi.stat) && spec_threshold_passed(
            qi.stat.value,
            t.spec_data(),
        ) {
            Some(spec_candidate_msg(cfg, t, qi))
        } else {
            None
        }
}

/// The candidate alerts one trigger raises over a batch of readings, in
/// reading order.
pub open spec fn spec_msgs_for_trigger(
    qis: Seq<QueueInfoV>,
    t: Trigger,
    cfg: SlackConfig,
) -> Seq<SlackMsgV> {
    qis.filter_map(spec_candidate_fn(t, cfg))
}

/// Matching correctness, both ways. Every candidate alert a trigger raises
/// is justified by a reading that matches the trigger's stat type, falls
/// within its queue scope, and strictly passes its threshold; and every
/// reading that matches and passes contributes its candidate. A reading for
/// a queue outside the trigger's scope, or one at or on the wrong side of
/// the threshold, therefore never produces a candidate alert.
pub proof fn lemma_matching_correctness(qis: Seq<QueueInfoV>, t: Trigger, cfg: SlackConfig)
    ensures
        forall|m: SlackMsgV|
            spec_msgs_for_trigger(qis, t, cfg).contains(m) ==> exists|qi: QueueInfoV|
                {
                    &&& #[trigger] qis.contains(qi)
                    &&& spec_trigger_applicable(t, qi.name, qi.stat)
                    &&& spec_threshold_passed(qi.stat.value, t.spec_data())
                    &&& m == spec_candidate_msg(cfg, t, qi)
                },
        forall|i: int|
            0 <= i < qis.len() && spec_trigger_applicable(t, (#[trigger] qis[i]).name, qis[i].stat)
                && spec_threshold_passed(qis[i].stat.value, t.spec_data())
                ==> spec_msgs_for_trigger(qis, t, cfg).contains(spec_candidate_msg(cfg, t, qis[i])),
{
    let f = spec_candidate_fn(t, cfg);
    let p = |qi: QueueInfoV|
        spec_trigger_applicable(t, qi.name, qi.stat) && spec_threshold_passed(
            qi.stat.value,
            t.spec_data(),
        );
    let g = |qi: QueueInfoV| spec_candidate_msg(cfg, t, qi);
    assert forall|m: SlackMsgV| spec_msgs_for_trigger(qis, t, cfg).contains(m) implies exists|
        qi: QueueInfoV,
    |
        {
            &&& #[trigger] qis.contains(qi)
            &&& spec_trigger_applicable(t, qi.name, qi.stat)
            &&& spec_threshold_passed(qi.stat.value, t.spec_data())
            &&& m == spec_candidate_msg(cfg, t, qi)
        } by {
        Seq::lemma_filter_map_contains(qis, f, m);
        let qi = choose|qi: QueueInfoV| #[trigger] qis.contains(qi) && f(qi) == Some(m);
        assert(qis.contains(qi) && spec_trigger_applicable(t, qi.name, qi.stat)
            && spec_threshold_passed(qi.stat.value, t.spec_data()) && m == spec_candidate_msg(
            cfg,
            t,
            qi,
        ));
    }
    crate::rmq::lemma_filter_map_as_filter(qis, f, p, g);
    assert forall|i: int|
        0 <= i < qis.len() && spec_trigger_applicable(t, (#[trigger] qis[i]).name, qis[i].stat)
            && spec_threshold_passed(qis[i].stat.value, t.spec_data()) implies spec_msgs_for_trigger(
        qis,
        t,
        cfg,
    ).contains(spec_candidate_msg(cfg, t, qis[i])) by {
        Seq::lemma_filter_contains(qis, p, i);
        let filtered = qis.filter(p);
        let j = choose|j: int| 0 <= j < filtered.len() && filtered[j] == qis[i];
        assert(filtered.map_values(g)[j] == g(qis[i]));
        assert(spec_msgs_for_trigger(qis, t, cfg).contains(spec_candidate_msg(cfg, t, qis[i])));
    }
}

/// Direction semantics at the boundary: a value exactly at the threshold
/// triggers in neither direction.
pub proof fn lemma_threshold_equality_never_triggers(data: TriggerData)
    ensures
        !spec_threshold_passed(data.threshold, data),
{
}

/// Whether a reading falls under a trigger's scope: same stat type, and
/// within the trigger's queue filter when it has one.
pub fn check_trigger_applicability(trigger: &Trigger, queue_name: &str, stat: &QueueStat) -> (r:
    bool)
    ensures
        r == spec_trigger_applicable(*trigger, queue_name@, stat@),
{
    let type_matches = trigger.stat_type() == stat.stat_type;
    match &trigger.data().queue {
        Some(q) => str_eq(q.as_str(), queue_name) && type_matches,
        None => type_matches,
    }
}

/// Whether a value passes the threshold strictly in the configured
/// direction.
pub fn is_threshold_passed(stat_value: StatValue, trigger_data: &TriggerData) -> (r: bool)
    ensures
        r == spec_threshold_passed(stat_value, *trigger_data),
{
    match trigger_data.trigger_when {
        TriggerWhen::Above => stat_value > trigger_data.threshold,
        TriggerWhen::Below => stat_value < trigger_data.threshold,
    }
}

fn clone_opt_string(o: &Option<String>) -> (r: Option<String>)
    ensures
        r == *o,
{
    match o {
        Some(s) => Some(s.clone()),
        None => None,
    }
}

/// The candidate alerts one trigger raises over the tick's readings: one per
/// reading that matches the trigger and passes its threshold.
pub fn build_msgs_for_trigger(
    queue_info: &[QueueInfo],
    trigger: &Trigger,
    slack_config: &SlackConfig,
) -> (r: Vec<SlackMsg>)
    ensures
        msgs_view(r@) == spec_msgs_for_trigger(qis_view(queue_info@), *trigger, *slack_config),
{
    let ghost qv = qis_view(queue_info@);
    let ghost cf = spec_candidate_fn(*trigger, *slack_config);
    let mut msgs: Vec<SlackMsg> = Vec::new();
    let mut i: usize = 0;
    proof {
        assert(qv.take(0).filter_map(cf) =~= Seq::<SlackMsgV>::empty());
        assert(msgs_view(msgs@) =~= Seq::<SlackMsgV>::empty());
    }
    while i < queue_info.len()
        invariant
            i <= queue_info.len(),
            qv == qis_view(queue_info@),
            qv.len() == queue_info@.len(),
            cf == spec_candidate_fn(*trigger, *slack_config),
            msgs_view(msgs@) == qv.take(i as int).filter_map(cf),
        decreases queue_info.len() - i,
    {
        proof {
            Seq::lemma_filter_map_take_succ(qv, cf, i as int);
            assert(qv[i as int] == queue_info@[i as int]@);
        }
        let qi = &queue_info[i];
        if check_trigger_applicability(trigger, qi.name.as_str(), &qi.stat)
            && is_threshold_passed(qi.stat.value, trigger.data()) {
            let mut channel = "#".to_owned();
            channel.append(slack_config.channel.as_str());
            let ghost pre = msgs@;
            let msg = SlackMsg {
                username: slack_config.screen_name.clone(),
                icon_url: clone_opt_string(&slack_config.icon_url),
                icon_emoji: clone_opt_string(&slack_config.icon_emoji),
                channel,
                metadata: SlackMsgMetadata {
                    queue_name: qi.name.clone(),
                    threshold: trigger.data().threshold,
                    current_value: qi.stat.value,
                    trigger_type: trigger.name().to_owned(),
                },
            };
            proof {
                assert(msg@ == spec_candidate_msg(*slack_config, *trigger, qv[i as int]));
            }
            msgs.push(msg);
            proof {
                assert(msgs_view(msgs@) =~= msgs_view(pre) + seq![msgs@.last()@]);
            }
        }
        i += 1;
    }
    proof {
        assert(qv.take(qv.len() as int) =~= qv);
    }
    msgs
}

/// Returns `true` iff `current_ts` lies strictly past the expiration window
/// that started at `sent_ts`. A candidate arriving exactly at the window's
/// end is still within it.
pub fn window_elapsed(sent_ts: u64, expiration_in_seconds: u64, current_ts: u64) -> (r: bool)
    ensures
        r == (sent_ts + expiration_in_seconds < current_ts),
{
    current_ts > sent_ts && current_ts - sent_ts > expiration_in_seconds
}

/// Failure to read the wall clock.
#[derive(Debug, Clone, Copy, PartialEq, Eq, Structural)]
pub struct ClockError;

/// Relies on std's `SystemTime::now` and `duration_since(UNIX_EPOCH)`: the
/// current wall-clock time in whole seconds since the UNIX epoch. Nothing
/// can be promised of the value itself.
#[verifier::external_body]
fn read_system_clock() -> Result<u64, ClockError> {
    match std::time::SystemTime::now().duration_since(std::time::UNIX_EPOCH) {
        Ok(d) => Ok(d.as_secs()),
        Err(_) => Err(ClockError),
    }
}

/// The current wall-clock time in whole seconds since the UNIX epoch, or an
/// error in catastrophic clock conditions. Wall-clock time depends on the
/// machine alone, so no more can be said of the value.
pub fn get_unix_timestamp() -> (r: Result<UnixTimestamp, ClockError>) {
    read_system_clock()
}

/// What the dedup gate decided for one candidate alert.
#[derive(Debug, Clone, Copy, PartialEq, Eq, Structural)]
pub enum ExpirationStatus {
    /// An entry existed and its window has elapsed: notify again.
    Expired,
    /// No entry existed yet for this key: notify for the first time.
    NotSentYet,
    /// An entry exists and its window is still active: suppress.
    NotExpired,
}

/// The queue-name half of a dedup key.
pub type QueueName = String;

/// The trigger-name half of a dedup key.
pub type TriggerType = String;

/// The time-windowed dedup log: for each (queue, trigger-name) key, when the
/// last notification for it went out. In-memory only; its lifetime is the
/// polling loop's.
#[derive(Debug)]
pub struct MsgExpirationLog {
    entries: Vec<(QueueName, TriggerType, UnixTimestamp)>,
}

spec fn spec_log_map(entries: Seq<(String, String, u64)>) -> Map<(Seq<char>, Seq<char>), u64>
    decreases entries.len(),
{
    if entries.len() == 0 {
        Map::empty()
    } else {
        spec_log_map(entries.drop_last()).insert(
            (entries.last().0@, entries.last().1@),
            entries.last().2,
        )
    }
}

impl View for MsgExpirationLog {
    type V = Map<(Seq<char>, Seq<char>), u64>;

    closed spec fn view(&self) -> Map<(Seq<char>, Seq<char>), u64> {
        spec_log_map(self.entries@)
    }
}

proof fn lemma_log_map_get(entries: Seq<(String, String, u64)>, i: int)
    requires
        0 <= i < entries.len(),
        forall|j: int|
            i < j < entries.len() ==> (#[trigger] entries[j].0@, entries[j].1@) != (
                entries[i].0@,
                entries[i].1@,
            ),
    ensures
        spec_log_map(entries).contains_key((entries[i].0@, entries[i].1@)),
        spec_log_map(entries)[(entries[i].0@, entries[i].1@)] == entries[i].2,
    decreases entries.len(),
{
    if i < entries.len() - 1 {
        assert(entries.drop_last()[i] == entries[i]);
        lemma_log_map_get(entries.drop_last(), i);
    }
}

proof fn lemma_log_map_absent(entries: Seq<(String, String, u64)>, k: (Seq<char>, Seq<char>))
    requires
        forall|j: int| 0 <= j < entries.len() ==> (#[trigger] entries[j].0@, entries[j].1@) != k,
    ensures
        !spec_log_map(entries).contains_key(k),
    decreases entries.len(),
{
    if entries.len() > 0 {
        assert(entries[entries.len() - 1] == entries.last());
        lemma_log_map_absent(entries.drop_last(), k);
    }
}

proof fn lemma_log_map_update(entries: Seq<(String, String, u64)>, i: int, ts: u64)
    requires
        0 <= i < entries.len(),
        forall|j: int|
            i < j < entries.len() ==> (#[trigger] entries[j].0@, entries[j].1@) != (
                entries[i].0@,
                entries[i].1@,
            ),
    ensures
        spec_log_map(entries.update(i, (entries[i].0, entries[i].1, ts)))
            == spec_log_map(entries).insert((entries[i].0@, entries[i].1@), ts),
    decreases entries.len(),
{
    let k = (entries[i].0@, entries[i].1@);
    let entries2 = entries.update(i, (entries[i].0, entries[i].1, ts));
    if i == entries.len() - 1 {
        assert(entries2.drop_last() =~= entries.drop_last());
        assert(entries2.last() == (entries[i].0, entries[i].1, ts));
        assert_maps_equal!(
            spec_log_map(entries.drop_last()).insert(k, ts),
            spec_log_map(entries).insert(k, ts)
        );
    } else {
        assert(entries.drop_last()[i] == entries[i]);
        lemma_log_map_update(entries.drop_last(), i, ts);
        assert(entries2.drop_last() =~= entries.drop_last().update(
            i,
            (entries[i].0, entries[i].1, ts),
        ));
        assert(entries2.last() == entries.last());
        let lk = (entries.last().0@, entries.last().1@);
        assert(lk != k);
        assert_maps_equal!(
            spec_log_map(entries.drop_last()).insert(k, ts).insert(lk, entries.last().2),
            spec_log_map(entries).insert(k, ts)
        );
    }
}

impl MsgExpirationLog {
    /// No two entries share a key, so each key has one authoritative
    /// timestamp.
    pub closed spec fn wf(&self) -> bool {
        forall|i: int, j: int|
            0 <= i < j < self.entries@.len() ==> (#[trigger] self.entries@[i].0@,
            self.entries@[i].1@) != (#[trigger] self.entries@[j].0@, self.entries@[j].1@)
    }

    /// An empty log: no key has been notified yet.
    pub fn new() -> (r: Self)
        ensures
            r.wf(),
            r@ == Map::<(Seq<char>, Seq<char>), u64>::empty(),
    {
        MsgExpirationLog { entries: Vec::new() }
    }

    fn find_entry(&self, q: &str, t: &str) -> (r: Option<usize>)
        ensures
            match r {
                Some(i) => {
                    &&& i < self.entries@.len()
                    &&& (self.entries@[i as int].0@, self.entries@[i as int].1@) == (q@, t@)
                    &&& forall|j: int|
                        0 <= j < i ==> (#[trigger] self.entries@[j].0@, self.entries@[j].1@) != (
                            q@,
                            t@,
                        )
                },
                None => forall|j: int|
                    0 <= j < self.entries@.len() ==> (#[trigger] self.entries@[j].0@,
                    self.entries@[j].1@) != (q@, t@),
            },
    {
        let mut i: usize = 0;
        while i < self.entries.len()
            invariant
                i <= self.entries@.len(),
                forall|j: int|
                    0 <= j < i ==> (#[trigger] self.entries@[j].0@, self.entries@[j].1@) != (
                        q@,
                        t@,
                    ),
            decreases self.entries@.len() - i,
        {
            let e = &self.entries[i];
            if str_eq(e.0.as_str(), q) && str_eq(e.1.as_str(), t) {
                return Some(i);
            }
            i += 1;
        }
        None
    }
}

/// The dedup decision for one key and one timestamp, given the log so far.
pub open spec fn spec_dedup_decision(
    log: Map<(Seq<char>, Seq<char>), u64>,
    key: (Seq<char>, Seq<char>),
    current_ts: u64,
    expiration_in_seconds: u64,
) -> ExpirationStatus {
    if !log.contains_key(key) {
        ExpirationStatus::NotSentYet
    } else if log[key] + expiration_in_seconds < current_ts {
        ExpirationStatus::Expired
    } else {
        ExpirationStatus::NotExpired
    }
}

/// The successor log after one dedup decision: the key's timestamp is
/// created or renewed exactly when the decision notifies, and nothing else
/// moves.
pub open spec fn spec_dedup_next(
    log: Map<(Seq<char>, Seq<char>), u64>,
    key: (Seq<char>, Seq<char>),
    current_ts: u64,
    expiration_in_seconds: u64,
) -> Map<(Seq<char>, Seq<char>), u64> {
    if !log.contains_key(key) || log[key] + expiration_in_seconds < current_ts {
        log.insert(key, current_ts)
    } else {
        log
    }
}

/// The dedup gate: decides one candidate and mutates the log in the same
/// step.
///
/// A fresh key notifies for the first time and is recorded at `current_ts`;
/// a key whose window has elapsed strictly notifies again and is renewed; a
/// key within its window (the boundary included) is suppressed unchanged.
pub fn has_msg_expired(
    msg_expiration_log: &mut MsgExpirationLog,
    queue_trigger_type: (QueueName, TriggerType),
    current_ts: UnixTimestamp,
    expiration_in_seconds: u64,
) -> (r: ExpirationStatus)
    requires
        old(msg_expiration_log).wf(),
    ensures
        final(msg_expiration_log).wf(),
        r == spec_dedup_decision(
            old(msg_expiration_log)@,
            (queue_trigger_type.0@, queue_trigger_type.1@),
            current_ts,
            expiration_in_seconds,
        ),
        final(msg_expiration_log)@ == spec_dedup_next(
            old(msg_expiration_log)@,
            (queue_trigger_type.0@, queue_trigger_type.1@),
            current_ts,
            expiration_in_seconds,
        ),
{
    let (q, t) = queue_trigger_type;
    let ghost k = (q@, t@);
    match msg_expiration_log.find_entry(q.as_str(), t.as_str()) {
        Some(i) => {
            proof {
                lemma_log_map_get(msg_expiration_log.entries@, i as int);
            }
            let last_ts = msg_expiration_log.entries[i].2;
            if window_elapsed(last_ts, expiration_in_seconds, current_ts) {
                let ghost pre = msg_expiration_log.entries@;
                let e = msg_expiration_log.entries.remove(i);
                msg_expiration_log.entries.insert(i, (e.0, e.1, current_ts));
                proof {
                    assert(msg_expiration_log.entries@ =~= pre.update(
                        i as int,
                        (pre[i as int].0, pre[i as int].1, current_ts),
                    ));
                    lemma_log_map_update(pre, i as int, current_ts);
                }
                ExpirationStatus::Expired
            } else {
                ExpirationStatus::NotExpired
            }
        },
        None => {
            proof {
                lemma_log_map_absent(msg_expiration_log.entries@, k);
            }
            let ghost pre = msg_expiration_log.entries@;
            msg_expiration_log.entries.push((q, t, current_ts));
            proof {
                assert(msg_expiration_log.entries@.drop_last() =~= pre);
                assert(forall|j: int|
                    0 <= j < pre.len() ==> msg_expiration_log.entries@[j] == pre[j]);
            }
            ExpirationStatus::NotSentYet
        },
    }
}

/// Dedup first-fire: the first candidate for a fresh key always notifies,
/// and the entry created for it records the call's timestamp.
pub proof fn lemma_dedup_first_fire(
    log: Map<(Seq<char>, Seq<char>), u64>,
    key: (Seq<char>, Seq<char>),
    current_ts: u64,
    expiration_in_seconds: u64,
)
    requires
        !log.contains_key(key),
    ensures
        spec_dedup_decision(log, key, current_ts, expiration_in_seconds)
            == ExpirationStatus::NotSentYet,
        spec_dedup_next(log, key, current_ts, expiration_in_seconds) == log.insert(
            key,
            current_ts,
        ),
        spec_dedup_next(log, key, current_ts, expiration_in_seconds)[key] == current_ts,
{
}

/// Dedup suppression: a candidate arriving while the key's window is still
/// active (the boundary included) is suppressed, and the recorded timestamp
/// does not move.
pub proof fn lemma_dedup_suppression(
    log: Map<(Seq<char>, Seq<char>), u64>,
    key: (Seq<char>, Seq<char>),
    current_ts: u64,
    expiration_in_seconds: u64,
)
    requires
        log.contains_key(key),
        log[key] + expiration_in_seconds >= current_ts,
    ensures
        spec_dedup_decision(log, key, current_ts, expiration_in_seconds)
            == ExpirationStatus::NotExpired,
        spec_dedup_next(log, key, current_ts, expiration_in_seconds) == log,
{
}

/// Dedup renewal: a candidate arriving strictly past the key's window
/// notifies again, and the entry is renewed to the call's timestamp.
pub proof fn lemma_dedup_renewal(
    log: Map<(Seq<char>, Seq<char>), u64>,
    key: (Seq<char>, Seq<char>),
    current_ts: u64,
    expiration_in_seconds: u64,
)
    requires
        log.contains_key(key),
        log[key] + expiration_in_seconds < current_ts,
    ensures
        spec_dedup_decision(log, key, current_ts, expiration_in_seconds)
            == ExpirationStatus::Expired,
        spec_dedup_next(log, key, current_ts, expiration_in_seconds) == log.insert(
            key,
            current_ts,
        ),
        spec_dedup_next(log, key, current_ts, expiration_in_seconds)[key] == current_ts,
{
}

} // verus!
