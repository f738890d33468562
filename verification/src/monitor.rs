//! The per-tick decision core: the tick's readings and the configured
//! triggers go in, the gated alerts to dispatch come out, and the dedup log
//! is mutated in the same synchronous step — strictly before any dispatch
//! can happen.

use vstd::prelude::*;

use crate::config::{SlackConfig, Trigger};
use crate::rmq::{qis_view, QueueInfo, QueueInfoV};
use crate::slack::{msgs_view, SlackMsg, SlackMsgV};
use crate::utils::{
    build_msgs_for_trigger, has_msg_expired, spec_dedup_decision, spec_dedup_next,
    spec_msgs_for_trigger, ExpirationStatus, MsgExpirationLog, UnixTimestamp,
};

verus! {

/// All candidate alerts of one tick: triggers outer, readings inner.
pub open spec fn spec_all_candidates(
    qis: Seq<QueueInfoV>,
    triggers: Seq<Trigger>,
    cfg: SlackConfig,
) -> Seq<SlackMsgV>
    decreases triggers.len(),
{
    if triggers.len() == 0 {
        Seq::empty()
    } else {
        spec_all_candidates(qis, triggers.drop_last(), cfg) + spec_msgs_for_trigger(
            qis,
            triggers.last(),
            cfg,
        )
    }
}

/// The dedup key of a candidate alert: its queue name and trigger name.
pub open spec fn spec_msg_key(m: SlackMsgV) -> (Seq<char>, Seq<char>) {
    (m.metadata.queue_name, m.metadata.trigger_type)
}

/// The dedup log after gating a sequence of candidates in order.
pub open spec fn spec_gate_log(
    log: Map<(Seq<char>, Seq<char>), u64>,
    msgs: Seq<SlackMsgV>,
    current_ts: u64,
    expiration_in_seconds: u64,
) -> Map<(Seq<char>, Seq<char>), u64>
    decreases msgs.len(),
{
    if msgs.len() == 0 {
        log
    } else {
        spec_dedup_next(
            spec_gate_log(log, msgs.drop_last(), current_ts, expiration_in_seconds),
            spec_msg_key(msgs.last()),
            current_ts,
            expiration_in_seconds,
        )
    }
}

/// The candidates that survive gating a sequence in order: exactly those
/// whose decision, against the log as mutated by their predecessors, is not
/// a suppression.
pub open spec fn spec_gate_out(
    log: Map<(Seq<char>, Seq<char>), u64>,
    msgs: Seq<SlackMsgV>,
    current_ts: u64,
    expiration_in_seconds: u64,
) -> Seq<SlackMsgV>
    decreases msgs.len(),
{
    if msgs.len() == 0 {
        Seq::empty()
    } else {
        let gated = spec_gate_out(log, msgs.drop_last(), current_ts, expiration_in_seconds);
        let log_before = spec_gate_log(log, msgs.drop_last(), current_ts, expiration_in_seconds);
        if spec_dedup_decision(log_before, spec_msg_key(msgs.last()), current_ts,
            expiration_in_seconds) != ExpirationStatus::NotExpired {
            gated + seq![msgs.last()]
        } else {
            gated
        }
    }
}

/// One synchronous evaluation tick: match every trigger against every
/// reading, gate each candidate against the dedup log in order, and return
/// the alerts to dispatch.
pub fn process_tick(
    queue_info: &Vec<QueueInfo>,
    triggers: &Vec<Trigger>,
    slack_config: &SlackConfig,
    msg_expiration_log: &mut MsgExpirationLog,
    current_ts: UnixTimestamp,
    expiration_in_seconds: u64,
) -> (r: Vec<SlackMsg>)
    requires
        old(msg_expiration_log).wf(),
    ensures
        final(msg_expiration_log).wf(),
        final(msg_expiration_log)@ == spec_gate_log(
            old(msg_expiration_log)@,
            spec_all_candidates(qis_view(queue_info@), triggers@, *slack_config),
            current_ts,
            expiration_in_seconds,
        ),
        msgs_view(r@) == spec_gate_out(
            old(msg_expiration_log)@,
            spec_all_candidates(qis_view(queue_info@), triggers@, *slack_config),
            current_ts,
            expiration_in_seconds,
        ),
{
    let ghost qv = qis_view(queue_info@);
    let mut cands: Vec<SlackMsg> = Vec::new();
    let mut i: usize = 0;
    proof {
        assert(spec_all_candidates(qv, triggers@.take(0), *slack_config) =~= Seq::<
            SlackMsgV,
        >::empty());
        assert(msgs_view(cands@) =~= Seq::<SlackMsgV>::empty());
    }
    while i < triggers.len()
        invariant
            i <= triggers.len(),
            qv == qis_view(queue_info@),
            msgs_view(cands@) == spec_all_candidates(qv, triggers@.take(i as int), *slack_config),
        decreases triggers.len() - i,
    {
        let ghost pre = cands@;
        let mut ms = build_msgs_for_trigger(queue_info.as_slice(), &triggers[i], slack_config);
        let ghost msv = ms@;
        cands.append(&mut ms);
        proof {
            assert(triggers@.take(i + 1).drop_last() =~= triggers@.take(i as int));
            assert(triggers@.take(i + 1).last() == triggers@[i as int]);
            assert(msgs_view(cands@) =~= msgs_view(pre) + msgs_view(msv));
        }
        i += 1;
    }
    proof {
        assert(triggers@.take(triggers@.len() as int) =~= triggers@);
    }
    let ghost all = msgs_view(cands@);
    let ghost log0 = msg_expiration_log@;
    let mut out: Vec<SlackMsg> = Vec::new();
    let ghost mut done: int = 0;
    proof {
        assert(all.take(0) =~= Seq::<SlackMsgV>::empty());
        assert(msgs_view(out@) =~= Seq::<SlackMsgV>::empty());
        assert(msgs_view(cands@) =~= all.skip(0));
    }
    while cands.len() > 0
        invariant
            0 <= done <= all.len(),
            msg_expiration_log.wf(),
            msgs_view(cands@) == all.skip(done),
            cands@.len() == all.len() - done,
            log0 == old(msg_expiration_log)@,
            msg_expiration_log@ == spec_gate_log(
                log0,
                all.take(done),
                current_ts,
                expiration_in_seconds,
            ),
            msgs_view(out@) == spec_gate_out(
                log0,
                all.take(done),
                current_ts,
                expiration_in_seconds,
            ),
        decreases cands@.len(),
    {
        proof {
            assert(all.skip(done)[0] == all[done]);
        }
        let ghost pre_cands = cands@;
        let m = cands.remove(0);
        proof {
            assert(m@ == all[done]);
            assert(cands@ =~= pre_cands.drop_first());
            assert forall|j: int| 0 <= j < cands@.len() implies msgs_view(cands@)[j] == all.skip(
                done + 1,
            )[j] by {
                assert(msgs_view(cands@)[j] == cands@[j]@);
                assert(cands@[j] == pre_cands[j + 1]);
                assert(pre_cands[j + 1]@ == msgs_view(pre_cands)[j + 1]);
                assert(msgs_view(pre_cands)[j + 1] == all.skip(done)[j + 1]);
                assert(all.skip(done)[j + 1] == all[done + 1 + j]);
            }
            assert(msgs_view(cands@) =~= all.skip(done + 1));
        }
        let q = m.metadata.queue_name.clone();
        let t = m.metadata.trigger_type.clone();
        let status = has_msg_expired(
            msg_expiration_log,
            (q, t),
            current_ts,
            expiration_in_seconds,
        );
        let ghost pre_out = out@;
        match status {
            ExpirationStatus::NotExpired => {},
            _ => {
                out.push(m);
                proof {
                    assert(msgs_view(out@) =~= msgs_view(pre_out) + seq![out@.last()@]);
                }
            },
        }
        proof {
            assert(all.take(done + 1).drop_last() =~= all.take(done));
            assert(all.take(done + 1).last() == all[done]);
            done = done + 1;
        }
    }
    proof {
        assert(all.take(done) =~= all);
    }
    out
}

} // verus!
