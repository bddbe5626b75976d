use vstd::prelude::*;

use crate::fsm::{fsm_wf, ignored, lemma_transition_wf, transition, FsmView};
use crate::smr::{counter_started, counter_stopped, pull_action};
use crate::smr_types::{EventView, KindView, Step, TriggerView};

verus! {

/// State reached from `s` after the triggers of `ts`, in order.
pub open spec fn state_after(s: FsmView, ts: Seq<TriggerView>) -> FsmView
    decreases ts.len(),
{
    if ts.len() == 0 {
        s
    } else {
        transition(state_after(s, ts.drop_last()), ts.last()).state
    }
}

/// Protocol events emitted from `s` by the triggers of `ts`, in order.
pub open spec fn emitted(s: FsmView, ts: Seq<TriggerView>) -> Seq<EventView>
    decreases ts.len(),
{
    if ts.len() == 0 {
        seq![]
    } else {
        emitted(s, ts.drop_last()) + transition(state_after(s, ts.drop_last()), ts.last()).protocol
    }
}

/// A new height is taken only one above the current one (any height from height 0),
/// announced by exactly one `NewRoundInfo` for it at round 0; a stale one emits nothing,
/// changes nothing and is no error; a refused one emits nothing and changes nothing.
pub proof fn lemma_new_height_monotonic(s: FsmView, t: TriggerView)
    requires
        fsm_wf(s),
        t.kind is NewHeight,
    ensures
        ({
            let o = transition(s, t);
            let h = t.kind->NewHeight_0;
            &&& h <= s.height ==> o.protocol.len() == 0 && o.state == s
            &&& o.protocol.len() > 0 ==> o.state.height == h && h > s.height && o.protocol == seq![
                EventView::NewRoundInfo { height: h, round: 0 },
            ]
            &&& o.protocol.len() > 0 && s.height != 0 ==> h == s.height + 1
            &&& o.protocol.len() == 0 ==> o.state == s
        }),
{
}

/// A trigger of any type below the current height is dropped: no event, no error, no change.
pub proof fn lemma_below_height_dropped(s: FsmView, t: TriggerView)
    requires
        t.height < s.height,
    ensures
        transition(s, t) == ignored(s),
{
}

/// Heights announced by the round-0 `NewRoundInfo` events of a sequence, in order.
pub open spec fn round_starts(evs: Seq<EventView>) -> Seq<u64>
    decreases evs.len(),
{
    if evs.len() == 0 {
        seq![]
    } else {
        let rest = round_starts(evs.drop_last());
        match evs.last() {
            EventView::NewRoundInfo { height, round } => if round == 0 {
                rest.push(height)
            } else {
                rest
            },
            _ => rest,
        }
    }
}

proof fn lemma_round_starts_append(a: Seq<EventView>, b: Seq<EventView>)
    requires
        b.len() <= 1,
    ensures
        round_starts(a + b) == round_starts(a) + round_starts(b),
{
    if b.len() == 0 {
        assert(a + b =~= a);
        assert(round_starts(a) + round_starts(b) =~= round_starts(a));
    } else {
        assert((a + b).drop_last() =~= a);
        assert((a + b).last() == b[0]);
        assert(b.drop_last() =~= Seq::<EventView>::empty());
        assert(round_starts(b.drop_last()) == Seq::<u64>::empty());
        assert(round_starts(a) + Seq::<u64>::empty() =~= round_starts(a));
        if let EventView::NewRoundInfo { height, round } = b[0] {
            if round == 0 {
                assert(round_starts(b) =~= seq![height]);
                assert(round_starts(a).push(height) =~= round_starts(a) + seq![height]);
            }
        }
    }
}

/// One trigger, past height 0, gains at most one height, and announces it exactly when it does.
proof fn lemma_step_starts(s: FsmView, t: TriggerView)
    requires
        fsm_wf(s),
        s.height > 0,
    ensures
        ({
            let o = transition(s, t);
            &&& o.state.height == s.height ==> round_starts(o.protocol) == Seq::<u64>::empty()
            &&& o.state.height != s.height ==> o.state.height == s.height + 1 && round_starts(o.protocol) == seq![
                o.state.height,
            ]
        }),
{
    let o = transition(s, t);
    assert(Seq::<EventView>::empty().len() == 0);
    if o.protocol.len() == 1 {
        assert(o.protocol.drop_last() =~= Seq::<EventView>::empty());
        assert(o.protocol.last() == o.protocol[0]);
        assert(round_starts(o.protocol.drop_last()) == Seq::<u64>::empty());
        if let EventView::NewRoundInfo { height, round } = o.protocol[0] {
            if round == 0 {
                assert(round_starts(o.protocol) =~= seq![height]);
            }
        }
    }
}

/// Once past height 0, the new heights announced over any sequence of triggers are
/// exactly the heights one above the start, each one more than the one before; there
/// is one for each height gained.
pub proof fn lemma_heights_consecutive(s: FsmView, ts: Seq<TriggerView>)
    requires
        fsm_wf(s),
        s.height > 0,
    ensures
        fsm_wf(state_after(s, ts)),
        round_starts(emitted(s, ts)).len() == state_after(s, ts).height - s.height,
        forall|i: int|
            0 <= i < round_starts(emitted(s, ts)).len() ==> #[trigger] round_starts(emitted(s, ts))[i] == s.height
                + 1 + i,
    decreases ts.len(),
{
    if ts.len() == 0 {
        assert(round_starts(emitted(s, ts)) =~= Seq::<u64>::empty());
    } else {
        let p = ts.drop_last();
        lemma_heights_consecutive(s, p);
        let s1 = state_after(s, p);
        let o = transition(s1, ts.last());
        lemma_transition_wf(s1, ts.last());
        lemma_step_starts(s1, ts.last());
        lemma_round_starts_append(emitted(s, p), o.protocol);
        let hs = round_starts(emitted(s, ts));
        let hp = round_starts(emitted(s, p));
        assert(hs == hp + round_starts(o.protocol));
        assert forall|i: int| 0 <= i < hs.len() implies #[trigger] hs[i] == s.height + 1 + i by {
            if i < hp.len() {
                assert(hs[i] == hp[i]);
            }
        }
    }
}

/// No trigger lowers the height.
pub proof fn lemma_height_never_decreases(s: FsmView, ts: Seq<TriggerView>)
    ensures
        state_after(s, ts).height >= s.height,
    decreases ts.len(),
{
    if ts.len() > 0 {
        lemma_height_never_decreases(s, ts.drop_last());
    }
}

/// An accepted new height starts round 0 at the propose step; an accepted timeout moves
/// to the next round of the same height, at the propose step.
pub proof fn lemma_round_reset(s: FsmView, t: TriggerView)
    requires
        fsm_wf(s),
    ensures
        ({
            let o = transition(s, t);
            &&& t.kind is NewHeight && o.state != s ==> o.state.round == 0 && o.state.step == Step::Propose
            &&& t.kind is Timeout && o.state != s ==> o.state.height == s.height && o.state.round == s.round + 1
                && o.state.step == Step::Propose
        }),
{
}

/// Protocol events emitted within a round, from its propose step up to the state `s`.
pub open spec fn round_log(s: FsmView) -> Seq<EventView> {
    match s.step {
        Step::Propose => seq![],
        Step::Prevote => seq![EventView::PrevoteVote { hash: s.lock.unwrap() }],
        Step::Precommit => seq![
            EventView::PrevoteVote { hash: s.lock.unwrap() },
            EventView::PrecommitVote { hash: s.lock.unwrap() },
        ],
        Step::Commit => seq![
            EventView::PrevoteVote { hash: s.lock.unwrap() },
            EventView::PrecommitVote { hash: s.lock.unwrap() },
            EventView::Commit { height: s.height, hash: s.lock.unwrap() },
        ],
    }
}

/// Every state passed through, the last included, has height `h` and round `r`.
pub open spec fn stays_at(s: FsmView, ts: Seq<TriggerView>, h: u64, r: u64) -> bool {
    forall|k: int| 0 <= k <= ts.len() ==> #[trigger] state_after(s, ts.take(k)).height == h && state_after(s, ts.take(k)).round == r
}

proof fn lemma_round_log(s: FsmView, ts: Seq<TriggerView>, h: u64, r: u64)
    requires
        fsm_wf(s),
        s.step == Step::Propose,
        stays_at(s, ts, h, r),
    ensures
        emitted(s, ts) == round_log(state_after(s, ts)),
        fsm_wf(state_after(s, ts)),
    decreases ts.len(),
{
    assert(ts.take(ts.len() as int) =~= ts);
    if ts.len() > 0 {
        let p = ts.drop_last();
        assert forall|k: int| 0 <= k <= p.len() implies #[trigger] state_after(s, p.take(k)).height == h && state_after(
            s,
            p.take(k),
        ).round == r by {
            assert(p.take(k) =~= ts.take(k));
        }
        lemma_round_log(s, p, h, r);
        assert(state_after(s, ts.take(ts.len() as int)).height == h);
        assert(state_after(s, ts.take(ts.len() as int)).round == r);
        assert(ts.take(p.len() as int) =~= p);
        assert(state_after(s, ts.take(p.len() as int)).height == h);
        lemma_transition_keeps_log(state_after(s, p), ts.last());
    }
}

proof fn lemma_transition_keeps_log(s: FsmView, t: TriggerView)
    requires
        fsm_wf(s),
        transition(s, t).state.height == s.height,
        transition(s, t).state.round == s.round,
    ensures
        round_log(s) + transition(s, t).protocol == round_log(transition(s, t).state),
        fsm_wf(transition(s, t).state),
{
    let o = transition(s, t);
    assert(round_log(s) + o.protocol =~= round_log(o.state));
}

pub open spec fn is_precommit(e: EventView) -> bool {
    e is PrecommitVote
}

/// `a` is the prevote for the hash that the precommit `b` is for.
pub open spec fn prevote_before(a: EventView, b: EventView) -> bool {
    a == (EventView::PrevoteVote { hash: b->PrecommitVote_hash })
}

/// Within one round, started at its propose step, at most one `PrecommitVote` is emitted,
/// and only after a `PrevoteVote` for the same hash.
pub proof fn lemma_single_precommit(s: FsmView, ts: Seq<TriggerView>, h: u64, r: u64)
    requires
        fsm_wf(s),
        s.step == Step::Propose,
        stays_at(s, ts, h, r),
    ensures
        forall|i: int, j: int|
            0 <= i < emitted(s, ts).len() && 0 <= j < emitted(s, ts).len() && is_precommit(
                #[trigger] emitted(s, ts)[i],
            ) && is_precommit(#[trigger] emitted(s, ts)[j]) ==> i == j,
        forall|i: int|
            0 <= i < emitted(s, ts).len() && is_precommit(#[trigger] emitted(s, ts)[i]) ==> 0 < i
                && prevote_before(emitted(s, ts)[i - 1], emitted(s, ts)[i]),
{
    lemma_round_log(s, ts, h, r);
}

/// The trigger acts only at this step of its height and round.
pub open spec fn acts_at(k: KindView) -> Step {
    match k {
        KindView::PrevoteQC => Step::Prevote,
        KindView::PrecommitQC => Step::Precommit,
        _ => Step::Propose,
    }
}

pub open spec fn is_vote_path(k: KindView) -> bool {
    k is Proposal || k is PrevoteQC || k is PrecommitQC
}

/// A proposal or quorum certificate that is not for the current height, round and step
/// is dropped: no event, no error, no change.
pub proof fn lemma_stale_dropped(s: FsmView, t: TriggerView)
    requires
        is_vote_path(t.kind),
        !(t.height == s.height && t.round == Some(s.round) && s.step == acts_at(t.kind)),
    ensures
        transition(s, t) == ignored(s),
{
}

/// Once a proposal or quorum certificate has been delivered, delivering it again, any
/// number of times, emits nothing, reports no error and changes nothing.
pub proof fn lemma_redelivery(s: FsmView, t: TriggerView, n: nat)
    requires
        fsm_wf(s),
        is_vote_path(t.kind),
    ensures
        ({
            let s1 = transition(s, t).state;
            &&& transition(s1, t) == ignored(s1)
            &&& state_after(s1, Seq::new(n, |i: int| t)) == s1
            &&& emitted(s1, Seq::new(n, |i: int| t)) == Seq::<EventView>::empty()
        }),
    decreases n,
{
    let s1 = transition(s, t).state;
    if n > 0 {
        lemma_redelivery(s, t, (n - 1) as nat);
        assert(Seq::new(n, |i: int| t).drop_last() =~= Seq::new((n - 1) as nat, |i: int| t));
        assert(emitted(s1, Seq::new(n, |i: int| t)) =~= Seq::<EventView>::empty());
    }
}

/// The drive loop stops on a pull exactly when the queue is exhausted.
pub proof fn lemma_stop_only_on_exhaustion(s: FsmView, pulled: Option<TriggerView>)
    ensures
        (pull_action(s, pulled) is Stop) == (pulled is None),
{
}

/// Starting and then stopping a drive loop leaves the instance counter where it was.
pub proof fn lemma_counter_net_zero(n: u64)
    requires
        n < u64::MAX,
    ensures
        counter_stopped(counter_started(n)) == n,
{
}

} // verus!
