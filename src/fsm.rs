use vstd::prelude::*;

use crate::error::{ConsensusError, ConsensusResult};
use crate::smr_types::{
    events_view, hash_opt_view, EventView, KindView, SMREvent, SMRTrigger, Step, TriggerType,
    TriggerView,
};

verus! {

/// Timeout of the propose step of round 0, in milliseconds.
pub const BASE_TIMEOUT_MS: u64 = 3000;

/// Extra timeout per round, in milliseconds.
pub const BACKOFF_MS: u64 = 1000;

/// Model of the state machine: the active (height, round, step) and the locked hash.
pub struct FsmView {
    pub height: u64,
    pub round: u64,
    pub step: Step,
    pub lock: Option<Seq<u8>>,
}

/// Model of what one trigger does: the next state, the events on each channel, the result.
pub struct Outcome {
    pub state: FsmView,
    pub protocol: Seq<EventView>,
    pub timer: Seq<EventView>,
    pub result: Result<(), ConsensusError>,
}

/// A hash is locked exactly from the prevote step on; height 0 is only the state at
/// construction, which nothing but a new height or a recovery leaves.
pub open spec fn fsm_wf(s: FsmView) -> bool {
    &&& (s.lock is Some) == (s.step != Step::Propose)
    &&& s.height == 0 ==> s == initial_view()
}

/// The state at construction: nothing decided yet.
pub open spec fn initial_view() -> FsmView {
    FsmView { height: 0, round: 0, step: Step::Propose, lock: None }
}

/// Propose timeout of a round: grows by a fixed amount per round, saturating at `u64::MAX`.
pub open spec fn timeout_ms(round: u64) -> u64 {
    if BASE_TIMEOUT_MS + round * BACKOFF_MS <= u64::MAX {
        (BASE_TIMEOUT_MS + round * BACKOFF_MS) as u64
    } else {
        u64::MAX
    }
}

/// A trigger that is handled and changes nothing.
pub open spec fn ignored(s: FsmView) -> Outcome {
    Outcome { state: s, protocol: seq![], timer: seq![], result: Ok(()) }
}

/// A trigger that is reported as an error and changes nothing.
pub open spec fn refused(s: FsmView, e: ConsensusError) -> Outcome {
    Outcome { state: s, protocol: seq![], timer: seq![], result: Err(e) }
}

/// The trigger concerns the active height and round.
pub open spec fn current(s: FsmView, t: TriggerView) -> bool {
    s.height != 0 && t.height == s.height && t.round == Some(s.round)
}

/// Start of a round: propose step, nothing locked, both announced on their channels.
pub open spec fn enter_round(height: u64, round: u64) -> Outcome {
    Outcome {
        state: FsmView { height, round, step: Step::Propose, lock: None },
        protocol: seq![EventView::NewRoundInfo { height, round }],
        timer: seq![EventView::ScheduleTimeout { height, round, step: Step::Propose, duration: timeout_ms(round) }],
        result: Ok(()),
    }
}

/// The transition table of the state machine.
pub open spec fn transition(s: FsmView, t: TriggerView) -> Outcome {
    if t.height < s.height {
        ignored(s)
    } else {
        transition_at_or_above(s, t)
    }
}

/// The transition table for a trigger not below the current height.
pub open spec fn transition_at_or_above(s: FsmView, t: TriggerView) -> Outcome {
    match t.kind {
        KindView::NewHeight(h) => {
            if h != t.height {
                refused(s, ConsensusError::MalformedTrigger)
            } else if h <= s.height {
                ignored(s)
            } else if s.height == 0 || h == s.height + 1 {
                enter_round(h, 0)
            } else {
                refused(s, ConsensusError::OutOfOrderHeight { current: s.height, received: h })
            }
        },
        KindView::Proposal => {
            if current(s, t) && s.step == Step::Propose {
                Outcome {
                    state: FsmView { step: Step::Prevote, lock: Some(t.hash), ..s },
                    protocol: seq![EventView::PrevoteVote { hash: t.hash }],
                    timer: seq![EventView::CancelTimeout { step: Step::Propose }],
                    result: Ok(()),
                }
            } else {
                ignored(s)
            }
        },
        KindView::PrevoteQC => {
            if current(s, t) && s.step == Step::Prevote {
                Outcome {
                    state: FsmView { step: Step::Precommit, ..s },
                    protocol: seq![EventView::PrecommitVote { hash: s.lock.unwrap() }],
                    timer: seq![EventView::CancelTimeout { step: Step::Prevote }],
                    result: Ok(()),
                }
            } else {
                ignored(s)
            }
        },
        KindView::PrecommitQC => {
            if current(s, t) && s.step == Step::Precommit {
                Outcome {
                    state: FsmView { step: Step::Commit, ..s },
                    protocol: seq![EventView::Commit { height: s.height, hash: s.lock.unwrap() }],
                    timer: seq![],
                    result: Ok(()),
                }
            } else {
                ignored(s)
            }
        },
        KindView::Timeout(st) => {
            if current(s, t) && st == s.step {
                if s.round == u64::MAX {
                    refused(s, ConsensusError::RoundOverflow)
                } else {
                    enter_round(s.height, (s.round + 1) as u64)
                }
            } else {
                ignored(s)
            }
        },
        KindView::ContinueRound | KindView::Recovery => {
            if s.height != 0 {
                ignored(s)
            } else {
                match t.wal {
                    None => refused(s, ConsensusError::MalformedRecovery),
                    Some(w) => {
                        let r = FsmView { height: w.height, round: w.round, step: w.step, lock: w.lock };
                        if w.height == 0 || !fsm_wf(r) {
                            refused(s, ConsensusError::MalformedRecovery)
                        } else {
                            Outcome { state: r, protocol: seq![], timer: seq![], result: Ok(()) }
                        }
                    },
                }
            }
        },
        KindView::Vote => ignored(s),
    }
}

/// Every transition keeps a state well formed.
pub proof fn lemma_transition_wf(s: FsmView, t: TriggerView)
    requires
        fsm_wf(s),
    ensures
        fsm_wf(transition(s, t).state),
{
}

/// What one trigger produced: the events for each channel and the result.
pub struct Transition {
    pub protocol: Vec<SMREvent>,
    pub timer: Vec<SMREvent>,
    pub result: ConsensusResult<()>,
}

/// The state machine's position; only the drive loop changes it.
#[derive(Debug)]
pub struct FsmState {
    height: u64,
    round: u64,
    step: Step,
    lock: Option<crate::types::Hash>,
}

impl View for FsmState {
    type V = FsmView;

    closed spec fn view(&self) -> FsmView {
        FsmView { height: self.height, round: self.round, step: self.step, lock: hash_opt_view(self.lock) }
    }
}

fn clone_hash_opt(h: &Option<crate::types::Hash>) -> (r: Option<crate::types::Hash>)
    ensures
        hash_opt_view(r) == hash_opt_view(*h),
{
    match h {
        Some(v) => Some(v.clone()),
        None => None,
    }
}

fn no_events() -> (r: Vec<SMREvent>)
    ensures
        events_view(r@) == Seq::<EventView>::empty(),
{
    let r: Vec<SMREvent> = Vec::new();
    assert(events_view(r@) =~= Seq::<EventView>::empty());
    r
}

fn one_event(e: SMREvent) -> (r: Vec<SMREvent>)
    ensures
        events_view(r@) == seq![e@],
{
    let mut r: Vec<SMREvent> = Vec::new();
    r.push(e);
    assert(events_view(r@) =~= seq![e@]);
    r
}

fn exec_timeout_ms(round: u64) -> (r: u64)
    ensures
        r == timeout_ms(round),
{
    match round.checked_mul(BACKOFF_MS) {
        Some(extra) => match extra.checked_add(BASE_TIMEOUT_MS) {
            Some(d) => d,
            None => u64::MAX,
        },
        None => {
            assert(round * BACKOFF_MS > u64::MAX);
            u64::MAX
        },
    }
}

impl FsmState {
    pub open spec fn wf(&self) -> bool {
        fsm_wf(self@)
    }

    /// The state at construction.
    pub fn new() -> (r: FsmState)
        ensures
            r@ == initial_view(),
            r.wf(),
    {
        FsmState { height: 0, round: 0, step: Step::Propose, lock: None }
    }

    pub fn height(&self) -> (r: u64)
        ensures
            r == self@.height,
    {
        self.height
    }

    pub fn round(&self) -> (r: u64)
        ensures
            r == self@.round,
    {
        self.round
    }

    pub fn step(&self) -> (r: Step)
        ensures
            r == self@.step,
    {
        self.step
    }

    /// The locked hash, if any.
    pub fn lock(&self) -> (r: Option<crate::types::Hash>)
        ensures
            hash_opt_view(r) == self@.lock,
    {
        clone_hash_opt(&self.lock)
    }

    fn start_round(&mut self, height: u64, round: u64) -> (r: Transition)
        ensures
            final(self)@ == enter_round(height, round).state,
            events_view(r.protocol@) == enter_round(height, round).protocol,
            events_view(r.timer@) == enter_round(height, round).timer,
            r.result == enter_round(height, round).result,
    {
        self.height = height;
        self.round = round;
        self.step = Step::Propose;
        self.lock = None;
        let duration = exec_timeout_ms(round);
        Transition {
            protocol: one_event(SMREvent::NewRoundInfo { height, round }),
            timer: one_event(SMREvent::ScheduleTimeout { height, round, step: Step::Propose, duration }),
            result: Ok(()),
        }
    }

    fn unchanged(result: ConsensusResult<()>) -> (r: Transition)
        ensures
            events_view(r.protocol@) == Seq::<EventView>::empty(),
            events_view(r.timer@) == Seq::<EventView>::empty(),
            r.result == result,
    {
        Transition { protocol: no_events(), timer: no_events(), result }
    }

    fn is_current(&self, t: &SMRTrigger) -> (r: bool)
        ensures
            r == current(self@, t@),
    {
        self.height != 0 && t.height == self.height && match t.round {
            Some(r) => r == self.round,
            None => false,
        }
    }

    /// Applies one trigger: moves to the next state and returns the events it emits.
    pub fn apply(&mut self, t: &SMRTrigger) -> (r: Transition)
        requires
            old(self).wf(),
        ensures
            final(self)@ == transition(old(self)@, t@).state,
            events_view(r.protocol@) == transition(old(self)@, t@).protocol,
            events_view(r.timer@) == transition(old(self)@, t@).timer,
            r.result == transition(old(self)@, t@).result,
            final(self).wf(),
    {
        proof {
            lemma_transition_wf(self@, t@);
        }
        if t.height < self.height {
            return Self::unchanged(Ok(()));
        }
        match &t.trigger_type {
            TriggerType::NewHeight(status) => {
                let h = status.height;
                if h != t.height {
                    Self::unchanged(Err(ConsensusError::MalformedTrigger))
                } else if h <= self.height {
                    Self::unchanged(Ok(()))
                } else if self.height == 0 || h == self.height + 1 {
                    self.start_round(h, 0)
                } else {
                    Self::unchanged(Err(ConsensusError::OutOfOrderHeight { current: self.height, received: h }))
                }
            },
            TriggerType::Proposal => {
                if self.is_current(t) && self.step == Step::Propose {
                    self.step = Step::Prevote;
                    self.lock = Some(t.hash.clone());
                    Transition {
                        protocol: one_event(SMREvent::PrevoteVote { hash: t.hash.clone() }),
                        timer: one_event(SMREvent::CancelTimeout { step: Step::Propose }),
                        result: Ok(()),
                    }
                } else {
                    Self::unchanged(Ok(()))
                }
            },
            TriggerType::PrevoteQC => {
                if self.is_current(t) && self.step == Step::Prevote {
                    self.step = Step::Precommit;
                    let hash = match &self.lock {
                        Some(h) => h.clone(),
                        None => Vec::new(),
                    };
                    Transition {
                        protocol: one_event(SMREvent::PrecommitVote { hash }),
                        timer: one_event(SMREvent::CancelTimeout { step: Step::Prevote }),
                        result: Ok(()),
                    }
                } else {
                    Self::unchanged(Ok(()))
                }
            },
            TriggerType::PrecommitQC => {
                if self.is_current(t) && self.step == Step::Precommit {
                    self.step = Step::Commit;
                    let hash = match &self.lock {
                        Some(h) => h.clone(),
                        None => Vec::new(),
                    };
                    Transition {
                        protocol: one_event(SMREvent::Commit { height: self.height, hash }),
                        timer: no_events(),
                        result: Ok(()),
                    }
                } else {
                    Self::unchanged(Ok(()))
                }
            },
            TriggerType::Timeout(st) => {
                if self.is_current(t) && *st == self.step {
                    if self.round == u64::MAX {
                        Self::unchanged(Err(ConsensusError::RoundOverflow))
                    } else {
                        let h = self.height;
                        let r = self.round + 1;
                        self.start_round(h, r)
                    }
                } else {
                    Self::unchanged(Ok(()))
                }
            },
            TriggerType::ContinueRound | TriggerType::Recovery => {
                if self.height != 0 {
                    Self::unchanged(Ok(()))
                } else {
                    match &t.wal_info {
                        None => Self::unchanged(Err(ConsensusError::MalformedRecovery)),
                        Some(w) => {
                            let locked = match &w.lock {
                                Some(_) => true,
                                None => false,
                            };
                            if w.height == 0 || locked != (w.step != Step::Propose) {
                                Self::unchanged(Err(ConsensusError::MalformedRecovery))
                            } else {
                                self.height = w.height;
                                self.round = w.round;
                                self.step = w.step;
                                self.lock = clone_hash_opt(&w.lock);
                                Self::unchanged(Ok(()))
                            }
                        },
                    }
                }
            },
            TriggerType::Vote => Self::unchanged(Ok(())),
        }
    }
}

} // verus!
