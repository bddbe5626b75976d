use vstd::prelude::*;


verus! {

/// Position within a round; ordered Propose < Prevote < Precommit < Commit.
#[derive(Clone, Copy, Debug, PartialEq, Eq, Structural)]
pub enum Step {
    Propose,
    Prevote,
    Precommit,
    Commit,
}

/// A complete snapshot of the state machine's position.
#[derive(Clone, Debug)]
pub struct SMRStatus {
    pub height: u64,
    pub round: u64,
    pub step: Step,
    pub hash: crate::types::Hash,
}

/// Where a trigger came from; informative only.
#[derive(Clone, Copy, Debug, PartialEq, Eq, Structural)]
pub enum TriggerSource {
    State,
    Network,
    Timer,
}

/// Position restored from the write-ahead log.
#[derive(Clone, Debug)]
pub struct WalInfo {
    pub height: u64,
    pub round: u64,
    pub step: Step,
    pub lock: Option<crate::types::Hash>,
}

/// What a trigger asks of the state machine.
#[derive(Clone, Debug)]
pub enum TriggerType {
    NewHeight(SMRStatus),
    Proposal,
    PrevoteQC,
    PrecommitQC,
    Vote,
    ContinueRound,
    /// The timer of the given step of the trigger's round ran out.
    Timeout(Step),
    Recovery,
}

/// An input of the state machine.
#[derive(Clone, Debug)]
pub struct SMRTrigger {
    pub trigger_type: TriggerType,
    pub source: TriggerSource,
    pub hash: crate::types::Hash,
    pub round: Option<u64>,
    pub height: u64,
    pub wal_info: Option<WalInfo>,
}

/// An output of the state machine, on the protocol or on the timer channel.
#[derive(Clone, Debug)]
pub enum SMREvent {
    NewRoundInfo { height: u64, round: u64 },
    PrevoteVote { hash: crate::types::Hash },
    PrecommitVote { hash: crate::types::Hash },
    Commit { height: u64, hash: crate::types::Hash },
    ScheduleTimeout { height: u64, round: u64, step: Step, duration: u64 },
    CancelTimeout { step: Step },
}

/// Mathematical model of a trigger's type: a new height keeps only the height asked for.
pub enum KindView {
    NewHeight(u64),
    Proposal,
    PrevoteQC,
    PrecommitQC,
    Vote,
    ContinueRound,
    Timeout(Step),
    Recovery,
}

pub struct WalView {
    pub height: u64,
    pub round: u64,
    pub step: Step,
    pub lock: Option<Seq<u8>>,
}

pub struct TriggerView {
    pub kind: KindView,
    pub hash: Seq<u8>,
    pub round: Option<u64>,
    pub height: u64,
    pub wal: Option<WalView>,
}

pub enum EventView {
    NewRoundInfo { height: u64, round: u64 },
    PrevoteVote { hash: Seq<u8> },
    PrecommitVote { hash: Seq<u8> },
    Commit { height: u64, hash: Seq<u8> },
    ScheduleTimeout { height: u64, round: u64, step: Step, duration: u64 },
    CancelTimeout { step: Step },
}

pub open spec fn hash_opt_view(h: Option<crate::types::Hash>) -> Option<Seq<u8>> {
    match h {
        Some(v) => Some(v@),
        None => None,
    }
}

impl View for WalInfo {
    type V = WalView;

    open spec fn view(&self) -> WalView {
        WalView { height: self.height, round: self.round, step: self.step, lock: hash_opt_view(self.lock) }
    }
}

impl View for TriggerType {
    type V = KindView;

    open spec fn view(&self) -> KindView {
        match self {
            TriggerType::NewHeight(s) => KindView::NewHeight(s.height),
            TriggerType::Proposal => KindView::Proposal,
            TriggerType::PrevoteQC => KindView::PrevoteQC,
            TriggerType::PrecommitQC => KindView::PrecommitQC,
            TriggerType::Vote => KindView::Vote,
            TriggerType::ContinueRound => KindView::ContinueRound,
            TriggerType::Timeout(s) => KindView::Timeout(*s),
            TriggerType::Recovery => KindView::Recovery,
        }
    }
}

impl View for SMRTrigger {
    type V = TriggerView;

    open spec fn view(&self) -> TriggerView {
        TriggerView {
            kind: self.trigger_type@,
            hash: self.hash@,
            round: self.round,
            height: self.height,
            wal: match self.wal_info {
                Some(w) => Some(w@),
                None => None,
            },
        }
    }
}

impl View for SMREvent {
    type V = EventView;

    open spec fn view(&self) -> EventView {
        match self {
            SMREvent::NewRoundInfo { height, round } => EventView::NewRoundInfo { height: *height, round: *round },
            SMREvent::PrevoteVote { hash } => EventView::PrevoteVote { hash: hash@ },
            SMREvent::PrecommitVote { hash } => EventView::PrecommitVote { hash: hash@ },
            SMREvent::Commit { height, hash } => EventView::Commit { height: *height, hash: hash@ },
            SMREvent::ScheduleTimeout { height, round, step, duration } => EventView::ScheduleTimeout {
                height: *height,
                round: *round,
                step: *step,
                duration: *duration,
            },
            SMREvent::CancelTimeout { step } => EventView::CancelTimeout { step: *step },
        }
    }
}

/// The events of a vector, each by its model.
pub open spec fn events_view(v: Seq<SMREvent>) -> Seq<EventView> {
    v.map_values(|e: SMREvent| e@)
}

/// The name under which a trigger type is reported.
pub open spec fn kind_tag(k: KindView) -> Seq<char> {
    match k {
        KindView::NewHeight(_) => "NewHeight"@,
        KindView::Proposal => "Proposal"@,
        KindView::PrevoteQC => "PrevoteQC"@,
        KindView::PrecommitQC => "PrecommitQC"@,
        KindView::Vote => "Vote"@,
        KindView::ContinueRound => "ContinueRound"@,
        KindView::Timeout(_) => "Timeout"@,
        KindView::Recovery => "Recovery"@,
    }
}

impl TriggerType {
    /// The name under which this trigger type is reported.
    pub fn tag(&self) -> (r: String)
        ensures
            r@ == kind_tag(self@),
    {
        match self {
            TriggerType::NewHeight(_) => "NewHeight".to_string(),
            TriggerType::Proposal => "Proposal".to_string(),
            TriggerType::PrevoteQC => "PrevoteQC".to_string(),
            TriggerType::PrecommitQC => "PrecommitQC".to_string(),
            TriggerType::Vote => "Vote".to_string(),
            TriggerType::ContinueRound => "ContinueRound".to_string(),
            TriggerType::Timeout(_) => "Timeout".to_string(),
            TriggerType::Recovery => "Recovery".to_string(),
        }
    }
}

} // verus!
