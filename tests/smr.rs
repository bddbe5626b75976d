use std::sync::{Arc, Mutex};

use overlord::error::ConsensusError;
use overlord::fsm::{FsmState, BACKOFF_MS, BASE_TIMEOUT_MS};
use overlord::smr::{count_start, count_stop, new_height_trigger, Event, LoopAction, Pull, SMR};
use overlord::smr_types::{SMREvent, SMRStatus, SMRTrigger, Step, TriggerSource, TriggerType, WalInfo};

fn status(height: u64) -> SMRStatus {
    SMRStatus { height, round: 0, step: Step::Propose, hash: Vec::new() }
}

fn at(kind: TriggerType, height: u64, round: u64, hash: &[u8]) -> SMRTrigger {
    SMRTrigger {
        trigger_type: kind,
        source: TriggerSource::Network,
        hash: hash.to_vec(),
        round: Some(round),
        height,
        wal_info: None,
    }
}

fn recovery(wal: Option<WalInfo>) -> SMRTrigger {
    SMRTrigger {
        trigger_type: TriggerType::Recovery,
        source: TriggerSource::State,
        hash: Vec::new(),
        round: None,
        height: 0,
        wal_info: wal,
    }
}

fn new_smr() -> (SMR, Event, Event) {
    let counter = Arc::new(Mutex::new(0u64));
    SMR::new(vec![1, 2, 3], &counter, 7)
}

fn next_event(ev: &mut Event) -> SMREvent {
    match ev.try_next() {
        Pull::Ready(e) => e,
        Pull::Empty => panic!("no event queued"),
        Pull::Closed => panic!("event channel closed"),
    }
}

fn no_event(ev: &mut Event) {
    assert!(matches!(ev.try_next(), Pull::Empty));
}

fn drive(smr: &mut SMR) -> LoopAction {
    smr.advance().expect("a trigger is queued")
}

#[test]
fn full_height_then_next_height() {
    let (mut smr, mut proto, mut timer) = new_smr();
    let mut handle = smr.take_smr().unwrap();

    handle.new_height_status(status(1)).unwrap();
    assert!(matches!(drive(&mut smr), LoopAction::Continue));
    assert!(matches!(next_event(&mut proto), SMREvent::NewRoundInfo { height: 1, round: 0 }));
    match next_event(&mut timer) {
        SMREvent::ScheduleTimeout { height, round, step, duration } => {
            assert_eq!((height, round, step, duration), (1, 0, Step::Propose, 3000));
        }
        e => panic!("unexpected {:?}", e),
    }

    handle.trigger(at(TriggerType::Proposal, 1, 0, b"H")).unwrap();
    assert!(matches!(drive(&mut smr), LoopAction::Continue));
    match next_event(&mut proto) {
        SMREvent::PrevoteVote { hash } => assert_eq!(hash, b"H".to_vec()),
        e => panic!("unexpected {:?}", e),
    }
    assert!(matches!(next_event(&mut timer), SMREvent::CancelTimeout { step: Step::Propose }));

    handle.trigger(at(TriggerType::PrevoteQC, 1, 0, b"")).unwrap();
    assert!(matches!(drive(&mut smr), LoopAction::Continue));
    match next_event(&mut proto) {
        SMREvent::PrecommitVote { hash } => assert_eq!(hash, b"H".to_vec()),
        e => panic!("unexpected {:?}", e),
    }
    assert!(matches!(next_event(&mut timer), SMREvent::CancelTimeout { step: Step::Prevote }));

    handle.trigger(at(TriggerType::PrecommitQC, 1, 0, b"")).unwrap();
    assert!(matches!(drive(&mut smr), LoopAction::Continue));
    match next_event(&mut proto) {
        SMREvent::Commit { height, hash } => {
            assert_eq!(height, 1);
            assert_eq!(hash, b"H".to_vec());
        }
        e => panic!("unexpected {:?}", e),
    }
    no_event(&mut timer);

    handle.new_height_status(status(2)).unwrap();
    assert!(matches!(drive(&mut smr), LoopAction::Continue));
    assert!(matches!(next_event(&mut proto), SMREvent::NewRoundInfo { height: 2, round: 0 }));
    no_event(&mut proto);
}

#[test]
fn handle_is_handed_out_once() {
    let (mut smr, _proto, _timer) = new_smr();
    assert!(smr.take_smr().is_some());
    assert!(smr.take_smr().is_none());
}

#[test]
fn nothing_queued_is_pending() {
    let (mut smr, _proto, _timer) = new_smr();
    let _handle = smr.take_smr().unwrap();
    assert!(smr.advance().is_none());
}

#[test]
fn dropping_every_handle_stops_the_loop() {
    let (mut smr, _proto, _timer) = new_smr();
    let mut handle = smr.take_smr().unwrap();
    let mut other = handle.clone();
    handle.new_height_status(status(1)).unwrap();
    other.new_height_status(status(2)).unwrap();
    drop(handle);
    assert!(matches!(drive(&mut smr), LoopAction::Continue));
    assert!(matches!(drive(&mut smr), LoopAction::Continue));
    assert!(smr.advance().is_none());
    drop(other);
    assert!(matches!(drive(&mut smr), LoopAction::Stop));
    assert!(matches!(drive(&mut smr), LoopAction::Stop));
}

#[test]
fn trigger_after_driver_stopped_fails_with_tag() {
    let (mut smr, _proto, _timer) = new_smr();
    let mut handle = smr.take_smr().unwrap();
    drop(smr);
    match handle.trigger(at(TriggerType::Proposal, 1, 0, b"H")) {
        Err(ConsensusError::TriggerSMRErr(tag)) => assert_eq!(tag, "Proposal"),
        r => panic!("unexpected {:?}", r),
    }
    match handle.new_height_status(status(3)) {
        Err(ConsensusError::TriggerSMRErr(tag)) => assert_eq!(tag, "NewHeight"),
        r => panic!("unexpected {:?}", r),
    }
}

#[test]
fn out_of_order_height_is_reported_and_loop_goes_on() {
    let (mut smr, mut proto, _timer) = new_smr();
    let mut handle = smr.take_smr().unwrap();
    handle.new_height_status(status(1)).unwrap();
    handle.new_height_status(status(5)).unwrap();
    handle.new_height_status(status(2)).unwrap();
    assert!(matches!(drive(&mut smr), LoopAction::Continue));
    match drive(&mut smr) {
        LoopAction::Report(ConsensusError::OutOfOrderHeight { current, received }) => {
            assert_eq!((current, received), (1, 5));
        }
        a => panic!("unexpected {:?}", a),
    }
    assert!(matches!(drive(&mut smr), LoopAction::Continue));
    assert!(matches!(next_event(&mut proto), SMREvent::NewRoundInfo { height: 1, round: 0 }));
    assert!(matches!(next_event(&mut proto), SMREvent::NewRoundInfo { height: 2, round: 0 }));
    no_event(&mut proto);
}

#[test]
fn stale_new_height_emits_nothing() {
    let mut fsm = FsmState::new();
    fsm.apply(&new_height_trigger(status(3)));
    let out = fsm.apply(&new_height_trigger(status(3)));
    assert!(out.protocol.is_empty() && out.timer.is_empty() && out.result.is_ok());
    let out = fsm.apply(&new_height_trigger(status(2)));
    assert!(out.protocol.is_empty() && out.timer.is_empty() && out.result.is_ok());
    assert_eq!(fsm.height(), 3);
}

#[test]
fn bootstrap_accepts_any_first_height() {
    let mut fsm = FsmState::new();
    let out = fsm.apply(&new_height_trigger(status(10)));
    assert!(matches!(out.protocol[0], SMREvent::NewRoundInfo { height: 10, round: 0 }));
    assert_eq!(fsm.height(), 10);
    let out = fsm.apply(&new_height_trigger(status(12)));
    assert!(matches!(out.result, Err(ConsensusError::OutOfOrderHeight { current: 10, received: 12 })));
    assert_eq!(fsm.height(), 10);
}

#[test]
fn new_height_trigger_fields() {
    let t = new_height_trigger(status(4));
    assert_eq!(t.height, 4);
    assert_eq!(t.source, TriggerSource::State);
    assert!(t.hash.is_empty() && t.round.is_none() && t.wal_info.is_none());
    assert!(matches!(t.trigger_type, TriggerType::NewHeight(SMRStatus { height: 4, .. })));
}

#[test]
fn timeout_moves_to_next_round_with_longer_timeout() {
    let mut fsm = FsmState::new();
    fsm.apply(&new_height_trigger(status(1)));
    fsm.apply(&at(TriggerType::Proposal, 1, 0, b"A"));
    let out = fsm.apply(&at(TriggerType::Timeout(Step::Prevote), 1, 0, b""));
    assert!(matches!(out.protocol[0], SMREvent::NewRoundInfo { height: 1, round: 1 }));
    match out.timer[0] {
        SMREvent::ScheduleTimeout { height, round, step, duration } => {
            assert_eq!((height, round, step), (1, 1, Step::Propose));
            assert_eq!(duration, BASE_TIMEOUT_MS + BACKOFF_MS);
            assert_eq!(duration, 4000);
        }
        ref e => panic!("unexpected {:?}", e),
    }
    assert_eq!((fsm.round(), fsm.step()), (1, Step::Propose));
    assert!(fsm.lock().is_none());
}

#[test]
fn stale_timeout_is_dropped() {
    let mut fsm = FsmState::new();
    fsm.apply(&new_height_trigger(status(1)));
    let out = fsm.apply(&at(TriggerType::Timeout(Step::Prevote), 1, 0, b""));
    assert!(out.protocol.is_empty() && out.result.is_ok());
    let out = fsm.apply(&at(TriggerType::Timeout(Step::Propose), 1, 3, b""));
    assert!(out.protocol.is_empty() && out.result.is_ok());
    assert_eq!(fsm.round(), 0);
}

fn timeout_duration_at(round: u64) -> u64 {
    let mut fsm = FsmState::new();
    fsm.apply(&recovery(Some(WalInfo { height: 2, round, step: Step::Propose, lock: None })));
    let out = fsm.apply(&at(TriggerType::Timeout(Step::Propose), 2, round, b""));
    match out.timer[0] {
        SMREvent::ScheduleTimeout { duration, .. } => duration,
        ref e => panic!("unexpected {:?}", e),
    }
}

#[test]
fn timeout_duration_grows_then_saturates() {
    assert_eq!(timeout_duration_at(1500), BASE_TIMEOUT_MS + 1501 * BACKOFF_MS);
    assert!(timeout_duration_at(1500) < timeout_duration_at(1501));
    assert_eq!(timeout_duration_at(1501), 1_505_000);
    assert_eq!(timeout_duration_at(u64::MAX / 1000 - 10), BASE_TIMEOUT_MS + (u64::MAX / 1000 - 9) * BACKOFF_MS);
    assert_eq!(timeout_duration_at(u64::MAX / 1000), u64::MAX);
    assert_eq!(timeout_duration_at(u64::MAX - 1), u64::MAX);
}

#[test]
fn timeout_at_commit_starts_next_round() {
    let mut fsm = FsmState::new();
    fsm.apply(&new_height_trigger(status(1)));
    fsm.apply(&at(TriggerType::Proposal, 1, 0, b"H"));
    fsm.apply(&at(TriggerType::PrevoteQC, 1, 0, b""));
    fsm.apply(&at(TriggerType::PrecommitQC, 1, 0, b""));
    assert_eq!(fsm.step(), Step::Commit);
    let out = fsm.apply(&at(TriggerType::Timeout(Step::Commit), 1, 0, b""));
    assert!(matches!(out.protocol[0], SMREvent::NewRoundInfo { height: 1, round: 1 }));
    assert_eq!((fsm.round(), fsm.step()), (1, Step::Propose));
    assert!(fsm.lock().is_none());
}

#[test]
fn new_height_with_disagreeing_heights_is_refused() {
    let mut fsm = FsmState::new();
    fsm.apply(&new_height_trigger(status(3)));
    let mut t = new_height_trigger(status(4));
    t.height = 5;
    let out = fsm.apply(&t);
    assert!(matches!(out.result, Err(ConsensusError::MalformedTrigger)));
    assert!(out.protocol.is_empty());
    assert_eq!(fsm.height(), 3);
}

#[test]
fn trigger_below_height_is_dropped_whatever_its_status() {
    let mut fsm = FsmState::new();
    fsm.apply(&new_height_trigger(status(3)));
    let mut t = new_height_trigger(status(4));
    t.height = 2;
    let out = fsm.apply(&t);
    assert!(out.protocol.is_empty() && out.timer.is_empty() && out.result.is_ok());
    assert_eq!(fsm.height(), 3);
}

#[test]
fn nothing_but_height_or_recovery_acts_before_start() {
    let mut fsm = FsmState::new();
    let out = fsm.apply(&at(TriggerType::Proposal, 0, 0, b"H"));
    assert!(out.protocol.is_empty() && out.result.is_ok());
    let out = fsm.apply(&at(TriggerType::Timeout(Step::Propose), 0, 0, b""));
    assert!(out.protocol.is_empty() && out.result.is_ok());
    assert_eq!((fsm.height(), fsm.round(), fsm.step()), (0, 0, Step::Propose));
    assert!(fsm.lock().is_none());
}

#[test]
fn round_overflow_is_reported() {
    let mut fsm = FsmState::new();
    fsm.apply(&recovery(Some(WalInfo { height: 2, round: u64::MAX, step: Step::Propose, lock: None })));
    let out = fsm.apply(&at(TriggerType::Timeout(Step::Propose), 2, u64::MAX, b""));
    assert!(matches!(out.result, Err(ConsensusError::RoundOverflow)));
    assert_eq!(fsm.round(), u64::MAX);
}

#[test]
fn redelivered_proposal_and_certificates_are_ignored() {
    let mut fsm = FsmState::new();
    fsm.apply(&new_height_trigger(status(1)));
    fsm.apply(&at(TriggerType::Proposal, 1, 0, b"H"));
    for _ in 0..3 {
        let out = fsm.apply(&at(TriggerType::Proposal, 1, 0, b"H"));
        assert!(out.protocol.is_empty() && out.timer.is_empty() && out.result.is_ok());
    }
    fsm.apply(&at(TriggerType::PrevoteQC, 1, 0, b""));
    for _ in 0..3 {
        let out = fsm.apply(&at(TriggerType::PrevoteQC, 1, 0, b""));
        assert!(out.protocol.is_empty() && out.timer.is_empty() && out.result.is_ok());
    }
    assert_eq!(fsm.step(), Step::Precommit);
    assert_eq!(fsm.lock(), Some(b"H".to_vec()));
}

#[test]
fn precommit_needs_prevote_first() {
    let mut fsm = FsmState::new();
    fsm.apply(&new_height_trigger(status(1)));
    let out = fsm.apply(&at(TriggerType::PrevoteQC, 1, 0, b""));
    assert!(out.protocol.is_empty());
    let out = fsm.apply(&at(TriggerType::PrecommitQC, 1, 0, b""));
    assert!(out.protocol.is_empty());
    assert_eq!(fsm.step(), Step::Propose);
}

#[test]
fn proposal_for_other_round_is_ignored() {
    let mut fsm = FsmState::new();
    fsm.apply(&new_height_trigger(status(1)));
    let out = fsm.apply(&at(TriggerType::Proposal, 1, 1, b"H"));
    assert!(out.protocol.is_empty());
    let out = fsm.apply(&at(TriggerType::Proposal, 2, 0, b"H"));
    assert!(out.protocol.is_empty());
    assert!(fsm.lock().is_none());
}

#[test]
fn votes_are_ignored() {
    let mut fsm = FsmState::new();
    fsm.apply(&new_height_trigger(status(1)));
    let out = fsm.apply(&at(TriggerType::Vote, 1, 0, b"H"));
    assert!(out.protocol.is_empty() && out.timer.is_empty() && out.result.is_ok());
}

#[test]
fn recovery_sets_state_silently_and_once() {
    let mut fsm = FsmState::new();
    let wal = WalInfo { height: 4, round: 2, step: Step::Prevote, lock: Some(b"L".to_vec()) };
    let out = fsm.apply(&recovery(Some(wal.clone())));
    assert!(out.protocol.is_empty() && out.timer.is_empty() && out.result.is_ok());
    assert_eq!((fsm.height(), fsm.round(), fsm.step()), (4, 2, Step::Prevote));
    let out = fsm.apply(&recovery(Some(wal)));
    assert!(out.result.is_ok());
    assert_eq!((fsm.height(), fsm.round(), fsm.step()), (4, 2, Step::Prevote));
    let out = fsm.apply(&at(TriggerType::PrevoteQC, 4, 2, b""));
    match &out.protocol[0] {
        SMREvent::PrecommitVote { hash } => assert_eq!(hash, &b"L".to_vec()),
        e => panic!("unexpected {:?}", e),
    }
}

#[test]
fn malformed_recovery_is_reported() {
    let mut fsm = FsmState::new();
    let out = fsm.apply(&recovery(None));
    assert!(matches!(out.result, Err(ConsensusError::MalformedRecovery)));
    let no_lock = WalInfo { height: 4, round: 0, step: Step::Precommit, lock: None };
    let out = fsm.apply(&recovery(Some(no_lock)));
    assert!(matches!(out.result, Err(ConsensusError::MalformedRecovery)));
    let zero = WalInfo { height: 0, round: 0, step: Step::Propose, lock: None };
    let out = fsm.apply(&recovery(Some(zero)));
    assert!(matches!(out.result, Err(ConsensusError::MalformedRecovery)));
    assert_eq!(fsm.height(), 0);
}

#[test]
fn trigger_tags() {
    assert_eq!(TriggerType::NewHeight(status(1)).tag(), "NewHeight");
    assert_eq!(TriggerType::PrevoteQC.tag(), "PrevoteQC");
    assert_eq!(TriggerType::Timeout(Step::Propose).tag(), "Timeout");
    assert_eq!(TriggerType::Recovery.tag(), "Recovery");
}

#[test]
fn counter_is_net_zero() {
    let n = count_start(41);
    assert_eq!(n, 42);
    assert_eq!(count_stop(n), 41);
}
