use vstd::prelude::*;

use futures::channel::mpsc::{unbounded, UnboundedReceiver, UnboundedSender};
use std::sync::{Arc, Mutex};

use crate::channel::{send, try_recv};
use crate::error::{ConsensusError, ConsensusResult};
use crate::fsm::{initial_view, transition, FsmState, FsmView};
use crate::smr_types::{events_view, kind_tag, EventView, KindView, SMREvent, SMRStatus, SMRTrigger, TriggerSource, TriggerType, TriggerView};
use crate::types::Address;

verus! {

/// What a non-blocking pull from a channel found.
pub enum Pull<T> {
    /// The oldest queued value.
    Ready(T),
    /// Nothing queued, but senders remain.
    Empty,
    /// Every sender is gone and nothing is left.
    Closed,
}

} // verus!

verus! {

/// What the drive loop does after one pull from the trigger queue.
#[derive(Debug)]
pub enum LoopAction {
    /// The trigger was handled; pull the next one.
    Continue,
    /// The trigger was refused; report the error and pull the next one.
    Report(ConsensusError),
    /// The queue is closed and drained; leave the loop.
    Stop,
}

/// Model of a loop action: which of the three, and the error reported.
pub enum ActionView {
    Continue,
    Report(ConsensusError),
    Stop,
}

impl View for LoopAction {
    type V = ActionView;

    open spec fn view(&self) -> ActionView {
        match self {
            LoopAction::Continue => ActionView::Continue,
            LoopAction::Report(e) => ActionView::Report(*e),
            LoopAction::Stop => ActionView::Stop,
        }
    }
}

/// The action taken on a pull: stop on exhaustion, else what the trigger's result asks for.
pub open spec fn pull_action(s: FsmView, pulled: Option<TriggerView>) -> ActionView {
    match pulled {
        None => ActionView::Stop,
        Some(t) => match transition(s, t).result {
            Ok(()) => ActionView::Continue,
            Err(e) => ActionView::Report(e),
        },
    }
}

/// The state after a pull: exhaustion changes nothing.
pub open spec fn pull_state(s: FsmView, pulled: Option<TriggerView>) -> FsmView {
    match pulled {
        None => s,
        Some(t) => transition(s, t).state,
    }
}

/// Protocol events emitted on a pull: none on exhaustion.
pub open spec fn pull_protocol(s: FsmView, pulled: Option<TriggerView>) -> Seq<EventView> {
    match pulled {
        None => seq![],
        Some(t) => transition(s, t).protocol,
    }
}

/// Timer events emitted on a pull: none on exhaustion.
pub open spec fn pull_timer(s: FsmView, pulled: Option<TriggerView>) -> Seq<EventView> {
    match pulled {
        None => seq![],
        Some(t) => transition(s, t).timer,
    }
}

pub open spec fn opt_trigger_view(p: Option<SMRTrigger>) -> Option<TriggerView> {
    match p {
        Some(t) => Some(t@),
        None => None,
    }
}

/// Value of the active-instance counter once a drive loop has started.
pub open spec fn counter_started(n: u64) -> u64 {
    (n + 1) as u64
}

/// Value of the active-instance counter once a drive loop has stopped.
pub open spec fn counter_stopped(n: u64) -> u64 {
    (n - 1) as u64
}

/// Counter update when a drive loop starts.
pub fn count_start(n: u64) -> (r: u64)
    requires
        n < u64::MAX,
    ensures
        r == counter_started(n),
{
    n + 1
}

/// Counter update when a drive loop stops.
pub fn count_stop(n: u64) -> (r: u64)
    requires
        n > 0,
    ensures
        r == counter_stopped(n),
{
    n - 1
}

/// Consumer end of an event channel.
pub struct Event {
    rx: UnboundedReceiver<SMREvent>,
}

impl Event {
    /// The receiving end of the channel this stream reads.
    pub closed spec fn receiver(&self) -> UnboundedReceiver<SMREvent> {
        self.rx
    }

    pub fn new(receiver: UnboundedReceiver<SMREvent>) -> (r: Self)
        ensures
            r.receiver() == receiver,
    {
        Event { rx: receiver }
    }

    /// Takes the oldest event if one is queued, without waiting.
    pub fn try_next(&mut self) -> (r: Pull<SMREvent>) {
        try_recv(&mut self.rx)
    }

    /// Hands out the channel's receiving end, for a consumer that waits on it.
    pub fn into_receiver(self) -> (r: UnboundedReceiver<SMREvent>)
        ensures
            r == self.receiver(),
    {
        self.rx
    }
}

/// Producer handle of the trigger queue; clones feed the same queue.
#[derive(Clone)]
pub struct SMRHandler {
    tx: UnboundedSender<SMRTrigger>,
    /// Every trigger this handle has handed to the queue, in order.
    sent: Ghost<Seq<SMRTrigger>>,
}

/// Outcome of an enqueue: `Ok`, or the queue was closed and the error carries the trigger's tag.
pub open spec fn send_outcome(r: ConsensusResult<()>, kind: KindView) -> bool {
    match r {
        Ok(()) => true,
        Err(e) => match e {
            ConsensusError::TriggerSMRErr(tag) => tag@ == kind_tag(kind),
            _ => false,
        },
    }
}

/// The trigger that asks the state machine to move to `status`'s height.
pub open spec fn new_height_view(status_height: u64) -> TriggerView {
    TriggerView {
        kind: KindView::NewHeight(status_height),
        hash: Seq::empty(),
        round: None,
        height: status_height,
        wal: None,
    }
}

/// `t` asks for `status`'s height, carries `status` itself, and comes from local state.
pub open spec fn is_new_height_trigger(t: SMRTrigger, status: SMRStatus) -> bool {
    &&& t@ == new_height_view(status.height)
    &&& t.trigger_type == TriggerType::NewHeight(status)
    &&& t.source == TriggerSource::State
}

/// Builds the trigger that moves the state machine to `status`'s height, sourced from local state.
pub fn new_height_trigger(status: SMRStatus) -> (t: SMRTrigger)
    ensures
        is_new_height_trigger(t, status),
{
    let height = status.height;
    let t = SMRTrigger {
        trigger_type: TriggerType::NewHeight(status),
        source: TriggerSource::State,
        hash: Vec::new(),
        round: None,
        height,
        wal_info: None,
    };
    assert(t@.hash =~= Seq::<u8>::empty());
    t
}

impl SMRHandler {
    /// The sending end of the trigger queue.
    pub closed spec fn sender(&self) -> UnboundedSender<SMRTrigger> {
        self.tx
    }

    /// The triggers handed to the queue through this handle, in order.
    pub closed spec fn sent(&self) -> Seq<SMRTrigger> {
        self.sent@
    }

    pub fn new(sender: UnboundedSender<SMRTrigger>) -> (r: Self)
        ensures
            r.sender() == sender,
            r.sent() == Seq::<SMRTrigger>::empty(),
    {
        SMRHandler { tx: sender, sent: Ghost(Seq::empty()) }
    }

    /// Enqueues `gate` at the tail of the trigger queue; fails, under the trigger's tag,
    /// only when the driver has stopped.
    pub fn trigger(&mut self, gate: SMRTrigger) -> (r: ConsensusResult<()>)
        ensures
            send_outcome(r, gate.trigger_type@),
            final(self).sent() == old(self).sent().push(gate),
            final(self).sender() == old(self).sender(),
    {
        let tag = gate.trigger_type.tag();
        proof {
            self.sent@ = self.sent@.push(gate);
        }
        if send(&self.tx, gate) {
            Ok(())
        } else {
            Err(ConsensusError::TriggerSMRErr(tag))
        }
    }

    /// Enqueues the trigger that moves the state machine to `status`'s height.
    pub fn new_height_status(&mut self, status: SMRStatus) -> (r: ConsensusResult<()>)
        ensures
            send_outcome(r, KindView::NewHeight(status.height)),
            final(self).sent().len() == old(self).sent().len() + 1,
            final(self).sent().drop_last() == old(self).sent(),
            is_new_height_trigger(final(self).sent().last(), status),
            final(self).sender() == old(self).sender(),
    {
        let t = new_height_trigger(status);
        let r = self.trigger(t);
        assert(self.sent().drop_last() =~= old(self).sent());
        r
    }
}

/// The round/step state machine together with its two outgoing event channels.
pub struct StateMachine {
    fsm: FsmState,
    evt_state: UnboundedSender<SMREvent>,
    evt_timer: UnboundedSender<SMREvent>,
    /// Every event handed to the protocol channel so far, in order.
    protocol_sent: Ghost<Seq<EventView>>,
    /// Every event handed to the timer channel so far, in order.
    timer_sent: Ghost<Seq<EventView>>,
}

/// Hands each event, in order, to the channel; records each in `sent`.
fn publish(tx: &UnboundedSender<SMREvent>, events: Vec<SMREvent>, sent: &mut Ghost<Seq<EventView>>)
    ensures
        final(sent)@ == old(sent)@ + events_view(events@),
{
    let ghost all = events@;
    let mut events = events;
    let n: usize = events.len();
    let mut k: usize = 0;
    while events.len() > 0
        invariant
            all.len() == n,
            k <= all.len(),
            events@ == all.subrange(k as int, all.len() as int),
            sent@ == old(sent)@ + events_view(all.subrange(0, k as int)),
        decreases events.len(),
    {
        let e = events.remove(0);
        proof {
            assert(all.subrange(0, k + 1) == all.subrange(0, k as int).push(e));
            assert(events_view(all.subrange(0, k + 1)) =~= events_view(all.subrange(0, k as int)).push(e@));
            sent@ = sent@.push(e@);
        }
        k = k + 1;
        // A consumer that went away does not stop the state machine.
        let _ = send(tx, e);
    }
    assert(all.subrange(0, k as int) =~= all);
}

impl StateMachine {
    pub closed spec fn view(&self) -> FsmView {
        self.fsm@
    }

    /// Events handed to the protocol channel since construction.
    pub closed spec fn protocol_sent(&self) -> Seq<EventView> {
        self.protocol_sent@
    }

    /// Events handed to the timer channel since construction.
    pub closed spec fn timer_sent(&self) -> Seq<EventView> {
        self.timer_sent@
    }

    pub closed spec fn wf(&self) -> bool {
        self.fsm.wf()
    }

    /// A state machine at height 0, with the consumer ends of its protocol and timer channels.
    pub fn new() -> (r: (StateMachine, Event, Event))
        ensures
            r.0.view() == initial_view(),
            r.0.wf(),
            r.0.protocol_sent() == Seq::<EventView>::empty(),
            r.0.timer_sent() == Seq::<EventView>::empty(),
    {
        let (state_tx, state_rx) = unbounded();
        let (timer_tx, timer_rx) = unbounded();
        let sm = StateMachine {
            fsm: FsmState::new(),
            evt_state: state_tx,
            evt_timer: timer_tx,
            protocol_sent: Ghost(Seq::empty()),
            timer_sent: Ghost(Seq::empty()),
        };
        (sm, Event::new(state_rx), Event::new(timer_rx))
    }

    pub fn height(&self) -> (r: u64)
        ensures
            r == self.view().height,
    {
        self.fsm.height()
    }

    pub fn round(&self) -> (r: u64)
        ensures
            r == self.view().round,
    {
        self.fsm.round()
    }

    /// Applies one trigger and publishes its events, protocol events first.
    pub fn handle(&mut self, t: SMRTrigger) -> (r: ConsensusResult<()>)
        requires
            old(self).wf(),
        ensures
            final(self).view() == transition(old(self).view(), t@).state,
            r == transition(old(self).view(), t@).result,
            final(self).protocol_sent() == old(self).protocol_sent() + transition(old(self).view(), t@).protocol,
            final(self).timer_sent() == old(self).timer_sent() + transition(old(self).view(), t@).timer,
            final(self).wf(),
    {
        let out = self.fsm.apply(&t);
        publish(&self.evt_state, out.protocol, &mut self.protocol_sent);
        publish(&self.evt_timer, out.timer, &mut self.timer_sent);
        out.result
    }

    /// Decides the drive loop's next move on what a pull from the trigger queue gave.
    pub fn on_pull(&mut self, pulled: Option<SMRTrigger>) -> (r: LoopAction)
        requires
            old(self).wf(),
        ensures
            final(self).view() == pull_state(old(self).view(), opt_trigger_view(pulled)),
            r@ == pull_action(old(self).view(), opt_trigger_view(pulled)),
            final(self).protocol_sent() == old(self).protocol_sent() + pull_protocol(old(self).view(), opt_trigger_view(pulled)),
            final(self).timer_sent() == old(self).timer_sent() + pull_timer(old(self).view(), opt_trigger_view(pulled)),
            final(self).wf(),
    {
        match pulled {
            None => LoopAction::Stop,
            Some(t) => match self.handle(t) {
                Ok(()) => LoopAction::Continue,
                Err(e) => LoopAction::Report(e),
            },
        }
    }
}

/// The driver: owns the state machine and the consumer end of the trigger queue.
pub struct SMR {
    address: Address,
    thread_num: Arc<Mutex<u64>>,
    test_id: u64,
    smr_handler: Option<SMRHandler>,
    triggers: UnboundedReceiver<SMRTrigger>,
    state_machine: StateMachine,
}

impl SMR {
    pub closed spec fn view(&self) -> FsmView {
        self.state_machine.view()
    }

    pub closed spec fn wf(&self) -> bool {
        self.state_machine.wf()
    }

    /// Events handed to the protocol channel since construction.
    pub closed spec fn protocol_sent(&self) -> Seq<EventView> {
        self.state_machine.protocol_sent()
    }

    /// Events handed to the timer channel since construction.
    pub closed spec fn timer_sent(&self) -> Seq<EventView> {
        self.state_machine.timer_sent()
    }

    /// The handle is still there to be taken.
    pub closed spec fn has_handler(&self) -> bool {
        self.smr_handler is Some
    }

    /// The handle still held has sent nothing yet.
    pub closed spec fn handler_unused(&self) -> bool {
        self.smr_handler matches Some(h) ==> h.sent() == Seq::<SMRTrigger>::empty()
    }

    pub closed spec fn address(&self) -> Address {
        self.address
    }

    pub closed spec fn thread_num(&self) -> Arc<Mutex<u64>> {
        self.thread_num
    }

    pub closed spec fn test_id(&self) -> u64 {
        self.test_id
    }

    /// The consumer end of the trigger queue.
    pub closed spec fn triggers(&self) -> UnboundedReceiver<SMRTrigger> {
        self.triggers
    }

    /// The state machine driven by this driver.
    pub closed spec fn state_machine(&self) -> StateMachine {
        self.state_machine
    }

    /// Wires the trigger queue and both event channels; returns the driver with the
    /// protocol and the timer event streams.
    pub fn new(address: Address, thread_num: &Arc<Mutex<u64>>, test_id: u64) -> (r: (Self, Event, Event))
        ensures
            r.0.view() == initial_view(),
            r.0.wf(),
            r.0.has_handler(),
            r.0.protocol_sent() == Seq::<EventView>::empty(),
            r.0.timer_sent() == Seq::<EventView>::empty(),
            r.0.handler_unused(),
            r.0.address() == address,
            r.0.test_id() == test_id,
            r.0.thread_num() == *thread_num,
    {
        let (tx, rx) = unbounded();
        let handler = SMRHandler::new(tx);
        let (state_machine, evt_state, evt_timer) = StateMachine::new();
        let provider = SMR {
            address,
            thread_num: Arc::clone(thread_num),
            test_id,
            smr_handler: Some(handler),
            triggers: rx,
            state_machine,
        };
        (provider, evt_state, evt_timer)
    }

    /// Hands the producer handle over: the first call gets it, every later call gets `None`.
    pub fn take_smr(&mut self) -> (r: Option<SMRHandler>)
        ensures
            r is Some == old(self).has_handler(),
            old(self).handler_unused() ==> (r matches Some(h) ==> h.sent() == Seq::<SMRTrigger>::empty()),
            !final(self).has_handler(),
            final(self).handler_unused(),
            final(self).view() == old(self).view(),
            final(self).wf() == old(self).wf(),
            final(self).protocol_sent() == old(self).protocol_sent(),
            final(self).timer_sent() == old(self).timer_sent(),
    {
        self.smr_handler.take()
    }

    /// Pulls at most one trigger without waiting and lets the state machine act on it;
    /// `None` when nothing is queued yet.
    pub fn advance(&mut self) -> (r: Option<LoopAction>)
        requires
            old(self).wf(),
        ensures
            final(self).wf(),
            r is None ==> final(self).view() == old(self).view(),
            r matches Some(LoopAction::Stop) ==> final(self).view() == old(self).view(),
            exists|p: Option<TriggerView>|
                #![trigger pull_state(old(self).view(), p)]
                final(self).view() == pull_state(old(self).view(), p) && final(self).protocol_sent()
                    == old(self).protocol_sent() + pull_protocol(old(self).view(), p) && final(self).timer_sent()
                    == old(self).timer_sent() + pull_timer(old(self).view(), p) && (r matches Some(a) ==> a@
                    == pull_action(old(self).view(), p)) && (p is None ==> (r is None || r matches Some(
                    LoopAction::Stop))),
    {
        match try_recv(&mut self.triggers) {
            Pull::Ready(t) => {
                let ghost p = Some(t@);
                let a = self.state_machine.on_pull(Some(t));
                assert(final(self).view() == pull_state(old(self).view(), p));
                Some(a)
            },
            Pull::Empty => {
                assert(self.view() == pull_state(old(self).view(), None));
                assert(self.protocol_sent() =~= old(self).protocol_sent() + pull_protocol(old(self).view(), None));
                assert(self.timer_sent() =~= old(self).timer_sent() + pull_timer(old(self).view(), None));
                None
            },
            Pull::Closed => {
                let a = self.state_machine.on_pull(None);
                Some(a)
            },
        }
    }

    /// Splits the driver for a drive loop that waits on the trigger queue.
    pub fn into_parts(self) -> (r: (Address, Arc<Mutex<u64>>, u64, UnboundedReceiver<SMRTrigger>, StateMachine))
        ensures
            r.0 == self.address(),
            r.1 == self.thread_num(),
            r.2 == self.test_id(),
            r.3 == self.triggers(),
            r.4 == self.state_machine(),
            r.4.view() == self.view(),
            r.4.wf() == self.wf(),
            r.4.protocol_sent() == self.protocol_sent(),
            r.4.timer_sent() == self.timer_sent(),
    {
        (self.address, self.thread_num, self.test_id, self.triggers, self.state_machine)
    }
}

} // verus!
