//! What holds of the adapter however it is driven.
//!
//! A `Step` is one thing that can happen to an adapter: a native callback, or
//! one of the caller's operations. The laws below speak of every state and of
//! every sequence of steps.

use vstd::prelude::*;
use crate::adapter::AdapterState;
use crate::channel::{delivered, delivered_onto};
use crate::characteristic::CharacteristicView;
use crate::message::MessageView;
use crate::native::{ManagerState, NativeEventView};
use crate::properties::Properties;
use crate::registry::{lemma_upsert, lemma_with_fetched_name};

verus! {

/// One thing that can happen to an adapter.
pub enum Step {
    /// A native callback reported an event (`Adapter::handle_event`).
    Event(NativeEventView),
    /// The caller started a scan (`Adapter::start_scan`).
    StartScan,
    /// The caller asked to connect to the device at this address
    /// (`Adapter::connect`).
    Connect(Seq<char>),
    /// The connection of this session asked for its next message
    /// (`Connection::try_recv`).
    Receive(nat),
    /// The connection of this session was given up (`Adapter::release`).
    Release(nat),
    /// A name was fetched for the device at this address
    /// (`Adapter::resolve_name`).
    ResolveName(Seq<char>, Option<Seq<char>>),
}

/// The adapter after one step. An operation that is refused changes nothing.
pub open spec fn step(state: AdapterState, step: Step) -> AdapterState {
    match step {
        Step::Event(event) => state.after_event(event),
        Step::StartScan => if state.ready {
            state.scanning()
        } else {
            state
        },
        Step::Connect(address) => if state.connect_error(address) is None {
            state.connected()
        } else {
            state
        },
        Step::Receive(session) => state.received(session),
        Step::Release(session) => state.released(session),
        Step::ResolveName(address, fetched) => state.named(address, fetched),
    }
}

/// The adapter after the steps of `steps`, in their order.
pub open spec fn run(state: AdapterState, steps: Seq<Step>) -> AdapterState
    decreases steps.len(),
{
    if steps.len() == 0 {
        state
    } else {
        step(run(state, steps.drop_last()), steps.last())
    }
}

/// Whether a step is the callback that reports the manager as powered on.
pub open spec fn powers_on(step: Step) -> bool {
    step == Step::Event(NativeEventView::AdapterStateChanged(ManagerState::PoweredOn))
}

/// Whether an event belongs to the session that is bound.
pub open spec fn is_session_event(event: NativeEventView) -> bool {
    event is GattConnected || event is GattDisconnected || event is DataReceived
        || event is CharacteristicDiscovered
}

/// The message that a session event becomes for `session`.
pub open spec fn message_for(session: nat, event: NativeEventView) -> MessageView {
    match event {
        NativeEventView::GattDisconnected => MessageView::Disconnected,
        NativeEventView::DataReceived(bytes) => MessageView::Data(bytes),
        NativeEventView::CharacteristicDiscovered { id, properties } => {
            MessageView::CharacteristicDiscovered(
                CharacteristicView {
                    id,
                    properties: Properties::spec_from_mask(properties),
                    session,
                },
            )
        },
        _ => MessageView::Connected,
    }
}

/// The messages that the callbacks among `steps` produce for `session`
/// while it is bound, in their order.
pub open spec fn produced(session: nat, steps: Seq<Step>) -> Seq<MessageView>
    decreases steps.len(),
{
    if steps.len() == 0 {
        Seq::empty()
    } else {
        let earlier = produced(session, steps.drop_last());
        match steps.last() {
            Step::Event(event) => if is_session_event(event) {
                earlier.push(message_for(session, event))
            } else {
                earlier
            },
            _ => earlier,
        }
    }
}

/// Whether a step leaves the binding and the waiting messages of `session`
/// to the native callbacks alone.
pub open spec fn leaves_alone(session: nat, step: Step) -> bool {
    !(step is Connect) && step != Step::Receive(session) && step != Step::Release(session)
}

/// Every step keeps the adapter well-formed.
pub proof fn lemma_step_keeps_wf(state: AdapterState, s: Step)
    requires
        state.wf(),
    ensures
        step(state, s).wf(),
{
    match s {
        Step::Event(event) => {
            if let NativeEventView::DeviceFound(device) = event {
                lemma_upsert(state.devices, device);
            }
        },
        Step::ResolveName(address, fetched) => {
            lemma_with_fetched_name(state.devices, address, fetched);
        },
        _ => {},
    }
}

/// Every sequence of steps keeps the adapter well-formed.
pub proof fn lemma_run_keeps_wf(state: AdapterState, steps: Seq<Step>)
    requires
        state.wf(),
    ensures
        run(state, steps).wf(),
    decreases steps.len(),
{
    if steps.len() > 0 {
        lemma_run_keeps_wf(state, steps.drop_last());
        lemma_step_keeps_wf(run(state, steps.drop_last()), steps.last());
    }
}

/// An adapter that is not ready, as every adapter is when it is made, stays
/// so until the manager is reported as powered on.
pub proof fn lemma_ready_only_by_power_on(state: AdapterState, steps: Seq<Step>)
    requires
        !state.ready,
        forall|i: int| 0 <= i < steps.len() ==> !powers_on(#[trigger] steps[i]),
    ensures
        !run(state, steps).ready,
    decreases steps.len(),
{
    if steps.len() > 0 {
        lemma_ready_only_by_power_on(state, steps.drop_last());
        assert(!powers_on(steps[steps.len() - 1]));
    }
}

/// Once the manager was reported as powered on, the adapter is ready, and
/// stays so whatever happens.
pub proof fn lemma_ready_for_good(state: AdapterState, steps: Seq<Step>)
    ensures
        state.after_event(NativeEventView::AdapterStateChanged(ManagerState::PoweredOn)).ready,
        state.ready ==> run(state, steps).ready,
    decreases steps.len(),
{
    if steps.len() > 0 {
        lemma_ready_for_good(state, steps.drop_last());
    }
}

/// A connect binds a session that never existed before: every earlier
/// session is unbound from then on, and keeps what waited for it.
pub proof fn lemma_connect_supersedes(state: AdapterState, address: Seq<char>, earlier: nat)
    requires
        state.wf(),
        state.connect_error(address) is None,
        earlier < state.bridge.opened,
    ensures
        step(state, Step::Connect(address)).bridge.binding == Some(state.bridge.opened),
        step(state, Step::Connect(address)).bridge.binding != Some(earlier),
        step(state, Step::Connect(address)).bridge.queue(earlier) == state.bridge.queue(earlier),
        step(state, Step::Connect(address)).bridge.queue(state.bridge.opened)
            == Seq::<MessageView>::empty(),
{
}

/// What one step does to a session that is not bound: it stays unbound, and
/// nothing is added to what waits for it.
pub proof fn lemma_unbound_session_step(state: AdapterState, session: nat, s: Step)
    requires
        state.wf(),
        session < state.bridge.opened,
        state.bridge.binding != Some(session),
    ensures
        step(state, s).bridge.binding != Some(session),
        session < step(state, s).bridge.opened,
        step(state, s).bridge.queue(session) == if s == Step::Receive(session)
            && state.bridge.queue(session).len() > 0 {
            state.bridge.queue(session).drop_first()
        } else if s == Step::Release(session) {
            Seq::empty()
        } else {
            state.bridge.queue(session)
        },
{
    match s {
        Step::Event(event) => {
            match state.message_of(event) {
                Some(message) => {
                    assert(step(state, s).bridge == state.bridge.deliver(message) || step(state, s)
                        == state);
                },
                None => {},
            }
        },
        _ => {},
    }
}

/// A session that another one superseded gets nothing new, whatever
/// happens: no sequence of steps binds it again or makes more wait for it,
/// and while its connection neither receives nor is released, what waits
/// for it stays as it is.
pub proof fn lemma_superseded_session_gets_nothing(
    state: AdapterState,
    session: nat,
    steps: Seq<Step>,
)
    requires
        state.wf(),
        session < state.bridge.opened,
        state.bridge.binding != Some(session),
    ensures
        run(state, steps).bridge.binding != Some(session),
        session < run(state, steps).bridge.opened,
        run(state, steps).bridge.queue(session).len() <= state.bridge.queue(session).len(),
        (forall|i: int|
            0 <= i < steps.len() ==> #[trigger] steps[i] != Step::Receive(session) && steps[i]
                != Step::Release(session)) ==> run(state, steps).bridge.queue(session)
            == state.bridge.queue(session),
    decreases steps.len(),
{
    if steps.len() > 0 {
        let earlier = steps.drop_last();
        lemma_superseded_session_gets_nothing(state, session, earlier);
        lemma_run_keeps_wf(state, earlier);
        lemma_unbound_session_step(run(state, earlier), session, steps.last());
        if forall|i: int|
            0 <= i < steps.len() ==> #[trigger] steps[i] != Step::Receive(session) && steps[i]
                != Step::Release(session) {
            assert forall|i: int| 0 <= i < earlier.len() implies #[trigger] earlier[i]
                != Step::Receive(session) && earlier[i] != Step::Release(session) by {
                assert(earlier[i] == steps[i]);
            }
            assert(steps[steps.len() - 1] == steps.last());
        }
    }
}

/// What the native callbacks produce reaches the bound session in the order
/// in which they produced it. While the session stays bound and its
/// connection takes nothing out, it holds what its channel makes of these
/// messages, whatever else happens in between.
pub proof fn lemma_bound_session_gets_what_was_produced(
    state: AdapterState,
    session: nat,
    steps: Seq<Step>,
)
    requires
        state.wf(),
        state.bridge.binding == Some(session),
        state.bridge.pending.contains_key(session),
        forall|i: int| 0 <= i < steps.len() ==> leaves_alone(session, #[trigger] steps[i]),
    ensures
        run(state, steps).bridge.binding == Some(session),
        run(state, steps).bridge.pending.contains_key(session),
        run(state, steps).bridge.retention == state.bridge.retention,
        run(state, steps).bridge.queue(session) == delivered_onto(
            state.bridge.queue(session),
            produced(session, steps),
            state.bridge.retention,
        ),
    decreases steps.len(),
{
    if steps.len() > 0 {
        let earlier = steps.drop_last();
        assert forall|i: int| 0 <= i < earlier.len() implies leaves_alone(
            session,
            #[trigger] earlier[i],
        ) by {
            assert(earlier[i] == steps[i]);
        }
        lemma_bound_session_gets_what_was_produced(state, session, earlier);
        let before = run(state, earlier);
        let last = steps.last();
        assert(leaves_alone(session, steps[steps.len() - 1]));
        match last {
            Step::Event(event) => {
                if is_session_event(event) {
                    assert(before.message_of(event) == Some(message_for(session, event)));
                    assert(produced(session, steps).drop_last() =~= produced(session, earlier));
                }
            },
            _ => {},
        }
    }
}

/// A session that was just opened and is not drained holds the messages
/// that the callbacks produced since, in their order, but for the oldest
/// data messages beyond the retention bound.
pub proof fn lemma_new_session_gets_what_was_produced(
    state: AdapterState,
    address: Seq<char>,
    steps: Seq<Step>,
)
    requires
        state.wf(),
        state.connect_error(address) is None,
        forall|i: int|
            0 <= i < steps.len() ==> leaves_alone(
                state.bridge.opened,
                #[trigger] steps[i],
            ),
    ensures
        run(step(state, Step::Connect(address)), steps).bridge.queue(state.bridge.opened)
            == delivered(produced(state.bridge.opened, steps), state.bridge.retention),
{
    let session = state.bridge.opened;
    let connected = step(state, Step::Connect(address));
    lemma_step_keeps_wf(state, Step::Connect(address));
    lemma_bound_session_gets_what_was_produced(connected, session, steps);
}

} // verus!
