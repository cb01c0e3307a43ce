//! The event bridge: one channel for each session, and the binding that says
//! which of them the native callbacks feed.
//!
//! A session is opened by a connect and named by a number that is never
//! given out again: the sessions are numbered in the order in which they
//! were opened. At most one session is bound at a time. A session that
//! another one superseded keeps what was queued for it, and gets nothing new.

use vstd::prelude::*;
use crate::channel::{enqueue, Channel};
use crate::message::{Message, MessageView};

verus! {

/// The bridge as a plain value.
pub struct BridgeState {
    /// The session that the native callbacks feed.
    pub binding: Option<nat>,
    /// How many sessions were opened so far; the next one gets this number.
    pub opened: nat,
    /// The number of data messages that a channel retains at most.
    pub retention: nat,
    /// What waits for each session that was opened and not released.
    pub pending: Map<nat, Seq<MessageView>>,
}

impl BridgeState {
    /// The bridge before any session was opened.
    pub open spec fn init(retention: nat) -> BridgeState {
        BridgeState { binding: None, opened: 0, retention, pending: Map::empty() }
    }

    /// Every session that is bound or has a channel was opened before.
    pub open spec fn wf(self) -> bool {
        &&& self.binding matches Some(s) ==> s < self.opened
        &&& forall|s: nat| #[trigger] self.pending.contains_key(s) ==> s < self.opened
    }

    /// What waits for `session`: nothing, if it has no channel.
    pub open spec fn queue(self, session: nat) -> Seq<MessageView> {
        if self.pending.contains_key(session) {
            self.pending[session]
        } else {
            Seq::empty()
        }
    }

    /// The bridge after a session was opened: the new session has an empty
    /// channel and is the one that is bound.
    pub open spec fn open(self) -> BridgeState {
        BridgeState {
            binding: Some(self.opened),
            opened: self.opened + 1,
            retention: self.retention,
            pending: self.pending.insert(self.opened, Seq::empty()),
        }
    }

    /// The bridge after a native callback produced `message`: it goes to the
    /// channel of the bound session, and is dropped if there is none.
    pub open spec fn deliver(self, message: MessageView) -> BridgeState {
        match self.binding {
            Some(s) if self.pending.contains_key(s) => BridgeState {
                binding: self.binding,
                opened: self.opened,
                retention: self.retention,
                pending: self.pending.insert(s, enqueue(self.pending[s], message, self.retention)),
            },
            _ => self,
        }
    }

    /// The bridge after `session` took out the message that waited longest.
    pub open spec fn take(self, session: nat) -> BridgeState {
        if self.queue(session).len() > 0 {
            BridgeState {
                binding: self.binding,
                opened: self.opened,
                retention: self.retention,
                pending: self.pending.insert(session, self.pending[session].drop_first()),
            }
        } else {
            self
        }
    }

    /// The bridge after `session` was given up: its channel is gone, and it
    /// is no longer bound.
    pub open spec fn release(self, session: nat) -> BridgeState {
        BridgeState {
            binding: if self.binding == Some(session) {
                None
            } else {
                self.binding
            },
            opened: self.opened,
            retention: self.retention,
            pending: self.pending.remove(session),
        }
    }
}

/// A session's number as the plain number that it is.
pub open spec fn session_of(binding: Option<usize>) -> Option<nat> {
    match binding {
        Some(s) => Some(s as nat),
        None => None,
    }
}

/// The channel of one session. The slot of a session stands at the place
/// that is the session's number, and stays there once the session was
/// released, so that no number is given out twice.
struct Slot {
    channel: Channel,
    live: bool,
}

spec fn pending_of(slots: Seq<Slot>) -> Map<nat, Seq<MessageView>> {
    Map::new(
        |s: nat| s < slots.len() && slots[s as int].live,
        |s: nat| slots[s as int].channel@,
    )
}

/// The channels of all sessions, and the binding of the native callbacks.
pub struct EventBridge {
    slots: Vec<Slot>,
    binding: Option<usize>,
    retention: usize,
}

impl View for EventBridge {
    type V = BridgeState;

    closed spec fn view(&self) -> BridgeState {
        BridgeState {
            binding: session_of(self.binding),
            opened: self.slots@.len(),
            retention: self.retention as nat,
            pending: pending_of(self.slots@),
        }
    }
}

impl EventBridge {
    /// What holds of every bridge: every channel has the bridge's bound, and
    /// the session that is bound was opened.
    #[verifier::type_invariant]
    pub closed spec fn well_formed(&self) -> bool {
        &&& forall|i: int|
            0 <= i < self.slots@.len() ==> (#[trigger] self.slots@[i]).channel.bound()
                == self.retention
        &&& self.binding matches Some(s) ==> s < self.slots@.len()
    }

    /// A well-formed bridge has a well-formed state.
    pub proof fn lemma_state_wf(self)
        requires
            self.well_formed(),
        ensures
            self@.wf(),
    {
    }

    /// A bridge without sessions, whose channels will retain at most
    /// `retention` data messages each.
    pub fn new(retention: usize) -> (bridge: EventBridge)
        ensures
            bridge@ == BridgeState::init(retention as nat),
    {
        let bridge = EventBridge { slots: Vec::new(), binding: None, retention };
        proof {
            assert(bridge@.pending =~= Map::<nat, Seq<MessageView>>::empty());
        }
        bridge
    }

    /// The session that the native callbacks feed.
    pub fn binding(&self) -> (binding: Option<usize>)
        ensures
            session_of(binding) == self@.binding,
            self@.wf(),
    {
        proof {
            use_type_invariant(self);
        }
        self.binding
    }

    /// How many sessions were opened so far.
    pub fn opened(&self) -> (opened: usize)
        ensures
            opened == self@.opened,
            self@.wf(),
    {
        proof {
            use_type_invariant(self);
        }
        self.slots.len()
    }

    /// The number of data messages that a channel retains at most.
    pub fn retention(&self) -> (retention: usize)
        ensures
            retention == self@.retention,
    {
        self.retention
    }

    /// Opens a session and binds the native callbacks to it. A session that
    /// was bound before gets nothing from now on.
    pub fn open(&mut self) -> (session: usize)
        ensures
            final(self)@ == old(self)@.open(),
            session == old(self)@.opened,
    {
        proof {
            use_type_invariant(&*self);
        }
        self.binding = None;
        let mut slots = Vec::new();
        std::mem::swap(&mut slots, &mut self.slots);
        let ghost before = slots@;
        let session = slots.len();
        slots.push(Slot { channel: Channel::new(self.retention), live: true });
        proof {
            assert(pending_of(slots@) =~= pending_of(before).insert(
                session as nat,
                Seq::<MessageView>::empty(),
            ));
        }
        self.slots = slots;
        self.binding = Some(session);
        session
    }

    /// Takes in a message that a native callback produced, for the session
    /// that is bound. Without a bound session the message is dropped.
    pub fn deliver(&mut self, message: Message)
        ensures
            final(self)@ == old(self)@.deliver(message@),
    {
        proof {
            use_type_invariant(&*self);
        }
        let binding = self.binding;
        if let Some(session) = binding {
            self.binding = None;
            let mut slots = Vec::new();
            std::mem::swap(&mut slots, &mut self.slots);
            let ghost before = slots@;
            if slots[session].live {
                slots[session].channel.push(message);
                proof {
                    assert(pending_of(slots@) =~= pending_of(before).insert(
                        session as nat,
                        enqueue(
                            before[session as int].channel@,
                            message@,
                            self.retention as nat,
                        ),
                    ));
                }
            }
            self.slots = slots;
            self.binding = binding;
        }
    }

    /// Hands out the message that has waited longest for `session`, if any
    /// waits. Other sessions are left as they are.
    pub fn try_recv(&mut self, session: usize) -> (message: Option<Message>)
        ensures
            final(self)@ == old(self)@.take(session as nat),
            match message {
                Some(m) => old(self)@.queue(session as nat).len() > 0 && m@ == old(self)@.queue(
                    session as nat,
                )[0],
                None => old(self)@.queue(session as nat).len() == 0,
            },
    {
        proof {
            use_type_invariant(&*self);
        }
        if session >= self.slots.len() {
            return None;
        }
        let binding = self.binding;
        self.binding = None;
        let mut slots = Vec::new();
        std::mem::swap(&mut slots, &mut self.slots);
        let ghost before = slots@;
        let mut message = None;
        if slots[session].live {
            message = slots[session].channel.try_recv();
            proof {
                if message is Some {
                    assert(pending_of(slots@) =~= pending_of(before).insert(
                        session as nat,
                        before[session as int].channel@.drop_first(),
                    ));
                } else {
                    assert(pending_of(slots@) =~= pending_of(before));
                }
            }
        }
        self.slots = slots;
        self.binding = binding;
        message
    }

    /// Gives up `session`: what waited for it is dropped, and the native
    /// callbacks no longer feed it.
    pub fn release(&mut self, session: usize)
        ensures
            final(self)@ == old(self)@.release(session as nat),
    {
        proof {
            use_type_invariant(&*self);
        }
        let binding = match self.binding {
            Some(bound) if bound == session => None,
            other => other,
        };
        self.binding = None;
        let mut slots = Vec::new();
        std::mem::swap(&mut slots, &mut self.slots);
        let ghost before = slots@;
        if session < slots.len() {
            slots[session] = Slot { channel: Channel::new(self.retention), live: false };
        }
        proof {
            assert(pending_of(slots@) =~= pending_of(before).remove(session as nat));
        }
        self.slots = slots;
        self.binding = binding;
    }
}

} // verus!
