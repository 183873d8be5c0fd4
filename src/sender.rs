//! The sending side of a handoff: where to send, what to write and inject,
//! and when the wait for acknowledgment ends.
use vstd::prelude::*;
use crate::protocol::{Event, Injection, Notification, PropertyState, PropertyWrite, BYTE_FORMAT, NONE};

verus! {

broadcast use vstd::seq_lib::group_seq_properties;

/// Why a send did not complete.
#[derive(Clone, Copy, Debug, PartialEq, Eq, Structural)]
pub enum SendError {
    /// No receiver owns the selection; the caller falls back to a direct open.
    NoReceiver,
    /// The display could not be reached.
    Connection,
    /// The selection lookup was rejected.
    Protocol,
    /// The payload write was rejected.
    Property,
    /// The injected notification was rejected.
    Delivery,
    /// The bounded wait ran out before the acknowledgment came.
    Timeout,
}

/// The ids a sender needs: its own proxy window and the interned atoms.
#[derive(Clone, Copy, Debug, PartialEq, Eq, Structural)]
pub struct SenderIds {
    pub window: u32,
    pub selection_atom: u32,
    pub prop_atom: u32,
    pub encoding_atom: u32,
}

/// Whether `ev` acknowledges a handoff from `window`'s property `atom`:
/// a genuine deletion of exactly that property.
pub open spec fn is_ack(window: u32, atom: u32, ev: Event) -> bool {
    match ev {
        Event::PropertyNotify(n) => n.state == PropertyState::Delete && n.window == window
            && n.atom == atom && !n.synthetic,
        _ => false,
    }
}

/// How many events of `events` acknowledge a handoff from `window`'s property `atom`.
pub open spec fn count_acks(window: u32, atom: u32, events: Seq<Event>) -> nat
    decreases events.len(),
{
    if events.len() == 0 {
        0
    } else {
        count_acks(window, atom, events.drop_last()) + (if is_ack(
            window,
            atom,
            events.last(),
        ) {
            1nat
        } else {
            0nat
        })
    }
}

/// The write that puts `payload` on the sender's own window.
pub open spec fn payload_write(ids: SenderIds, payload: Seq<char>) -> (u32, u32, u32, u8, Seq<u8>) {
    (ids.window, ids.prop_atom, ids.encoding_atom, BYTE_FORMAT, vstd::utf8::encode_utf8(payload))
}

/// The notification a sender injects into the receiver's queue.
pub open spec fn signal_for(ids: SenderIds) -> Notification {
    Notification {
        window: ids.window,
        atom: ids.prop_atom,
        state: PropertyState::NewValue,
        synthetic: true,
    }
}

/// Where a send goes once the selection owner is known: to `owner`, or, where
/// there is none, nowhere, which the caller answers with a direct open.
pub fn route(owner: u32) -> (r: Result<u32, SendError>)
    ensures
        owner == NONE ==> r == Err::<u32, SendError>(SendError::NoReceiver),
        owner != NONE ==> r == Ok::<u32, SendError>(owner),
{
    if owner == NONE {
        Err(SendError::NoReceiver)
    } else {
        Ok(owner)
    }
}

/// The write that replaces the sender's property with the text bytes of `payload`.
pub fn property_write(ids: SenderIds, payload: &str) -> (w: PropertyWrite)
    ensures
        w@ == payload_write(ids, payload@),
{
    let bytes: &[u8] = payload.as_bytes();
    let mut data: Vec<u8> = Vec::new();
    let mut i: usize = 0;
    while i < bytes.len()
        invariant
            i <= bytes@.len(),
            data@ == bytes@.subrange(0, i as int),
        decreases bytes@.len() - i,
    {
        data.push(bytes[i]);
        i = i + 1;
    }
    assert(data@ =~= bytes@);
    PropertyWrite {
        window: ids.window,
        property: ids.prop_atom,
        type_: ids.encoding_atom,
        format: BYTE_FORMAT,
        data,
    }
}

/// The injection that tells `receiver` a payload waits on the sender's window.
pub fn injection(ids: SenderIds, receiver: u32) -> (j: Injection)
    ensures
        j == (Injection { destination: receiver, notification: signal_for(ids) }),
{
    Injection {
        destination: receiver,
        notification: Notification {
            window: ids.window,
            atom: ids.prop_atom,
            state: PropertyState::NewValue,
            synthetic: true,
        },
    }
}

/// One send's wait for acknowledgment: the events seen so far and whether
/// the acknowledgment has come.
pub struct Handoff {
    ids: SenderIds,
    acknowledged: bool,
    seen: Ghost<Seq<Event>>,
}

impl Handoff {
    pub closed spec fn ids(&self) -> SenderIds {
        self.ids
    }

    pub closed spec fn seen(&self) -> Seq<Event> {
        self.seen@
    }

    pub closed spec fn done(&self) -> bool {
        self.acknowledged
    }

    /// Until the acknowledgment comes none was seen; once it has, exactly
    /// one was, and it was the last event seen.
    pub closed spec fn wf(&self) -> bool {
        &&& !self.acknowledged ==> count_acks(self.ids.window, self.ids.prop_atom, self.seen@) == 0
        &&& self.acknowledged ==> {
            &&& count_acks(self.ids.window, self.ids.prop_atom, self.seen@) == 1
            &&& self.seen@.len() > 0
            &&& is_ack(self.ids.window, self.ids.prop_atom, self.seen@.last())
        }
    }

    /// Starts waiting for the acknowledgment of a payload written by `ids`.
    pub fn new(ids: SenderIds) -> (h: Handoff)
        ensures
            h.wf(),
            h.ids() == ids,
            h.seen() == Seq::<Event>::empty(),
            !h.done(),
    {
        Handoff { ids, acknowledged: false, seen: Ghost(Seq::empty()) }
    }

    /// Whether the acknowledgment has come.
    pub fn is_acknowledged(&self) -> (r: bool)
        ensures
            r == self.done(),
    {
        self.acknowledged
    }

    /// Takes one event seen while waiting. Returns true when it is the
    /// acknowledgment, after which the wait is over; anything else is ignored.
    pub fn observe(&mut self, ev: Event) -> (acked: bool)
        requires
            old(self).wf(),
            !old(self).done(),
        ensures
            final(self).wf(),
            final(self).ids() == old(self).ids(),
            final(self).seen() == old(self).seen().push(ev),
            acked == is_ack(old(self).ids().window, old(self).ids().prop_atom, ev),
            final(self).done() == acked,
    {
        let acked = match ev {
            Event::PropertyNotify(n) => n.state == PropertyState::Delete && n.window
                == self.ids.window && n.atom == self.ids.prop_atom && !n.synthetic,
            _ => false,
        };
        let ghost prev = self.seen@;
        self.seen = Ghost(prev.push(ev));
        assert(self.seen@.drop_last() =~= prev);
        self.acknowledged = acked;
        acked
    }
}

/// Where a send stands.
#[derive(Clone, Copy, Debug, PartialEq, Eq, Structural)]
pub enum SendStage {
    /// The selection owner is being looked up.
    LookingUp,
    /// The payload is being written on the sender's window.
    Writing,
    /// The receiver is being signalled.
    Signalling,
    /// The sender waits for the acknowledgment.
    Waiting,
    /// The send is over, one way or the other.
    Finished,
}

/// What the display answered to the step a send is at.
#[derive(Clone, Copy, Debug, PartialEq, Eq, Structural)]
pub enum SendInput {
    /// The lookup found this owner, or `NONE`.
    Owner(u32),
    /// The write or the injection was accepted.
    Accepted,
    /// The request of the current step, or the connection, failed.
    Failed,
    /// An event arrived while waiting.
    Display(Event),
    /// The bounded wait ran out.
    TimedOut,
}

/// What the caller does next for a send.
#[derive(Debug)]
pub enum SendAction {
    Write(PropertyWrite),
    Inject(Injection),
    /// Wait for the next event.
    AwaitEvent,
    /// The input did not belong to the current step: nothing to do.
    Nothing,
    /// The send is over with this result.
    Finish(Result<(), SendError>),
}

/// The error a failure brings at each step.
pub open spec fn failure_at(stage: SendStage) -> SendError {
    match stage {
        SendStage::LookingUp => SendError::Protocol,
        SendStage::Writing => SendError::Property,
        SendStage::Signalling => SendError::Delivery,
        _ => SendError::Connection,
    }
}

/// One send of one payload, from the lookup of the receiver to its
/// acknowledgment or the first failure.
pub struct SendSession {
    payload: String,
    receiver: u32,
    stage: SendStage,
    wait: Handoff,
}

impl SendSession {
    pub closed spec fn ids(&self) -> SenderIds {
        self.wait.ids()
    }

    pub closed spec fn payload(&self) -> Seq<char> {
        self.payload@
    }

    pub closed spec fn receiver(&self) -> u32 {
        self.receiver
    }

    pub closed spec fn stage(&self) -> SendStage {
        self.stage
    }

    /// The wait for acknowledgment, once the send has reached it.
    pub closed spec fn wait(&self) -> Handoff {
        self.wait
    }

    pub closed spec fn wf(&self) -> bool {
        &&& self.wait.wf()
        &&& self.stage != SendStage::Finished ==> !self.wait.done()
        &&& self.stage != SendStage::Waiting && self.stage != SendStage::Finished ==> self.wait.seen()
            == Seq::<Event>::empty()
    }

    /// Starts a send of `payload` by the sender `ids`: the first step is the lookup.
    pub fn new(ids: SenderIds, payload: &str) -> (s: SendSession)
        ensures
            s.wf(),
            s.ids() == ids,
            s.payload() == payload@,
            s.stage() == SendStage::LookingUp,
    {
        SendSession {
            payload: payload.to_owned(),
            receiver: NONE,
            stage: SendStage::LookingUp,
            wait: Handoff::new(ids),
        }
    }

    /// Where the send stands.
    pub fn current_stage(&self) -> (r: SendStage)
        ensures
            r == self.stage(),
    {
        self.stage
    }

    /// Takes the display's answer to the current step and gives the next one.
    /// A missing receiver ends the send with `NoReceiver`; a failure ends it
    /// with the error of the step it came at; a genuine deletion of the
    /// sender's property ends it with success; nothing else ends it.
    pub fn step(&mut self, input: SendInput) -> (a: SendAction)
        requires
            old(self).wf(),
            old(self).stage() != SendStage::Finished,
        ensures
            final(self).wf(),
            final(self).ids() == old(self).ids(),
            final(self).payload() == old(self).payload(),
            ({
                let st = old(self).stage();
                let ids = old(self).ids();
                match input {
                    SendInput::Owner(o) => if st != SendStage::LookingUp {
                        a is Nothing && *final(self) == *old(self)
                    } else if o == NONE {
                        a == SendAction::Finish(Err(SendError::NoReceiver))
                            && final(self).stage() == SendStage::Finished
                    } else {
                        &&& final(self).stage() == SendStage::Writing
                        &&& final(self).receiver() == o
                        &&& a matches SendAction::Write(w) && w@ == payload_write(ids, old(self).payload())
                    },
                    SendInput::Accepted => if st == SendStage::Writing {
                        &&& final(self).stage() == SendStage::Signalling
                        &&& final(self).receiver() == old(self).receiver()
                        &&& a == SendAction::Inject(
                            Injection { destination: old(self).receiver(), notification: signal_for(ids) },
                        )
                    } else if st == SendStage::Signalling {
                        &&& final(self).stage() == SendStage::Waiting
                        &&& final(self).wait().seen() == Seq::<Event>::empty()
                        &&& a is AwaitEvent
                    } else {
                        a is Nothing && *final(self) == *old(self)
                    },
                    SendInput::Failed => {
                        &&& final(self).stage() == SendStage::Finished
                        &&& a == SendAction::Finish(Err(failure_at(st)))
                    },
                    SendInput::Display(ev) => if st != SendStage::Waiting {
                        a is Nothing && *final(self) == *old(self)
                    } else {
                        &&& final(self).wait().seen() == old(self).wait().seen().push(ev)
                        &&& if is_ack(ids.window, ids.prop_atom, ev) {
                            &&& final(self).stage() == SendStage::Finished
                            &&& final(self).wait().done()
                            &&& a == SendAction::Finish(Ok(()))
                        } else {
                            final(self).stage() == SendStage::Waiting && a is AwaitEvent
                        }
                    },
                    SendInput::TimedOut => if st != SendStage::Waiting {
                        a is Nothing && *final(self) == *old(self)
                    } else {
                        &&& final(self).stage() == SendStage::Finished
                        &&& a == SendAction::Finish(Err(SendError::Timeout))
                    },
                }
            }),
    {
        match input {
            SendInput::Owner(o) => {
                if self.stage != SendStage::LookingUp {
                    return SendAction::Nothing;
                }
                match route(o) {
                    Err(e) => {
                        self.stage = SendStage::Finished;
                        SendAction::Finish(Err(e))
                    },
                    Ok(r) => {
                        self.receiver = r;
                        self.stage = SendStage::Writing;
                        SendAction::Write(property_write(self.wait.ids, self.payload.as_str()))
                    },
                }
            },
            SendInput::Accepted => {
                if self.stage == SendStage::Writing {
                    self.stage = SendStage::Signalling;
                    SendAction::Inject(injection(self.wait.ids, self.receiver))
                } else if self.stage == SendStage::Signalling {
                    self.stage = SendStage::Waiting;
                    SendAction::AwaitEvent
                } else {
                    SendAction::Nothing
                }
            },
            SendInput::Failed => {
                let e = match self.stage {
                    SendStage::LookingUp => SendError::Protocol,
                    SendStage::Writing => SendError::Property,
                    SendStage::Signalling => SendError::Delivery,
                    _ => SendError::Connection,
                };
                self.stage = SendStage::Finished;
                SendAction::Finish(Err(e))
            },
            SendInput::Display(ev) => {
                if self.stage != SendStage::Waiting {
                    return SendAction::Nothing;
                }
                if self.wait.observe(ev) {
                    self.stage = SendStage::Finished;
                    SendAction::Finish(Ok(()))
                } else {
                    SendAction::AwaitEvent
                }
            },
            SendInput::TimedOut => {
                if self.stage != SendStage::Waiting {
                    return SendAction::Nothing;
                }
                self.stage = SendStage::Finished;
                SendAction::Finish(Err(SendError::Timeout))
            },
        }
    }
}

/// A wait that has ended has seen exactly one acknowledgment, the last event.
pub proof fn lemma_exactly_one_ack(h: Handoff)
    requires
        h.wf(),
        h.done(),
    ensures
        count_acks(h.ids().window, h.ids().prop_atom, h.seen()) == 1,
        is_ack(h.ids().window, h.ids().prop_atom, h.seen().last()),
{
}

/// A send that ended with success has seen exactly one acknowledgment.
pub proof fn lemma_send_acknowledged_once(s: SendSession)
    requires
        s.wf(),
        s.stage() == SendStage::Finished,
        s.wait().done(),
    ensures
        count_acks(s.ids().window, s.ids().prop_atom, s.wait().seen()) == 1,
{
    lemma_exactly_one_ack(s.wait());
}

} // verus!
