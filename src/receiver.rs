//! The receiving side of a handoff: what to do with each event, and how a
//! consumed property becomes a payload for the opener.
use vstd::prelude::*;
use vstd::utf8::{decode_utf8, valid_utf8};
use crate::protocol::{
    Event, Notification, PropertyRead, PropertyReply, ANY_PROPERTY_TYPE, BYTE_FORMAT,
    MAX_READ_LENGTH,
};

verus! {

/// What the receiver loop does with one event.
#[derive(Clone, Copy, Debug, PartialEq, Eq, Structural)]
pub enum ReceiverAction {
    /// A notification about the receiver's own window, which no correct
    /// sender produces: report it and go on.
    ReportOwnWindow(Notification),
    /// A handoff signal: read and delete the named property in one round
    /// trip, then hand the reply to a worker.
    ReadAndDelete(PropertyRead),
    /// Another receiver has taken the selection: stop serving.
    Terminate,
    /// Nothing to do.
    Ignore,
}

/// Why a consumed property yields no payload.
#[derive(Clone, Copy, Debug, PartialEq, Eq, Structural)]
pub enum DecodeError {
    /// The property is not a sequence of bytes.
    NotBytes,
    /// The property is not tagged with the expected encoding.
    WrongEncoding,
    /// The bytes are not valid text.
    InvalidText,
}

/// The ids a receiver needs: its own proxy window and the encoding atom.
#[derive(Clone, Copy, Debug, PartialEq, Eq, Structural)]
pub struct Receiver {
    pub window: u32,
    pub encoding_atom: u32,
}

/// The read that consumes the property a signal names, whatever its type, so
/// that the sender is acknowledged even when the payload is then discarded.
pub open spec fn consuming_read(n: Notification) -> PropertyRead {
    PropertyRead {
        window: n.window,
        property: n.atom,
        type_: ANY_PROPERTY_TYPE,
        delete: true,
        long_offset: 0,
        long_length: MAX_READ_LENGTH,
    }
}

/// What a receiver does with `ev`.
pub open spec fn action_for(r: Receiver, ev: Event) -> ReceiverAction {
    match ev {
        Event::PropertyNotify(n) => if n.window == r.window {
            ReceiverAction::ReportOwnWindow(n)
        } else {
            ReceiverAction::ReadAndDelete(consuming_read(n))
        },
        Event::SelectionClear => ReceiverAction::Terminate,
        Event::Other => ReceiverAction::Ignore,
    }
}

/// The text a consumed property carries, or why it carries none.
pub open spec fn decoded(encoding_atom: u32, type_: u32, format: u8, value: Seq<u8>) -> Result<
    Seq<char>,
    DecodeError,
> {
    if format != BYTE_FORMAT {
        Err(DecodeError::NotBytes)
    } else if type_ != encoding_atom {
        Err(DecodeError::WrongEncoding)
    } else if !valid_utf8(value) {
        Err(DecodeError::InvalidText)
    } else {
        Ok(decode_utf8(value))
    }
}

/// Relies on String::from_utf8: it succeeds exactly on valid UTF-8 and then
/// holds the characters those bytes encode.
#[verifier::external_body]
fn text_from_bytes(bytes: Vec<u8>) -> (r: Option<String>)
    ensures
        r.is_some() == valid_utf8(bytes@),
        r matches Some(s) ==> s@ == decode_utf8(bytes@),
{
    String::from_utf8(bytes).ok()
}

impl Receiver {
    /// Decides what the receiver loop does with one event.
    pub fn on_event(&self, ev: Event) -> (a: ReceiverAction)
        ensures
            a == action_for(*self, ev),
    {
        match ev {
            Event::PropertyNotify(n) => {
                if n.window == self.window {
                    ReceiverAction::ReportOwnWindow(n)
                } else {
                    ReceiverAction::ReadAndDelete(
                        PropertyRead {
                            window: n.window,
                            property: n.atom,
                            type_: ANY_PROPERTY_TYPE,
                            delete: true,
                            long_offset: 0,
                            long_length: MAX_READ_LENGTH,
                        },
                    )
                }
            },
            Event::SelectionClear => ReceiverAction::Terminate,
            Event::Other => ReceiverAction::Ignore,
        }
    }

    /// Turns the reply of a consuming read into the text to open.
    pub fn decode(&self, reply: PropertyReply) -> (r: Result<String, DecodeError>)
        ensures
            match (r, decoded(self.encoding_atom, reply.type_, reply.format, reply.value@)) {
                (Ok(s), Ok(t)) => s@ == t,
                (Err(e), Err(f)) => e == f,
                _ => false,
            },
    {
        if reply.format != BYTE_FORMAT {
            return Err(DecodeError::NotBytes);
        }
        if reply.type_ != self.encoding_atom {
            return Err(DecodeError::WrongEncoding);
        }
        match text_from_bytes(reply.value) {
            Some(s) => Ok(s),
            None => Err(DecodeError::InvalidText),
        }
    }
}

} // verus!
