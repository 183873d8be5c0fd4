//! What holds of whole handoffs, over the model of the display's tables.
use vstd::prelude::*;
use vstd::utf8::{encode_utf8_decode_utf8, encode_utf8_valid_utf8, valid_utf8};
use crate::protocol::{
    after_claim, after_read, after_write, claim_clears_previous, deletion_event, lookup,
    read_reply, DisplayState, Event, BYTE_FORMAT, NONE,
};
use crate::receiver::{action_for, consuming_read, decoded, DecodeError, Receiver, ReceiverAction};
use crate::sender::{is_ack, payload_write, signal_for, SenderIds};

verus! {

/// A sender writes text `s` on its own window and signals the receiver. The
/// receiver answers the signal with one consuming read, which decodes to
/// exactly `s`, leaves the property absent, and raises a deletion that the
/// sender takes as its acknowledgment.
pub proof fn lemma_round_trip(d: DisplayState, ids: SenderIds, r: Receiver, s: Seq<char>)
    requires
        ids.window != r.window,
        ids.encoding_atom == r.encoding_atom,
    ensures
        ({
            let d1 = after_write(d, payload_write(ids, s));
            let read = consuming_read(signal_for(ids));
            let reply = read_reply(d1, read);
            &&& action_for(r, Event::PropertyNotify(signal_for(ids)))
                == ReceiverAction::ReadAndDelete(read)
            &&& decoded(r.encoding_atom, reply.0, reply.1, reply.2) == Ok::<
                Seq<char>,
                DecodeError,
            >(s)
            &&& !after_read(d1, read).props.contains_key((ids.window, ids.prop_atom))
            &&& is_ack(ids.window, ids.prop_atom, deletion_event(read))
        }),
{
    encode_utf8_valid_utf8(s);
    encode_utf8_decode_utf8(s);
}

/// Bytes that are not valid text, written as a payload, are still read and
/// deleted, and the sender is acknowledged; but they decode to no text, so
/// nothing reaches the opener.
pub proof fn lemma_malformed_payload(d: DisplayState, ids: SenderIds, r: Receiver, bytes: Seq<u8>)
    requires
        ids.window != r.window,
        ids.encoding_atom == r.encoding_atom,
        !valid_utf8(bytes),
    ensures
        ({
            let d1 = after_write(
                d,
                (ids.window, ids.prop_atom, ids.encoding_atom, BYTE_FORMAT, bytes),
            );
            let read = consuming_read(signal_for(ids));
            let reply = read_reply(d1, read);
            &&& action_for(r, Event::PropertyNotify(signal_for(ids)))
                == ReceiverAction::ReadAndDelete(read)
            &&& decoded(r.encoding_atom, reply.0, reply.1, reply.2) == Err::<
                Seq<char>,
                DecodeError,
            >(DecodeError::InvalidText)
            &&& !after_read(d1, read).props.contains_key((ids.window, ids.prop_atom))
            &&& is_ack(ids.window, ids.prop_atom, deletion_event(read))
        }),
{
}

/// A payload tagged with another type than the receiver's encoding is still
/// read and deleted, and the sender is acknowledged; but it decodes to no
/// text, so nothing reaches the opener.
pub proof fn lemma_wrongly_tagged_payload(
    d: DisplayState,
    ids: SenderIds,
    r: Receiver,
    type_: u32,
    bytes: Seq<u8>,
)
    requires
        ids.window != r.window,
        type_ != r.encoding_atom,
    ensures
        ({
            let d1 = after_write(d, (ids.window, ids.prop_atom, type_, BYTE_FORMAT, bytes));
            let read = consuming_read(signal_for(ids));
            let reply = read_reply(d1, read);
            &&& action_for(r, Event::PropertyNotify(signal_for(ids)))
                == ReceiverAction::ReadAndDelete(read)
            &&& decoded(r.encoding_atom, reply.0, reply.1, reply.2) == Err::<
                Seq<char>,
                DecodeError,
            >(DecodeError::WrongEncoding)
            &&& !after_read(d1, read).props.contains_key((ids.window, ids.prop_atom))
            &&& is_ack(ids.window, ids.prop_atom, deletion_event(read))
        }),
{
}

/// Two senders with their own windows each write a property, of any type,
/// format and bytes, and signal one receiver. Whichever signal the receiver
/// answers first, each consuming read yields exactly its own sender's
/// property, so each worker decodes what that sender wrote; both properties
/// end absent, and nothing else in the table changes.
pub proof fn lemma_concurrent_senders(
    d: DisplayState,
    a: SenderIds,
    b: SenderIds,
    r: Receiver,
    wa: (u32, u8, Seq<u8>),
    wb: (u32, u8, Seq<u8>),
    a_first: bool,
)
    requires
        a.window != b.window,
        a.window != r.window,
        b.window != r.window,
    ensures
        ({
            let d1 = after_write(
                after_write(d, (a.window, a.prop_atom, wa.0, wa.1, wa.2)),
                (b.window, b.prop_atom, wb.0, wb.1, wb.2),
            );
            let ra = consuming_read(signal_for(a));
            let rb = consuming_read(signal_for(b));
            let (first, second) = if a_first {
                (ra, rb)
            } else {
                (rb, ra)
            };
            let d2 = after_read(d1, first);
            let d3 = after_read(d2, second);
            let reply_a = if a_first {
                read_reply(d1, ra)
            } else {
                read_reply(d2, ra)
            };
            let reply_b = if a_first {
                read_reply(d2, rb)
            } else {
                read_reply(d1, rb)
            };
            &&& action_for(r, Event::PropertyNotify(signal_for(a)))
                == ReceiverAction::ReadAndDelete(ra)
            &&& action_for(r, Event::PropertyNotify(signal_for(b)))
                == ReceiverAction::ReadAndDelete(rb)
            &&& reply_a == wa
            &&& reply_b == wb
            &&& decoded(r.encoding_atom, reply_a.0, reply_a.1, reply_a.2) == decoded(
                r.encoding_atom,
                wa.0,
                wa.1,
                wa.2,
            )
            &&& decoded(r.encoding_atom, reply_b.0, reply_b.1, reply_b.2) == decoded(
                r.encoding_atom,
                wb.0,
                wb.1,
                wb.2,
            )
            &&& d3.props == d.props.remove((a.window, a.prop_atom)).remove(
                (b.window, b.prop_atom),
            )
        }),
{
    let d1 = after_write(
        after_write(d, (a.window, a.prop_atom, wa.0, wa.1, wa.2)),
        (b.window, b.prop_atom, wb.0, wb.1, wb.2),
    );
    let ra = consuming_read(signal_for(a));
    let rb = consuming_read(signal_for(b));
    if a_first {
        assert(after_read(after_read(d1, ra), rb).props =~= d.props.remove(
            (a.window, a.prop_atom),
        ).remove((b.window, b.prop_atom)));
    } else {
        assert(after_read(after_read(d1, rb), ra).props =~= d.props.remove(
            (a.window, a.prop_atom),
        ).remove((b.window, b.prop_atom)));
    }
}

/// A second receiver claiming the selection tells the first, whose loop then
/// stops serving; a later lookup finds the second receiver's window.
pub proof fn lemma_ownership_takeover(
    d: DisplayState,
    selection: u32,
    first: Receiver,
    second: Receiver,
)
    requires
        lookup(d, selection) == first.window,
        first.window != NONE,
        second.window != NONE,
        first.window != second.window,
    ensures
        claim_clears_previous(d, selection, second.window),
        action_for(first, Event::SelectionClear) == ReceiverAction::Terminate,
        lookup(after_claim(d, selection, second.window), selection) == second.window,
{
}

} // verus!
