//! The wire-level vocabulary of the handoff protocol: window and atom ids,
//! property notifications, the requests each role makes of the display, and
//! a ghost model of the display's property and selection tables.
use vstd::prelude::*;

verus! {

/// The id the display uses for "no window" and for "no atom".
pub const NONE: u32 = 0;

/// The type a read asks for when it takes a property of whatever type it holds.
pub const ANY_PROPERTY_TYPE: u32 = 0;

/// Name of the selection whose owner is the current handler.
pub const SELECTION_NAME: &'static str = "URI";

/// Name of the property that carries a payload on the sender's window.
pub const PROPERTY_NAME: &'static str = "URI_PROP";

/// Name of the encoding tag attached to a payload.
pub const ENCODING_NAME: &'static str = "UTF8_STRING";

/// Environment flag set by a running receiver, inherited by the processes it spawns.
pub const DELEGATED_FLAG: &'static str = "X11URI_PATH_INDEX";

/// Format (bits per item) of a payload property.
pub const BYTE_FORMAT: u8 = 8;

/// Largest length, in 32-bit units, that a property read asks for.
pub const MAX_READ_LENGTH: u32 = 0xffff_ffff;

/// What happened to a property.
#[derive(Clone, Copy, Debug, PartialEq, Eq, Structural)]
pub enum PropertyState {
    NewValue,
    Delete,
}

/// A property-change notification: the window, the property and the change.
/// `synthetic` is set on notifications that a client injected rather than
/// ones the display raised from a real change.
#[derive(Clone, Copy, Debug, PartialEq, Eq, Structural)]
pub struct Notification {
    pub window: u32,
    pub atom: u32,
    pub state: PropertyState,
    pub synthetic: bool,
}

/// The events a role can receive, as far as the protocol tells them apart.
#[derive(Clone, Copy, Debug, PartialEq, Eq, Structural)]
pub enum Event {
    PropertyNotify(Notification),
    /// The selection this client owned now belongs to someone else.
    SelectionClear,
    Other,
}

/// A request to replace a window's property with 8-bit data.
#[derive(Debug)]
pub struct PropertyWrite {
    pub window: u32,
    pub property: u32,
    pub type_: u32,
    pub format: u8,
    pub data: Vec<u8>,
}

impl View for PropertyWrite {
    type V = (u32, u32, u32, u8, Seq<u8>);

    /// (window, property, type, format, data)
    open spec fn view(&self) -> Self::V {
        (self.window, self.property, self.type_, self.format, self.data@)
    }
}

/// A request to place a notification directly in the queue of `destination`.
#[derive(Clone, Copy, Debug, PartialEq, Eq, Structural)]
pub struct Injection {
    pub destination: u32,
    pub notification: Notification,
}

/// A request to read a window's property, deleting it in the same round trip
/// when `delete` is set.
#[derive(Clone, Copy, Debug, PartialEq, Eq, Structural)]
pub struct PropertyRead {
    pub window: u32,
    pub property: u32,
    pub type_: u32,
    pub delete: bool,
    pub long_offset: u32,
    pub long_length: u32,
}

/// The display's answer to a property read.
#[derive(Debug)]
pub struct PropertyReply {
    pub type_: u32,
    pub format: u8,
    pub value: Vec<u8>,
}

/// A stored property value.
pub ghost struct StoredProperty {
    pub type_: u32,
    pub format: u8,
    pub data: Seq<u8>,
}

/// A ghost model of the display's tables: properties keyed by
/// (window, property) and selection owners keyed by selection atom.
pub ghost struct DisplayState {
    pub props: Map<(u32, u32), StoredProperty>,
    pub owners: Map<u32, u32>,
}

/// The table after a replacing property write.
/// `w` is (window, property, type, format, data), as a write's view.
pub open spec fn after_write(d: DisplayState, w: (u32, u32, u32, u8, Seq<u8>)) -> DisplayState {
    DisplayState {
        props: d.props.insert((w.0, w.1), StoredProperty { type_: w.2, format: w.3, data: w.4 }),
        ..d
    }
}

/// Whether a read of `r` finds a property of the requested type; a read of
/// `ANY_PROPERTY_TYPE` finds a property of any type.
pub open spec fn read_matches(d: DisplayState, r: PropertyRead) -> bool {
    d.props.contains_key((r.window, r.property)) && (r.type_ == ANY_PROPERTY_TYPE
        || d.props[(r.window, r.property)].type_ == r.type_)
}

/// The reply to a read that asks for the whole value from offset zero:
/// a missing property reads as type and format zero with no data; one of
/// another type reads as its type and format with no data.
pub open spec fn read_reply(d: DisplayState, r: PropertyRead) -> (u32, u8, Seq<u8>) {
    if !d.props.contains_key((r.window, r.property)) {
        (NONE, 0, Seq::empty())
    } else if !read_matches(d, r) {
        let p = d.props[(r.window, r.property)];
        (p.type_, p.format, Seq::empty())
    } else {
        let p = d.props[(r.window, r.property)];
        (p.type_, p.format, p.data)
    }
}

/// The table after a read: a deleting read of a matching property removes it.
pub open spec fn after_read(d: DisplayState, r: PropertyRead) -> DisplayState {
    if r.delete && read_matches(d, r) {
        DisplayState { props: d.props.remove((r.window, r.property)), ..d }
    } else {
        d
    }
}

/// The notification the display raises to the window's owner when a read
/// deletes the property.
pub open spec fn deletion_event(r: PropertyRead) -> Event {
    Event::PropertyNotify(
        Notification {
            window: r.window,
            atom: r.property,
            state: PropertyState::Delete,
            synthetic: false,
        },
    )
}

/// The table after `window` claims `selection`.
pub open spec fn after_claim(d: DisplayState, selection: u32, window: u32) -> DisplayState {
    DisplayState { owners: d.owners.insert(selection, window), ..d }
}

/// The owner of `selection`, or `NONE`.
pub open spec fn lookup(d: DisplayState, selection: u32) -> u32 {
    if d.owners.contains_key(selection) {
        d.owners[selection]
    } else {
        NONE
    }
}

/// Whether a claim of `selection` by `window` tells the previous owner that
/// it has lost the selection.
pub open spec fn claim_clears_previous(d: DisplayState, selection: u32, window: u32) -> bool {
    lookup(d, selection) != NONE && lookup(d, selection) != window
}

} // verus!
