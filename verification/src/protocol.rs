//! Plain protocol values: event classes, masks, requests, errors.

use vstd::prelude::*;

verus! {

/// X11 response code of a key-press event.
pub const KEY_PRESS_CODE: u8 = 2;

/// X11 response code of a key-release event.
pub const KEY_RELEASE_CODE: u8 = 3;

/// Bit of a forward-event mask that selects key-press events.
pub const MASK_KEY_PRESS: u32 = 1;

/// Bit of a forward-event mask that selects key-release events.
pub const MASK_KEY_RELEASE: u32 = 2;

/// One active input context: the window that owns it and the classes of
/// key events the server wants forwarded to it.
#[derive(Clone, Copy, PartialEq, Eq, Structural, Debug)]
pub struct XimContext {
    pub client_win: u32,
    pub forward_event_mask: u32,
}

/// Screen coordinate hint for where composition UI should anchor.
#[derive(Clone, Copy, PartialEq, Eq, Structural, Debug)]
pub struct Point {
    pub x: i16,
    pub y: i16,
}

/// Faults the manager can report.
#[derive(Clone, Copy, PartialEq, Eq, Structural, Debug)]
pub enum XimError {
    /// The server acknowledged a creation or destruction that does not
    /// match any request the manager sent: client and server state have
    /// desynchronized.
    ProtocolViolation,
    /// A server reply names an input context the manager does not know.
    InvalidReply,
}

/// A forward-event request the caller must send to the transport.
#[derive(Clone, Copy, PartialEq, Eq, Structural, Debug)]
pub struct ForwardRequest {
    pub method_handle: u16,
    pub context_handle: u16,
}

/// An attribute-update request moving the pre-edit spot of a context.
#[derive(Clone, Copy, PartialEq, Eq, Structural, Debug)]
pub struct SetSpotRequest {
    pub method_handle: u16,
    pub context_handle: u16,
    pub spot: Point,
}

/// A context-creation request the caller must send to the transport, with
/// the fixed input style "no pre-edit display, no status display" and the
/// given window as both client and focus window.
#[derive(Clone, Copy, PartialEq, Eq, Structural, Debug)]
pub struct CreateIcRequest {
    pub method_handle: u16,
    pub client_window: u32,
    pub focus_window: u32,
}

/// What became of a context request: deferred until the session opens, or
/// a creation request to send now.
#[derive(Clone, Copy, PartialEq, Eq, Structural, Debug)]
pub enum SpawnOutcome {
    Deferred,
    Submit(CreateIcRequest),
}

/// True when a forward-event mask selects the given event class.
pub open spec fn mask_selects(mask: u32, response_type: u8) -> bool {
    ||| (mask & MASK_KEY_PRESS != 0 && response_type == KEY_PRESS_CODE)
    ||| (mask & MASK_KEY_RELEASE != 0 && response_type == KEY_RELEASE_CODE)
}

/// The fixed locale identifier sent when opening the session: the ASCII
/// bytes of "en_US".
pub open spec fn open_locale_spec() -> Seq<u8> {
    seq![101u8, 110u8, 95u8, 85u8, 83u8]
}

/// Locale identifier for the session-open request, as bytes.
pub fn open_locale() -> (r: Vec<u8>)
    ensures
        r@ == open_locale_spec(),
{
    let mut r: Vec<u8> = Vec::new();
    r.push(101);
    r.push(110);
    r.push(95);
    r.push(85);
    r.push(83);
    proof {
        assert(r@ =~= open_locale_spec());
    }
    r
}

} // verus!
