//! Mathematical model of the session manager: an abstract state and one
//! transition function per protocol event.
//!
//! The contracts of the executable manager are stated over this model, so
//! that laws about sequences of events can be proved once, over the
//! transitions, and carried to the executable code through its `ensures`.

use vstd::prelude::*;

use crate::protocol::{
    mask_selects, CreateIcRequest, ForwardRequest, Point, SetSpotRequest, SpawnOutcome, XimContext,
};

verus! {

/// Abstract state of the session manager.
pub ghost struct State {
    /// Server-assigned input-method handle; 0 means "not open".
    pub im: u16,
    /// Active input contexts, keyed by server-assigned context handle.
    pub contexts: Map<u16, XimContext>,
    /// Reverse index: owning window to context handle.
    pub ids: Map<u32, u16>,
    /// Windows whose creation request was sent but not yet acknowledged,
    /// in send order.
    pub pending: Seq<u32>,
    /// At most one window whose context request arrived before the
    /// session finished opening.
    pub deferred: Option<u32>,
}

impl State {
    /// Every entry of the reverse index points at a live context owned by
    /// that very window.
    pub open spec fn wf(self) -> bool {
        forall|w: u32|
            #[trigger] self.ids.contains_key(w) ==> self.contexts.contains_key(self.ids[w])
                && self.contexts[self.ids[w]].client_win == w
    }
}

/// The state of a freshly constructed manager: session unopened, no
/// contexts, nothing pending.
pub open spec fn init_state() -> State {
    State {
        im: 0,
        contexts: Map::empty(),
        ids: Map::empty(),
        pending: Seq::empty(),
        deferred: None,
    }
}

/// State after a context request for `window`: deferred while the session
/// is unopened, otherwise queued as sent.
pub open spec fn spawn_next(s: State, window: u32) -> State {
    if s.im == 0 {
        State { deferred: Some(window), ..s }
    } else {
        State { pending: s.pending.push(window), ..s }
    }
}

/// The request a context request for `window` asks the transport to send.
pub open spec fn spawn_action(s: State, window: u32) -> SpawnOutcome {
    if s.im == 0 {
        SpawnOutcome::Deferred
    } else {
        SpawnOutcome::Submit(
            CreateIcRequest {
                method_handle: s.im,
                client_window: window,
                focus_window: window,
            },
        )
    }
}

/// State after the server confirms the session open with
/// `method_handle`: the handle is recorded and a deferred context
/// request, if any, is replayed.
pub open spec fn open_next(s: State, method_handle: u16) -> State {
    let opened = State { im: method_handle, ..s };
    match s.deferred {
        Some(window) => spawn_next(State { deferred: None, ..opened }, window),
        None => opened,
    }
}

/// The creation request that replaying a deferred context request sends,
/// if one was deferred and the handle actually opens the session.
pub open spec fn open_action(s: State, method_handle: u16) -> Option<CreateIcRequest> {
    match s.deferred {
        Some(window) => if method_handle != 0 {
            Some(
                CreateIcRequest {
                    method_handle,
                    client_window: window,
                    focus_window: window,
                },
            )
        } else {
            None
        },
        None => None,
    }
}

/// State after the server closes the session: only the method handle is
/// reset; contexts are left to the server's own destruction notices.
pub open spec fn close_next(s: State) -> State {
    State { im: 0, ..s }
}

/// A creation acknowledgment for `context_handle` is well matched when a
/// request is pending and the handle is not already live.
pub open spec fn create_ic_ok(s: State, context_handle: u16) -> bool {
    s.pending.len() > 0 && !s.contexts.contains_key(context_handle)
}

/// State after a well-matched creation acknowledgment: the head of the
/// pending queue becomes the owning window of the new context, which
/// starts with an empty forward-event mask.
pub open spec fn create_ic_next(s: State, context_handle: u16) -> State {
    let window = s.pending[0];
    State {
        contexts: s.contexts.insert(
            context_handle,
            XimContext { client_win: window, forward_event_mask: 0 },
        ),
        ids: s.ids.insert(window, context_handle),
        pending: s.pending.subrange(1, s.pending.len() as int),
        ..s
    }
}

/// A destruction notice is well matched when the context is live.
pub open spec fn destroy_ic_ok(s: State, context_handle: u16) -> bool {
    s.contexts.contains_key(context_handle)
}

/// State after a well-matched destruction notice: the context goes away,
/// and with it the index entry of its window, if that entry still points
/// at this context.
pub open spec fn destroy_ic_next(s: State, context_handle: u16) -> State {
    let window = s.contexts[context_handle].client_win;
    State {
        contexts: s.contexts.remove(context_handle),
        ids: if s.ids.contains_key(window) && s.ids[window] == context_handle {
            s.ids.remove(window)
        } else {
            s.ids
        },
        ..s
    }
}

/// An event-mask notice is acceptable when the context is live.
pub open spec fn set_event_mask_ok(s: State, context_handle: u16) -> bool {
    s.contexts.contains_key(context_handle)
}

/// State after the server sets the forward-event mask of a live context.
pub open spec fn set_event_mask_next(s: State, context_handle: u16, forward_event_mask: u32) -> State {
    State {
        contexts: s.contexts.insert(
            context_handle,
            XimContext { client_win: s.contexts[context_handle].client_win, forward_event_mask },
        ),
        ..s
    }
}

/// The forward-event request, if any, that a key event of class
/// `response_type` in `window` asks the transport to send: one is sent
/// exactly when the window has a context whose mask selects the class.
pub open spec fn forward_decision(s: State, window: u32, response_type: u8) -> Option<
    ForwardRequest,
> {
    if s.ids.contains_key(window) {
        let context_handle = s.ids[window];
        if s.contexts.contains_key(context_handle) && mask_selects(
            s.contexts[context_handle].forward_event_mask,
            response_type,
        ) {
            Some(ForwardRequest { method_handle: s.im, context_handle })
        } else {
            None
        }
    } else {
        None
    }
}

/// The attribute-update request, if any, that a pre-edit spot move in
/// `window` asks the transport to send: none when the window has no
/// context.
pub open spec fn spot_decision(s: State, window: u32, spot: Point) -> Option<SetSpotRequest> {
    if s.ids.contains_key(window) {
        Some(SetSpotRequest { method_handle: s.im, context_handle: s.ids[window], spot })
    } else {
        None
    }
}

/// The window to which text committed on `context_handle` must be
/// delivered, when that context is live.
pub open spec fn commit_target(s: State, context_handle: u16) -> Option<u32> {
    if s.contexts.contains_key(context_handle) {
        Some(s.contexts[context_handle].client_win)
    } else {
        None
    }
}

} // verus!
