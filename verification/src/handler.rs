//! The executable session manager.
//!
//! Each method performs one protocol event: it updates the manager's
//! state exactly as the corresponding transition of [`crate::state`] says
//! and returns the request, if any, that the caller must send to the
//! transport.  The manager never talks to the transport itself.

use vstd::prelude::*;

use std::collections::{HashMap, VecDeque};

use crate::protocol::{
    CreateIcRequest, ForwardRequest, Point, SetSpotRequest, SpawnOutcome, XimContext, XimError,
    KEY_PRESS_CODE, KEY_RELEASE_CODE, MASK_KEY_PRESS, MASK_KEY_RELEASE,
};
use crate::state::{
    close_next, commit_target, create_ic_next, create_ic_ok, destroy_ic_next, destroy_ic_ok,
    forward_decision, init_state, open_action, open_next, set_event_mask_next, set_event_mask_ok,
    spawn_action, spawn_next, spot_decision, State,
};

verus! {

broadcast use vstd::std_specs::hash::group_hash_axioms;

/// Client-side manager of one input-method session and its input
/// contexts.
pub struct XimHandler {
    im: u16,
    contexts: HashMap<u16, XimContext>,
    ids: HashMap<u32, u16>,
    ic_pend: VecDeque<u32>,
    create_ic_pend: Option<u32>,
}

impl View for XimHandler {
    type V = State;

    closed spec fn view(&self) -> State {
        State {
            im: self.im,
            contexts: self.contexts@,
            ids: self.ids@,
            pending: self.ic_pend@,
            deferred: self.create_ic_pend,
        }
    }
}

impl XimHandler {
    /// A manager for a session that is not yet open.
    pub fn new() -> (r: Self)
        ensures
            r@ == init_state(),
            r@.wf(),
    {
        let r = Self {
            im: 0,
            contexts: HashMap::new(),
            ids: HashMap::new(),
            ic_pend: VecDeque::new(),
            create_ic_pend: None,
        };
        proof {
            assert(r@ =~= init_state());
        }
        r
    }

    /// Requests a context for `window`.  While the session is unopened
    /// the request is deferred — at most one may be, and the caller must
    /// not request a second context before the session opens; once open,
    /// the window joins the pending queue and the returned creation
    /// request must be sent.
    pub fn spawn_ic(&mut self, window: u32) -> (r: SpawnOutcome)
        requires
            old(self)@.wf(),
            old(self)@.im == 0 ==> old(self)@.deferred is None,
        ensures
            final(self)@ == spawn_next(old(self)@, window),
            r == spawn_action(old(self)@, window),
            final(self)@.wf(),
    {
        if self.im == 0 {
            self.create_ic_pend = Some(window);
            SpawnOutcome::Deferred
        } else {
            self.ic_pend.push_back(window);
            SpawnOutcome::Submit(
                CreateIcRequest {
                    method_handle: self.im,
                    client_window: window,
                    focus_window: window,
                },
            )
        }
    }

    /// The server confirmed the session open.  Records the handle and
    /// replays the deferred context request, if one is present; the
    /// returned creation request, if any, must be sent.
    pub fn on_open(&mut self, method_handle: u16) -> (r: Option<CreateIcRequest>)
        requires
            old(self)@.wf(),
        ensures
            final(self)@ == open_next(old(self)@, method_handle),
            r == open_action(old(self)@, method_handle),
            final(self)@.wf(),
    {
        self.im = method_handle;
        let deferred = self.create_ic_pend;
        self.create_ic_pend = None;
        match deferred {
            Some(window) => match self.spawn_ic(window) {
                SpawnOutcome::Submit(req) => Some(req),
                SpawnOutcome::Deferred => None,
            },
            None => None,
        }
    }

    /// The server closed the session.  Resets the method handle; the
    /// caller must then request disconnection from the transport.
    /// Existing contexts are kept — the server is expected to have
    /// destroyed them already, or the connection is terminating.
    pub fn on_close(&mut self, _method_handle: u16)
        requires
            old(self)@.wf(),
        ensures
            final(self)@ == close_next(old(self)@),
            final(self)@.wf(),
    {
        self.im = 0;
    }

    /// The transport disconnected.  Nothing to do: all state is torn
    /// down with the manager by the owning layer.
    pub fn on_disconnect(&self) {
    }

    /// The server acknowledged a context creation with `context_handle`.
    /// The head of the pending queue becomes the owning window of the new
    /// context, which starts with an empty forward-event mask.  An
    /// acknowledgment with nothing pending, or for a handle that is
    /// already live, is a protocol violation and changes nothing.
    pub fn on_create_ic(&mut self, context_handle: u16) -> (r: Result<(), XimError>)
        requires
            old(self)@.wf(),
        ensures
            create_ic_ok(old(self)@, context_handle) ==> r is Ok && final(self)@ == create_ic_next(
                old(self)@,
                context_handle,
            ),
            !create_ic_ok(old(self)@, context_handle) ==> r == Err::<(), XimError>(
                XimError::ProtocolViolation,
            ) && final(self)@ == old(self)@,
            final(self)@.wf(),
    {
        if self.contexts.contains_key(&context_handle) {
            return Err(XimError::ProtocolViolation);
        }
        match self.ic_pend.pop_front() {
            Some(window) => {
                self.contexts.insert(
                    context_handle,
                    XimContext { client_win: window, forward_event_mask: 0 },
                );
                self.ids.insert(window, context_handle);
                Ok(())
            },
            None => Err(XimError::ProtocolViolation),
        }
    }

    /// The server notified destruction of `context_handle`.  Removes the
    /// context and, if it still points at this context, the index entry of
    /// its window; the window itself lives on and may request a new
    /// context later.  A notice for an unknown handle is a protocol
    /// violation and changes nothing.
    pub fn on_destroy_ic(&mut self, context_handle: u16) -> (r: Result<(), XimError>)
        requires
            old(self)@.wf(),
        ensures
            destroy_ic_ok(old(self)@, context_handle) ==> r is Ok && final(self)@
                == destroy_ic_next(old(self)@, context_handle),
            !destroy_ic_ok(old(self)@, context_handle) ==> r == Err::<(), XimError>(
                XimError::ProtocolViolation,
            ) && final(self)@ == old(self)@,
            final(self)@.wf(),
    {
        match self.contexts.remove(&context_handle) {
            Some(ctx) => {
                let window = ctx.client_win;
                let still_indexed = match self.ids.get(&window) {
                    Some(h) => *h == context_handle,
                    None => false,
                };
                if still_indexed {
                    self.ids.remove(&window);
                }
                Ok(())
            },
            None => {
                proof {
                    assert(self.contexts@ =~= old(self).contexts@);
                }
                Err(XimError::ProtocolViolation)
            },
        }
    }

    /// The server negotiated which key-event classes it wants forwarded
    /// for `context_handle`.  Stores the forward mask; the synchronous
    /// mask is accepted but not modeled, since the manager always
    /// forwards asynchronously.  An unknown handle is an invalid reply,
    /// non-fatal to the session, and changes nothing.
    pub fn on_set_event_mask(
        &mut self,
        context_handle: u16,
        forward_event_mask: u32,
        _synchronous_event_mask: u32,
    ) -> (r: Result<(), XimError>)
        requires
            old(self)@.wf(),
        ensures
            set_event_mask_ok(old(self)@, context_handle) ==> r is Ok && final(self)@
                == set_event_mask_next(old(self)@, context_handle, forward_event_mask),
            !set_event_mask_ok(old(self)@, context_handle) ==> r == Err::<(), XimError>(
                XimError::InvalidReply,
            ) && final(self)@ == old(self)@,
            final(self)@.wf(),
    {
        let current = match self.contexts.get(&context_handle) {
            Some(ctx) => *ctx,
            None => {
                return Err(XimError::InvalidReply);
            },
        };
        self.contexts.insert(
            context_handle,
            XimContext { client_win: current.client_win, forward_event_mask },
        );
        Ok(())
    }

    /// Decides whether a key event of class `response_type` in `window`
    /// is consumed by the input method.  Returns the forward-event
    /// request to send exactly when the window has a context whose
    /// forward mask selects the class; `None` means the caller should
    /// process the key normally.
    pub fn try_forward_event(&self, window: u32, response_type: u8) -> (r: Option<ForwardRequest>)
        requires
            self@.wf(),
        ensures
            r == forward_decision(self@, window, response_type),
    {
        let context_handle = match self.ids.get(&window) {
            Some(h) => *h,
            None => {
                return None;
            },
        };
        match self.contexts.get(&context_handle) {
            Some(ctx) => {
                if (ctx.forward_event_mask & MASK_KEY_PRESS != 0 && response_type == KEY_PRESS_CODE)
                    || (ctx.forward_event_mask & MASK_KEY_RELEASE != 0 && response_type
                    == KEY_RELEASE_CODE) {
                    Some(ForwardRequest { method_handle: self.im, context_handle })
                } else {
                    None
                }
            },
            None => None,
        }
    }

    /// Moves the pre-edit spot of the context owning `window` to `spot`.
    /// Returns the attribute-update request to send, or `None` — not an
    /// error — when the window has no context.
    pub fn set_preedit_spot(&self, window: u32, spot: Point) -> (r: Option<SetSpotRequest>)
        requires
            self@.wf(),
        ensures
            r == spot_decision(self@, window, spot),
    {
        match self.ids.get(&window) {
            Some(h) => Some(
                SetSpotRequest { method_handle: self.im, context_handle: *h, spot },
            ),
            None => None,
        }
    }

    /// The server committed finalized text on `context_handle`.  Returns
    /// the window to whose text-input pipeline the text must be
    /// delivered; an unknown handle is a protocol violation, and the
    /// commit should be dropped with a diagnostic.
    pub fn on_commit(&self, context_handle: u16) -> (r: Result<u32, XimError>)
        requires
            self@.wf(),
        ensures
            commit_target(self@, context_handle) matches Some(window) ==> r == Ok::<u32, XimError>(
                window,
            ),
            commit_target(self@, context_handle) is None ==> r == Err::<u32, XimError>(
                XimError::ProtocolViolation,
            ),
    {
        match self.contexts.get(&context_handle) {
            Some(ctx) => Ok(ctx.client_win),
            None => Err(XimError::ProtocolViolation),
        }
    }

    /// The server-assigned method handle of the session; 0 while the
    /// session is not open.
    pub fn method_handle(&self) -> (r: u16)
        ensures
            r == self@.im,
    {
        self.im
    }

    /// The window whose context request is deferred until the session
    /// opens, if any.
    pub fn deferred_window(&self) -> (r: Option<u32>)
        ensures
            r == self@.deferred,
    {
        self.create_ic_pend
    }

    /// How many creation requests were sent but not yet acknowledged.
    pub fn pending_len(&self) -> (r: usize)
        ensures
            r == self@.pending.len(),
    {
        self.ic_pend.len()
    }

    /// The context handle owned by `window`, if the window has one.
    pub fn window_context(&self, window: u32) -> (r: Option<u16>)
        ensures
            r == if self@.ids.contains_key(window) {
                Some(self@.ids[window])
            } else {
                None::<u16>
            },
    {
        match self.ids.get(&window) {
            Some(h) => Some(*h),
            None => None,
        }
    }

    /// The window owning `context_handle`, if that context is live.
    pub fn context_window(&self, context_handle: u16) -> (r: Option<u32>)
        ensures
            r == commit_target(self@, context_handle),
    {
        match self.contexts.get(&context_handle) {
            Some(ctx) => Some(ctx.client_win),
            None => None,
        }
    }

    /// The forward-event mask of `context_handle`, if that context is
    /// live.
    pub fn context_mask(&self, context_handle: u16) -> (r: Option<u32>)
        ensures
            r == if self@.contexts.contains_key(context_handle) {
                Some(self@.contexts[context_handle].forward_event_mask)
            } else {
                None::<u32>
            },
    {
        match self.contexts.get(&context_handle) {
            Some(ctx) => Some(ctx.forward_event_mask),
            None => None,
        }
    }
}

} // verus!
