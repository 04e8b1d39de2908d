//! Laws of the session manager, stated and proved over the abstract
//! transitions of [`crate::state`].  The executable methods ensure that
//! they follow those transitions exactly, so each law carries over to any
//! sequence of calls on [`crate::handler::XimHandler`].

use vstd::prelude::*;

use crate::protocol::{mask_selects, ForwardRequest, Point};
use crate::state::{
    close_next, create_ic_next, create_ic_ok, destroy_ic_next, destroy_ic_ok, forward_decision,
    init_state, open_next, set_event_mask_next, set_event_mask_ok, spawn_next, spot_decision,
    State,
};

verus! {

/// A fresh manager is well formed.
pub proof fn lemma_init_wf()
    ensures
        init_state().wf(),
{
}

/// Requesting a context preserves well-formedness: it touches neither
/// the context table nor the index.
pub proof fn lemma_spawn_preserves_wf(s: State, window: u32)
    requires
        s.wf(),
    ensures
        spawn_next(s, window).wf(),
{
}

/// Opening the session preserves well-formedness.
pub proof fn lemma_open_preserves_wf(s: State, method_handle: u16)
    requires
        s.wf(),
    ensures
        open_next(s, method_handle).wf(),
{
}

/// Closing the session preserves well-formedness.
pub proof fn lemma_close_preserves_wf(s: State)
    requires
        s.wf(),
    ensures
        close_next(s).wf(),
{
}

/// A well-matched creation acknowledgment preserves well-formedness: the
/// new index entry points at the new context, and no older entry can
/// point at its handle, since that handle was not live.
pub proof fn lemma_create_ic_preserves_wf(s: State, context_handle: u16)
    requires
        s.wf(),
        create_ic_ok(s, context_handle),
    ensures
        create_ic_next(s, context_handle).wf(),
{
}

/// A well-matched destruction notice preserves well-formedness: the only
/// index entry that can point at the destroyed context is its own
/// window's, and that one is removed with it.
pub proof fn lemma_destroy_ic_preserves_wf(s: State, context_handle: u16)
    requires
        s.wf(),
        destroy_ic_ok(s, context_handle),
    ensures
        destroy_ic_next(s, context_handle).wf(),
{
}

/// Storing a forward-event mask preserves well-formedness: the owning
/// window of the context does not change.
pub proof fn lemma_set_event_mask_preserves_wf(s: State, context_handle: u16, mask: u32)
    requires
        s.wf(),
        set_event_mask_ok(s, context_handle),
    ensures
        set_event_mask_next(s, context_handle, mask).wf(),
{
}

/// The pending-creation queue holds exactly one entry per unacknowledged
/// creation request in flight: a context request in an open session
/// appends exactly its window, a deferred request replayed on open does
/// the same, a well-matched acknowledgment consumes exactly the head,
/// and closing the session leaves the queue alone.
pub proof fn lemma_queue_discipline(s: State, window: u32, method_handle: u16, context_handle: u16)
    ensures
        spawn_next(s, window).pending == if s.im != 0 {
            s.pending.push(window)
        } else {
            s.pending
        },
        open_next(s, method_handle).pending == match s.deferred {
            Some(deferred) => if method_handle != 0 {
                s.pending.push(deferred)
            } else {
                s.pending
            },
            None => s.pending,
        },
        create_ic_ok(s, context_handle) ==> create_ic_next(s, context_handle).pending
            == s.pending.drop_first(),
        close_next(s).pending == s.pending,
{
}

/// Creation acknowledgments are matched to requests strictly in send
/// order: after requesting contexts for `w1` and then `w2` in an open
/// session with an empty queue, the first acknowledgment binds its
/// context to `w1`, the second binds its context to `w2`, and the queue
/// is empty again.
pub proof fn lemma_acks_match_send_order(s: State, w1: u32, w2: u32, h1: u16, h2: u16)
    requires
        s.wf(),
        s.im != 0,
        s.pending == Seq::<u32>::empty(),
        !s.contexts.contains_key(h1),
        !s.contexts.contains_key(h2),
        h1 != h2,
    ensures
        ({
            let sent = spawn_next(spawn_next(s, w1), w2);
            let first = create_ic_next(sent, h1);
            let second = create_ic_next(first, h2);
            &&& create_ic_ok(sent, h1)
            &&& first.contexts[h1].client_win == w1
            &&& create_ic_ok(first, h2)
            &&& second.contexts[h2].client_win == w2
            &&& second.pending == Seq::<u32>::empty()
        }),
{
    let sent = spawn_next(spawn_next(s, w1), w2);
    assert(sent.pending =~= seq![w1, w2]);
    let first = create_ic_next(sent, h1);
    assert(first.pending =~= seq![w2]);
    let second = create_ic_next(first, h2);
    assert(second.pending =~= Seq::<u32>::empty());
}

/// A newly created context resolves events of its window: right after
/// the acknowledgment its mask is empty, so nothing is forwarded yet,
/// and once the server sets a mask, an event is forwarded to exactly
/// that context iff the mask selects the event's class.
pub proof fn lemma_created_context_resolves(s: State, context_handle: u16, mask: u32, response_type: u8)
    requires
        s.wf(),
        create_ic_ok(s, context_handle),
    ensures
        ({
            let window = s.pending[0];
            let created = create_ic_next(s, context_handle);
            let masked = set_event_mask_next(created, context_handle, mask);
            &&& created.ids.contains_key(window) && created.ids[window] == context_handle
            &&& forward_decision(created, window, response_type) is None
            &&& forward_decision(masked, window, response_type) == if mask_selects(
                mask,
                response_type,
            ) {
                Some(ForwardRequest { method_handle: masked.im, context_handle })
            } else {
                None::<ForwardRequest>
            }
        }),
{
    assert(0u32 & 1u32 == 0u32) by (bit_vector);
    assert(0u32 & 2u32 == 0u32) by (bit_vector);
}

/// After a destruction notice for the context of window `window`, key
/// events in that window are no longer consumed.
pub proof fn lemma_destroy_then_forward(s: State, context_handle: u16, window: u32, response_type: u8)
    requires
        s.wf(),
        s.ids.contains_key(window),
        s.ids[window] == context_handle,
    ensures
        forward_decision(destroy_ic_next(s, context_handle), window, response_type) is None,
{
}

/// A key event is consumed exactly when its window has a context whose
/// forward mask selects the event's class, and it is then forwarded to
/// that very context.
pub proof fn lemma_forward_iff_mask(s: State, window: u32, response_type: u8)
    requires
        s.wf(),
    ensures
        forward_decision(s, window, response_type) is Some <==> (s.ids.contains_key(window)
            && mask_selects(s.contexts[s.ids[window]].forward_event_mask, response_type)),
        forward_decision(s, window, response_type) matches Some(req) ==> req.context_handle
            == s.ids[window] && req.method_handle == s.im,
{
}

/// Moving the pre-edit spot of a window that has no context asks the
/// transport for nothing.
pub proof fn lemma_spot_unknown_noop(s: State, window: u32, spot: Point)
    requires
        !s.ids.contains_key(window),
    ensures
        spot_decision(s, window, spot) is None,
{
}

} // verus!
