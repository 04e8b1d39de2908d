//! Session and context lifecycle: deferral, open, creation, destruction,
//! close.

use xim_session::{CreateIcRequest, SpawnOutcome, XimError, XimHandler};

#[test]
fn new_manager_is_unopened_and_empty() {
    let m = XimHandler::new();
    assert_eq!(m.method_handle(), 0);
    assert_eq!(m.deferred_window(), None);
    assert_eq!(m.pending_len(), 0);
    assert_eq!(m.window_context(42), None);
    assert_eq!(m.context_window(7), None);
}

#[test]
fn open_locale_is_en_us() {
    assert_eq!(xim_session::protocol::open_locale(), b"en_US".to_vec());
}

#[test]
fn request_while_unopened_defers() {
    let mut m = XimHandler::new();
    let r = m.spawn_ic(42);
    assert_eq!(r, SpawnOutcome::Deferred);
    assert_eq!(m.deferred_window(), Some(42));
    assert_eq!(m.pending_len(), 0);
}

#[test]
fn deferred_request_replays_on_open() {
    // request_context(42) while unopened -> deferred; on_open(5) -> issues
    // the creation request for window 42, pending queue = [42];
    // on_create_ic(7) -> context 7 created, mapped to window 42, queue empty.
    let mut m = XimHandler::new();
    assert_eq!(m.spawn_ic(42), SpawnOutcome::Deferred);
    let req = m.on_open(5);
    assert_eq!(
        req,
        Some(CreateIcRequest { method_handle: 5, client_window: 42, focus_window: 42 })
    );
    assert_eq!(m.method_handle(), 5);
    assert_eq!(m.deferred_window(), None);
    assert_eq!(m.pending_len(), 1);
    assert_eq!(m.on_create_ic(7), Ok(()));
    assert_eq!(m.window_context(42), Some(7));
    assert_eq!(m.context_window(7), Some(42));
    assert_eq!(m.context_mask(7), Some(0));
    assert_eq!(m.pending_len(), 0);
}

#[test]
fn open_with_zero_handle_keeps_request_deferred() {
    // A handle of 0 means "not open", so the deferred request cannot be
    // replayed yet.
    let mut m = XimHandler::new();
    m.spawn_ic(42);
    assert_eq!(m.on_open(0), None);
    assert_eq!(m.method_handle(), 0);
    assert_eq!(m.deferred_window(), Some(42));
    assert_eq!(m.pending_len(), 0);
}

#[test]
fn open_without_deferred_sends_nothing() {
    let mut m = XimHandler::new();
    assert_eq!(m.on_open(5), None);
    assert_eq!(m.method_handle(), 5);
    assert_eq!(m.pending_len(), 0);
}

#[test]
fn request_while_open_submits_creation() {
    let mut m = XimHandler::new();
    m.on_open(3);
    let r = m.spawn_ic(1000);
    assert_eq!(
        r,
        SpawnOutcome::Submit(CreateIcRequest {
            method_handle: 3,
            client_window: 1000,
            focus_window: 1000,
        })
    );
    assert_eq!(m.pending_len(), 1);
    assert_eq!(m.deferred_window(), None);
}

#[test]
fn acks_match_send_order() {
    let mut m = XimHandler::new();
    m.on_open(1);
    m.spawn_ic(10);
    m.spawn_ic(20);
    assert_eq!(m.pending_len(), 2);
    assert_eq!(m.on_create_ic(100), Ok(()));
    assert_eq!(m.context_window(100), Some(10));
    assert_eq!(m.on_create_ic(200), Ok(()));
    assert_eq!(m.context_window(200), Some(20));
    assert_eq!(m.pending_len(), 0);
}

#[test]
fn unmatched_ack_is_protocol_violation() {
    let mut m = XimHandler::new();
    m.on_open(1);
    assert_eq!(m.on_create_ic(7), Err(XimError::ProtocolViolation));
    assert_eq!(m.context_window(7), None);
}

#[test]
fn ack_for_live_handle_is_protocol_violation() {
    let mut m = XimHandler::new();
    m.on_open(1);
    m.spawn_ic(10);
    m.spawn_ic(20);
    assert_eq!(m.on_create_ic(7), Ok(()));
    assert_eq!(m.on_create_ic(7), Err(XimError::ProtocolViolation));
    // The unmatched window stays pending; the live context is untouched.
    assert_eq!(m.pending_len(), 1);
    assert_eq!(m.context_window(7), Some(10));
}

#[test]
fn destroy_removes_context_and_index() {
    let mut m = XimHandler::new();
    m.on_open(1);
    m.spawn_ic(42);
    m.on_create_ic(7);
    assert_eq!(m.on_destroy_ic(7), Ok(()));
    assert_eq!(m.context_window(7), None);
    assert_eq!(m.window_context(42), None);
}

#[test]
fn destroy_unknown_handle_is_protocol_violation() {
    let mut m = XimHandler::new();
    m.on_open(1);
    assert_eq!(m.on_destroy_ic(7), Err(XimError::ProtocolViolation));
}

#[test]
fn window_may_request_again_after_destroy() {
    let mut m = XimHandler::new();
    m.on_open(1);
    m.spawn_ic(42);
    m.on_create_ic(7);
    m.on_destroy_ic(7);
    m.spawn_ic(42);
    assert_eq!(m.on_create_ic(8), Ok(()));
    assert_eq!(m.window_context(42), Some(8));
    assert_eq!(m.context_window(8), Some(42));
}

#[test]
fn destroying_stale_context_keeps_new_binding() {
    let mut m = XimHandler::new();
    m.on_open(1);
    m.spawn_ic(42);
    m.on_create_ic(7).unwrap();
    // The window requests a fresh context while the old one is still live:
    // the index moves to the new context.
    m.spawn_ic(42);
    m.on_create_ic(8).unwrap();
    assert_eq!(m.window_context(42), Some(8));
    // Destroying the superseded context must not clobber the new binding.
    assert_eq!(m.on_destroy_ic(7), Ok(()));
    assert_eq!(m.window_context(42), Some(8));
    assert_eq!(m.context_window(8), Some(42));
}

#[test]
fn close_resets_handle_and_keeps_contexts() {
    // Session closed with method_handle=5 while context h=7 exists for
    // window w=42; a later request_context(99) must defer, not send.
    let mut m = XimHandler::new();
    m.on_open(5);
    m.spawn_ic(42);
    m.on_create_ic(7);
    m.on_close(5);
    assert_eq!(m.method_handle(), 0);
    assert_eq!(m.context_window(7), Some(42));
    let r = m.spawn_ic(99);
    assert_eq!(r, SpawnOutcome::Deferred);
    assert_eq!(m.deferred_window(), Some(99));
    assert_eq!(m.pending_len(), 0);
}

#[test]
fn commit_resolves_owning_window() {
    let mut m = XimHandler::new();
    m.on_open(1);
    m.spawn_ic(42);
    m.on_create_ic(7);
    assert_eq!(m.on_commit(7), Ok(42));
    assert_eq!(m.on_commit(9), Err(XimError::ProtocolViolation));
}
