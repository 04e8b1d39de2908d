//! Key-event forwarding decisions and pre-edit spot updates.

use xim_session::{
    ForwardRequest, Point, SetSpotRequest, XimError, XimHandler, KEY_PRESS_CODE, KEY_RELEASE_CODE,
    MASK_KEY_PRESS, MASK_KEY_RELEASE,
};

fn manager_with_context() -> XimHandler {
    let mut m = XimHandler::new();
    m.on_open(5);
    m.spawn_ic(42);
    m.on_create_ic(7).unwrap();
    m
}

#[test]
fn fresh_context_forwards_nothing() {
    let m = manager_with_context();
    assert_eq!(m.try_forward_event(42, KEY_PRESS_CODE), None);
    assert_eq!(m.try_forward_event(42, KEY_RELEASE_CODE), None);
}

#[test]
fn unknown_window_is_not_consumed() {
    let m = manager_with_context();
    assert_eq!(m.try_forward_event(1000, KEY_PRESS_CODE), None);
}

#[test]
fn press_mask_forwards_only_presses() {
    let mut m = manager_with_context();
    assert_eq!(m.on_set_event_mask(7, MASK_KEY_PRESS, 0), Ok(()));
    assert_eq!(m.context_mask(7), Some(MASK_KEY_PRESS));
    assert_eq!(
        m.try_forward_event(42, KEY_PRESS_CODE),
        Some(ForwardRequest { method_handle: 5, context_handle: 7 })
    );
    assert_eq!(m.try_forward_event(42, KEY_RELEASE_CODE), None);
}

#[test]
fn release_mask_forwards_only_releases() {
    let mut m = manager_with_context();
    m.on_set_event_mask(7, MASK_KEY_RELEASE, 0).unwrap();
    assert_eq!(m.try_forward_event(42, KEY_PRESS_CODE), None);
    assert_eq!(
        m.try_forward_event(42, KEY_RELEASE_CODE),
        Some(ForwardRequest { method_handle: 5, context_handle: 7 })
    );
}

#[test]
fn full_mask_forwards_both_classes() {
    let mut m = manager_with_context();
    m.on_set_event_mask(7, MASK_KEY_PRESS | MASK_KEY_RELEASE, 0).unwrap();
    assert!(m.try_forward_event(42, KEY_PRESS_CODE).is_some());
    assert!(m.try_forward_event(42, KEY_RELEASE_CODE).is_some());
}

#[test]
fn other_event_classes_are_not_consumed() {
    let mut m = manager_with_context();
    m.on_set_event_mask(7, MASK_KEY_PRESS | MASK_KEY_RELEASE, 0).unwrap();
    // A response type that is neither a key press nor a key release.
    assert_eq!(m.try_forward_event(42, 4), None);
}

#[test]
fn set_event_mask_on_unknown_context_is_invalid_reply() {
    let mut m = manager_with_context();
    assert_eq!(m.on_set_event_mask(9, MASK_KEY_PRESS, 0), Err(XimError::InvalidReply));
    assert_eq!(m.context_mask(9), None);
}

#[test]
fn forwarding_stops_after_destroy() {
    let mut m = manager_with_context();
    m.on_set_event_mask(7, MASK_KEY_PRESS, 0).unwrap();
    assert!(m.try_forward_event(42, KEY_PRESS_CODE).is_some());
    m.on_destroy_ic(7).unwrap();
    assert_eq!(m.try_forward_event(42, KEY_PRESS_CODE), None);
}

#[test]
fn spot_update_for_known_window_names_its_context() {
    let m = manager_with_context();
    let spot = Point { x: 12, y: -3 };
    assert_eq!(
        m.set_preedit_spot(42, spot),
        Some(SetSpotRequest { method_handle: 5, context_handle: 7, spot })
    );
}

#[test]
fn spot_update_for_unknown_window_is_noop() {
    let m = manager_with_context();
    assert_eq!(m.set_preedit_spot(1000, Point { x: 1, y: 2 }), None);
}
