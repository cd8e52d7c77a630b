//! The router, message by message.

use wnd::router::{
    has_creation_params, wndproc, Routed, RouterAction, EXIT_CODE, HANDLED, WM_CREATE,
    WM_DESTROY, WM_PAINT, WM_QUIT,
};

#[test]
fn message_codes() {
    assert_eq!(WM_CREATE, 1);
    assert_eq!(WM_DESTROY, 2);
    assert_eq!(WM_PAINT, 15);
    assert_eq!(WM_QUIT, 18);
    assert_eq!(EXIT_CODE, 0);
    assert_eq!(HANDLED, 0);
}

#[test]
fn only_the_creation_message_has_creation_params() {
    assert!(has_creation_params(WM_CREATE));
    for code in [0u32, WM_DESTROY, WM_PAINT, WM_QUIT, 0x0081, 0x0024, u32::MAX] {
        assert!(!has_creation_params(code));
    }
}

#[test]
fn creation_message_binds_the_empty_slot() {
    assert_eq!(
        wndproc(0, WM_CREATE, 0x7ff0_1234),
        Routed {
            slot: 0x7ff0_1234,
            write: true,
            user_data: Some(0x7ff0_1234),
            action: RouterAction::Forward
        }
    );
}

#[test]
fn bound_slot_is_written_once() {
    assert_eq!(
        wndproc(0x1000, WM_CREATE, 0x2000),
        Routed { slot: 0x1000, write: false, user_data: Some(0x1000), action: RouterAction::Forward }
    );
    let mut slot = wndproc(0, WM_CREATE, 42).slot;
    for (code, params) in
        [(WM_PAINT, 1usize), (WM_CREATE, 2), (0x0005, 3), (WM_CREATE, 0), (WM_DESTROY, 4), (WM_QUIT, 5)]
    {
        let routed = wndproc(slot, code, params);
        assert!(!routed.write);
        assert_eq!(routed.slot, 42);
        assert_eq!(routed.user_data, Some(42));
        slot = routed.slot;
    }
}

#[test]
fn early_messages_find_nothing_bound() {
    for code in [0x0024u32, 0x0081, 0x0083, WM_PAINT, WM_DESTROY, 0] {
        let routed = wndproc(0, code, 0xabcd);
        assert_eq!(routed.slot, 0);
        assert!(!routed.write);
        assert_eq!(routed.user_data, None);
    }
}

#[test]
fn null_creation_params_bind_nothing() {
    let routed = wndproc(0, WM_CREATE, 0);
    assert_eq!(routed.slot, 0);
    assert!(routed.write);
    assert_eq!(routed.user_data, None);
    // The slot is still empty: a later creation message binds it.
    let routed = wndproc(routed.slot, WM_CREATE, 9);
    assert_eq!(routed.user_data, Some(9));
}

#[test]
fn paint_invalidates_and_forwards() {
    for slot in [0usize, 1, usize::MAX] {
        assert_eq!(wndproc(slot, WM_PAINT, 0).action, RouterAction::Repaint { erase: true });
    }
}

#[test]
fn destroy_posts_quit_and_is_handled() {
    for slot in [0usize, 1, usize::MAX] {
        assert_eq!(
            wndproc(slot, WM_DESTROY, 77).action,
            RouterAction::Quit { exit_code: 0, result: 0 }
        );
    }
}

#[test]
fn every_other_message_is_forwarded() {
    for code in [0u32, WM_CREATE, WM_QUIT, 3, 5, 0x0010, 0x0014, 0x0100, 0x0200, 0x0400, u32::MAX] {
        assert_eq!(wndproc(5, code, 6).action, RouterAction::Forward);
    }
}
