//! The raw handle of a window, and the requests that a window gives out.

use raw_window_handle::RawWindowHandle;
use std::num::NonZeroIsize;
use wnd::creation::CreationStep;
use wnd::error::HandleError;
use wnd::event::Context;
use wnd::native::NativeWindow;
use wnd::platform::{PlatformReply, PlatformRequest};
use wnd::runner::EventRunner;
use wnd::window::{Window, WindowInitialInfo};

fn info() -> WindowInitialInfo {
    WindowInitialInfo { pos_x: 0, pos_y: 0, width: 640, height: 480, title: "demo".to_string() }
}

fn native_window(handle: isize) -> NativeWindow {
    let mut runner = EventRunner::new();
    let mut creation = NativeWindow::new(&mut runner, info());
    let replies = [
        PlatformReply::Class { atom: 0xC001, error: 0 },
        PlatformReply::Window { handle },
        PlatformReply::Dpi { dpi: 96 },
        PlatformReply::Done { ok: true },
        PlatformReply::Done { ok: true },
        PlatformReply::Done { ok: true },
    ];
    for reply in replies {
        match NativeWindow::create_window(&mut runner, creation, reply) {
            CreationStep::Pending(next) => creation = next,
            CreationStep::Finished(result) => return result.expect("unable to create window"),
        }
    }
    panic!("the creation did not end");
}

fn window(handle: isize) -> Window {
    Window::new(Ok(native_window(handle))).expect("unable to create window")
}

#[test]
fn raw_handle_is_that_of_the_window_and_its_instance() {
    let raw = native_window(0x5_0a2c).rwh(0x7ff6_0000).expect("raw handle");
    match raw {
        RawWindowHandle::Win32(handle) => {
            assert_eq!(handle.hwnd, NonZeroIsize::new(0x5_0a2c).unwrap());
            assert_eq!(handle.hinstance, NonZeroIsize::new(0x7ff6_0000));
        }
        _ => panic!("not a Win32 handle"),
    }
}

#[test]
fn raw_handle_of_a_null_instance_has_no_instance() {
    let raw = native_window(1).rwh(0).expect("raw handle");
    match raw {
        RawWindowHandle::Win32(handle) => {
            assert_eq!(handle.hwnd.get(), 1);
            assert_eq!(handle.hinstance, None);
        }
        _ => panic!("not a Win32 handle"),
    }
}

#[test]
fn raw_handles_of_two_windows_differ() {
    let first = native_window(10).rwh(3).expect("raw handle");
    let second = native_window(11).rwh(3).expect("raw handle");
    let again = native_window(10).rwh(3).expect("raw handle");
    assert_ne!(first, second);
    assert_eq!(first, again);
    assert_ne!(first, native_window(10).rwh(4).expect("raw handle"));
}

#[test]
fn handle_that_is_not_positive_is_unavailable() {
    for handle in [-1isize, -0x5_0a2c, isize::MIN] {
        assert_eq!(native_window(handle).rwh(1).err(), Some(HandleError::Unavailable));
        assert_eq!(window(handle).window_handle(1).err(), Some(HandleError::Unavailable));
    }
    assert!(native_window(isize::MAX).rwh(1).is_ok());
}

#[test]
fn window_hands_the_raw_handle_on() {
    let raw = window(0x2040).window_handle(-7).expect("raw handle");
    match raw {
        RawWindowHandle::Win32(handle) => {
            assert_eq!(handle.hwnd.get(), 0x2040);
            assert_eq!(handle.hinstance, NonZeroIsize::new(-7));
        }
        _ => panic!("not a Win32 handle"),
    }
    assert_eq!(window(0x2040).window_handle(-7), native_window(0x2040).rwh(-7));
}

#[test]
fn native_window_knows_its_handle_and_user_data() {
    let native = native_window(99);
    assert_eq!(native.hwnd(), 99);
    assert_eq!(native.userdata().key(), 1);
    let window = Window::new(Ok(native)).expect("unable to create window");
    assert_eq!(window.hwnd(), 99);
    assert_eq!(window.user_data(), 1);
}

#[test]
fn title_requests() {
    let window = window(0x30);
    assert_eq!(
        window.set_title("demo"),
        PlatformRequest::SetText { window: 0x30, text: vec![100, 101, 109, 111, 0] }
    );
    assert_eq!(window.set_title(""), PlatformRequest::SetText { window: 0x30, text: vec![0] });
    assert_eq!(
        window.set_title("😀"),
        PlatformRequest::SetText { window: 0x30, text: vec![0xD83D, 0xDE00, 0] }
    );
    assert_eq!(window.get_title(), PlatformRequest::GetText { window: 0x30 });
    let native = native_window(0x31);
    assert_eq!(
        native.set_title("a"),
        PlatformRequest::SetText { window: 0x31, text: vec![97, 0] }
    );
    assert_eq!(native.get_title(), PlatformRequest::GetText { window: 0x31 });
}

#[test]
fn system_appearance_requests() {
    let expected = vec![
        PlatformRequest::ExtendFrame { window: 0x40, left: -1, right: -1, top: -1, bottom: -1 },
        PlatformRequest::SetWindowAttribute { window: 0x40, attribute: 38, value: 2 },
    ];
    assert_eq!(native_window(0x40).apply_system_appearance(), expected);
    assert_eq!(window(0x40).apply_system_appearance(), expected);
}

#[test]
fn context_creates_windows_like_the_driver() {
    let mut context = Context::new();
    let creation = context.create_window(info());
    assert_eq!(creation.user_data(), 1);
    assert_eq!(context.event_runner().class_count(), 0);
    let step = context.advance_window(creation, PlatformReply::Class { atom: 0xC001, error: 0 });
    assert!(matches!(step, CreationStep::Pending(_)));
    assert_eq!(context.event_runner().class_count(), 1);
    assert_eq!(context.create_window(info()).user_data(), 2);
}
