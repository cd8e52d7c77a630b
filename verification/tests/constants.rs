//! The values that the library asks the window system with are those of the
//! Win32 headers.

use windows::Win32::Foundation::ERROR_CLASS_ALREADY_EXISTS;
use windows::Win32::Graphics::Dwm::{DWMSBT_MAINWINDOW, DWMWA_SYSTEMBACKDROP_TYPE};
use windows::Win32::UI::HiDpi::DPI_AWARENESS_CONTEXT_PER_MONITOR_AWARE_V2;
use windows::Win32::UI::WindowsAndMessaging::{
    CS_HREDRAW, CS_VREDRAW, IDC_ARROW, IDI_APPLICATION, SWP_NOACTIVATE, SWP_NOMOVE, SWP_NOREDRAW,
    SWP_NOZORDER, SW_SHOW, WINDOW_EX_STYLE, WM_CREATE, WM_DESTROY, WM_PAINT, WM_QUIT,
    WS_OVERLAPPEDWINDOW,
};
use wnd::platform;
use wnd::router;

#[test]
fn message_codes_are_those_of_win32() {
    assert_eq!(router::WM_CREATE, WM_CREATE);
    assert_eq!(router::WM_DESTROY, WM_DESTROY);
    assert_eq!(router::WM_PAINT, WM_PAINT);
    assert_eq!(router::WM_QUIT, WM_QUIT);
}

#[test]
fn class_values_are_those_of_win32() {
    assert_eq!(platform::CS_HREDRAW, CS_HREDRAW.0);
    assert_eq!(platform::CS_VREDRAW, CS_VREDRAW.0);
    assert_eq!(platform::CLASS_STYLE, (CS_HREDRAW | CS_VREDRAW).0);
    assert_eq!(platform::CLASS_CURSOR as usize, IDC_ARROW.0 as usize);
    assert_eq!(platform::CLASS_CURSOR as usize, IDI_APPLICATION.0 as usize);
    assert_eq!(platform::BACKGROUND_COLOR, 0x000000);
    assert_eq!(platform::ERROR_CLASS_ALREADY_EXISTS, ERROR_CLASS_ALREADY_EXISTS.0);
}

#[test]
fn window_values_are_those_of_win32() {
    assert_eq!(platform::WS_OVERLAPPEDWINDOW, WS_OVERLAPPEDWINDOW.0);
    assert_eq!(platform::WINDOW_EX_STYLE, WINDOW_EX_STYLE(0).0);
    assert_eq!(platform::SWP_NOMOVE, SWP_NOMOVE.0);
    assert_eq!(platform::SWP_NOZORDER, SWP_NOZORDER.0);
    assert_eq!(platform::SWP_NOREDRAW, SWP_NOREDRAW.0);
    assert_eq!(platform::SWP_NOACTIVATE, SWP_NOACTIVATE.0);
    assert_eq!(
        platform::RESIZE_FLAGS,
        (SWP_NOMOVE | SWP_NOZORDER | SWP_NOACTIVATE | SWP_NOREDRAW).0
    );
    assert_eq!(platform::SW_SHOW, SW_SHOW.0);
}

#[test]
fn appearance_values_are_those_of_win32() {
    assert_eq!(platform::DWMWA_SYSTEMBACKDROP_TYPE, DWMWA_SYSTEMBACKDROP_TYPE.0);
    assert_eq!(platform::DWMSBT_MAINWINDOW, DWMSBT_MAINWINDOW.0);
    assert_eq!(platform::WHOLE_WINDOW, -1);
    assert_eq!(
        platform::DPI_AWARENESS_CONTEXT_PER_MONITOR_AWARE_V2,
        DPI_AWARENESS_CONTEXT_PER_MONITOR_AWARE_V2.0 as isize
    );
}
