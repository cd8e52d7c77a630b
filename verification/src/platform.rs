//! The calls that the library asks of the window system, and the answers that
//! it takes back.

use vstd::prelude::*;

verus! {

/// Class style: redraw the whole window when its height changes.
pub const CS_VREDRAW: u32 = 0x0001;

/// Class style: redraw the whole window when its width changes.
pub const CS_HREDRAW: u32 = 0x0002;

/// The style of the window class: `CS_HREDRAW | CS_VREDRAW`.
pub const CLASS_STYLE: u32 = 0x0003;

/// The stock cursor of the window class, by its resource identifier: the
/// arrow.
pub const CLASS_CURSOR: u32 = 32512;

/// The colour of the class background: black.
pub const BACKGROUND_COLOR: u32 = 0x0000_0000;

/// Window style: an overlapped window with caption, system menu, sizing frame
/// and both boxes.
pub const WS_OVERLAPPEDWINDOW: u32 = 0x00CF_0000;

/// Extended window style: none.
pub const WINDOW_EX_STYLE: u32 = 0;

/// Positioning flag: keep the position.
pub const SWP_NOMOVE: u32 = 0x0002;

/// Positioning flag: keep the place in the Z order.
pub const SWP_NOZORDER: u32 = 0x0004;

/// Positioning flag: do not redraw.
pub const SWP_NOREDRAW: u32 = 0x0008;

/// Positioning flag: do not activate.
pub const SWP_NOACTIVATE: u32 = 0x0010;

/// The flags of the resize after creation:
/// `SWP_NOMOVE | SWP_NOZORDER | SWP_NOACTIVATE | SWP_NOREDRAW`.
pub const RESIZE_FLAGS: u32 = 0x001E;

/// Show command: show the window at its size and position.
pub const SW_SHOW: i32 = 5;

/// Margin that extends the frame over the whole client area.
pub const WHOLE_WINDOW: i32 = -1;

/// Window attribute: the system backdrop material.
pub const DWMWA_SYSTEMBACKDROP_TYPE: i32 = 38;

/// Backdrop material of a main window.
pub const DWMSBT_MAINWINDOW: i32 = 2;

/// Awareness context: per monitor, version 2.
pub const DPI_AWARENESS_CONTEXT_PER_MONITOR_AWARE_V2: isize = -4;

/// Error code: a class of this name is registered already.
pub const ERROR_CLASS_ALREADY_EXISTS: u32 = 1410;

/// One call that the window system is asked to make.
#[derive(Debug, PartialEq, Eq)]
pub enum PlatformRequest {
    /// Set the awareness of the process for the resolution of its displays.
    SetDpiAwareness { context: isize },
    /// Register a window class. `name` is in native form; `cursor` names a
    /// stock cursor, `background` the colour of a solid brush.
    RegisterClass { name: Vec<u16>, style: u32, cursor: u32, background: u32 },
    /// Create a window of the class `class_name`, which passes `user_data`
    /// through to the creation message. Both texts are in native form.
    CreateWindow {
        class_name: Vec<u16>,
        title: Vec<u16>,
        style: u32,
        ex_style: u32,
        x: i32,
        y: i32,
        width: i32,
        height: i32,
        user_data: usize,
    },
    /// Ask for the dots per inch of the display that the window is on.
    QueryDpi { window: isize },
    /// Place and size the window as far as `flags` allow.
    SetWindowPos { window: isize, x: i32, y: i32, width: i32, height: i32, flags: u32 },
    /// Show the window.
    ShowWindow { window: isize, command: i32 },
    /// Paint the window now.
    UpdateWindow { window: isize },
    /// Extend the window frame into the client area by four margins.
    ExtendFrame { window: isize, left: i32, right: i32, top: i32, bottom: i32 },
    /// Set an attribute of the window that the compositor reads.
    SetWindowAttribute { window: isize, attribute: i32, value: i32 },
    /// Set the text of the window. `text` is in native form.
    SetText { window: isize, text: Vec<u16> },
    /// Ask for the text of the window.
    GetText { window: isize },
}

/// What a [`PlatformRequest`] says, with each text as a sequence.
pub enum Request {
    SetDpiAwareness { context: isize },
    RegisterClass { name: Seq<u16>, style: u32, cursor: u32, background: u32 },
    CreateWindow {
        class_name: Seq<u16>,
        title: Seq<u16>,
        style: u32,
        ex_style: u32,
        x: i32,
        y: i32,
        width: i32,
        height: i32,
        user_data: usize,
    },
    QueryDpi { window: isize },
    SetWindowPos { window: isize, x: i32, y: i32, width: i32, height: i32, flags: u32 },
    ShowWindow { window: isize, command: i32 },
    UpdateWindow { window: isize },
    ExtendFrame { window: isize, left: i32, right: i32, top: i32, bottom: i32 },
    SetWindowAttribute { window: isize, attribute: i32, value: i32 },
    SetText { window: isize, text: Seq<u16> },
    GetText { window: isize },
}

impl View for PlatformRequest {
    type V = Request;

    open spec fn view(&self) -> Request {
        match *self {
            PlatformRequest::SetDpiAwareness { context } => Request::SetDpiAwareness { context },
            PlatformRequest::RegisterClass { name, style, cursor, background } => {
                Request::RegisterClass { name: name@, style, cursor, background }
            },
            PlatformRequest::CreateWindow {
                class_name,
                title,
                style,
                ex_style,
                x,
                y,
                width,
                height,
                user_data,
            } => Request::CreateWindow {
                class_name: class_name@,
                title: title@,
                style,
                ex_style,
                x,
                y,
                width,
                height,
                user_data,
            },
            PlatformRequest::QueryDpi { window } => Request::QueryDpi { window },
            PlatformRequest::SetWindowPos { window, x, y, width, height, flags } => {
                Request::SetWindowPos { window, x, y, width, height, flags }
            },
            PlatformRequest::ShowWindow { window, command } => Request::ShowWindow {
                window,
                command,
            },
            PlatformRequest::UpdateWindow { window } => Request::UpdateWindow { window },
            PlatformRequest::ExtendFrame { window, left, right, top, bottom } => {
                Request::ExtendFrame { window, left, right, top, bottom }
            },
            PlatformRequest::SetWindowAttribute { window, attribute, value } => {
                Request::SetWindowAttribute { window, attribute, value }
            },
            PlatformRequest::SetText { window, text } => Request::SetText { window, text: text@ },
            PlatformRequest::GetText { window } => Request::GetText { window },
        }
    }
}

/// What the window system answered to a request.
#[derive(Debug, Clone, Copy, PartialEq, Eq, Structural)]
pub enum PlatformReply {
    /// To `RegisterClass`: the atom of the class, zero where the call failed,
    /// and then the error code that the window system gives for the failure.
    Class { atom: u16, error: u32 },
    /// To `CreateWindow`: the handle of the new window, or zero where none was
    /// made.
    Window { handle: isize },
    /// To `QueryDpi`: the dots per inch.
    Dpi { dpi: u32 },
    /// To any other request: whether the call succeeded.
    Done { ok: bool },
}

/// The class style and the resize flags are the unions of their parts.
pub proof fn lemma_flag_unions()
    ensures
        CLASS_STYLE == CS_HREDRAW | CS_VREDRAW,
        RESIZE_FLAGS == SWP_NOMOVE | SWP_NOZORDER | SWP_NOACTIVATE | SWP_NOREDRAW,
{
    assert(0x0003u32 == 0x0002u32 | 0x0001u32) by (bit_vector);
    assert(0x001Eu32 == 0x0002u32 | 0x0004u32 | 0x0010u32 | 0x0008u32) by (bit_vector);
}

} // verus!
