//! The native window and the block of user data that is bound to it.

use crate::error::HandleError;
use crate::platform::{
    PlatformRequest, Request, DWMSBT_MAINWINDOW, DWMWA_SYSTEMBACKDROP_TYPE, WHOLE_WINDOW,
};
use crate::runner::{next_address, EventRunner};
use crate::text::{native_string, to_utf16};
use raw_window_handle::RawWindowHandle;
use vstd::prelude::*;

verus! {

/// `raw_window_handle::RawWindowHandle`: the handle of a window as a rendering
/// surface takes it. What it holds is not looked into here.
#[verifier::external_type_specification]
#[verifier::external_body]
pub struct ExRawWindowHandle(raw_window_handle::RawWindowHandle);

/// The raw handle of the Win32 window `window`, which belongs to the module
/// instance `instance`.
pub uninterp spec fn win32_window_handle(window: isize, instance: isize) -> RawWindowHandle;

/// `raw_window_handle::Win32WindowHandle::new`, with the instance set, in
/// `raw_window_handle::RawWindowHandle::Win32`: the handle that stands for the
/// window `window` of the instance `instance`. The same two values give the
/// same handle. A window of zero has no handle.
#[verifier::external_body]
fn win32_raw_handle(window: isize, instance: isize) -> (raw: RawWindowHandle)
    requires
        window != 0,
    ensures
        raw == win32_window_handle(window, instance),
{
    let mut handle = raw_window_handle::Win32WindowHandle::new(
        core::num::NonZeroIsize::new(window).unwrap(),
    );
    handle.hinstance = core::num::NonZeroIsize::new(instance);
    RawWindowHandle::Win32(handle)
}

/// What a window keeps for itself between two messages: nothing yet.
pub struct WindowState {

}

/// The requests that give the window `window` the look of the system: the
/// frame extended over the whole client area, then the backdrop material of a
/// main window.
pub open spec fn system_appearance(window: isize) -> Seq<Request> {
    seq![
        Request::ExtendFrame {
            window,
            left: WHOLE_WINDOW,
            right: WHOLE_WINDOW,
            top: WHOLE_WINDOW,
            bottom: WHOLE_WINDOW,
        },
        Request::SetWindowAttribute {
            window,
            attribute: DWMWA_SYSTEMBACKDROP_TYPE,
            value: DWMSBT_MAINWINDOW,
        },
    ]
}

/// What each of `requests` says.
pub open spec fn views(requests: Seq<PlatformRequest>) -> Seq<Request> {
    requests.map_values(|request: PlatformRequest| request@)
}

/// The block that is bound to a window from its first message to its last.
/// The address it is known by is handed to the window system when the window
/// is created, and comes back with every message.
pub struct WindowUserData {
    address: usize,
    state: WindowState,
}

impl WindowUserData {
    /// The address of the block.
    pub closed spec fn address(&self) -> usize {
        self.address
    }

    #[verifier::type_invariant]
    spec fn address_is_not_null(&self) -> bool {
        self.address != 0
    }

    /// A block for a window of `runner`, under an address of its own.
    pub fn new(runner: &mut EventRunner) -> (data: Self)
        ensures
            data.address() == next_address(old(runner).last_address()),
            data.address() != 0,
            final(runner).last_address() == data.address(),
            final(runner).handler() == old(runner).handler(),
            final(runner).classes() == old(runner).classes(),
    {
        let address = runner.next_user_data();
        WindowUserData { address, state: WindowState {  } }
    }

    /// What the window keeps for itself.
    pub closed spec fn window_state(&self) -> WindowState {
        self.state
    }

    /// What the window keeps for itself.
    pub fn state(&self) -> (state: &WindowState)
        ensures
            *state == self.window_state(),
    {
        &self.state
    }

    /// The address of the block, which is not null.
    pub fn key(&self) -> (address: usize)
        ensures
            address == self.address(),
            address != 0,
    {
        proof {
            use_type_invariant(self);
        }
        self.address
    }
}

/// A window of the window system, with the user data that is bound to it.
pub struct NativeWindow {
    hwnd: isize,
    userdata: WindowUserData,
}

impl NativeWindow {
    /// The handle of the window.
    pub closed spec fn handle(&self) -> isize {
        self.hwnd
    }

    /// The address of the user data of the window.
    pub closed spec fn user_data(&self) -> usize {
        self.userdata.address()
    }

    #[verifier::type_invariant]
    spec fn handle_is_not_null(&self) -> bool {
        self.hwnd != 0
    }

    /// The window `hwnd`, bound to `userdata`.
    pub(crate) fn bind(hwnd: isize, userdata: WindowUserData) -> (window: Self)
        requires
            hwnd != 0,
        ensures
            window.handle() == hwnd,
            window.user_data() == userdata.address(),
    {
        NativeWindow { hwnd, userdata }
    }

    /// The handle of the window, which is not null.
    pub fn hwnd(&self) -> (hwnd: isize)
        ensures
            hwnd == self.handle(),
            hwnd != 0,
    {
        proof {
            use_type_invariant(self);
        }
        self.hwnd
    }

    /// The user data that is bound to the window.
    pub fn userdata(&self) -> (userdata: &WindowUserData)
        ensures
            userdata.address() == self.user_data(),
            userdata.address() != 0,
    {
        proof {
            use_type_invariant(&self.userdata);
        }
        &self.userdata
    }

    /// The request that gives the window the text `title`.
    pub fn set_title(&self, title: &str) -> (request: PlatformRequest)
        ensures
            request@ == (Request::SetText { window: self.handle(), text: native_string(title@) }),
    {
        PlatformRequest::SetText { window: self.hwnd, text: to_utf16(title) }
    }

    /// The request that asks for the text of the window.
    pub fn get_title(&self) -> (request: PlatformRequest)
        ensures
            request@ == (Request::GetText { window: self.handle() }),
    {
        PlatformRequest::GetText { window: self.hwnd }
    }

    /// The two requests that give the window the look of the system. Their
    /// answers are not looked at.
    pub fn apply_system_appearance(&self) -> (requests: Vec<PlatformRequest>)
        ensures
            views(requests@) == system_appearance(self.handle()),
    {
        let mut requests: Vec<PlatformRequest> = Vec::new();
        requests.push(
            PlatformRequest::ExtendFrame {
                window: self.hwnd,
                left: WHOLE_WINDOW,
                right: WHOLE_WINDOW,
                top: WHOLE_WINDOW,
                bottom: WHOLE_WINDOW,
            },
        );
        requests.push(
            PlatformRequest::SetWindowAttribute {
                window: self.hwnd,
                attribute: DWMWA_SYSTEMBACKDROP_TYPE,
                value: DWMSBT_MAINWINDOW,
            },
        );
        assert(views(requests@) =~= system_appearance(self.handle()));
        requests
    }

    /// The raw handle of the window, for a rendering surface to attach to.
    /// `instance` is the instance handle of the module that made the window.
    /// A handle that is not positive is not given out.
    pub fn rwh(&self, instance: isize) -> (raw: Result<RawWindowHandle, HandleError>)
        ensures
            self.handle() <= 0 ==> raw == Err::<RawWindowHandle, HandleError>(
                HandleError::Unavailable,
            ),
            self.handle() > 0 ==> raw == Ok::<RawWindowHandle, HandleError>(
                win32_window_handle(self.handle(), instance),
            ),
    {
        if self.hwnd <= 0 {
            Err(HandleError::Unavailable)
        } else {
            Ok(win32_raw_handle(self.hwnd, instance))
        }
    }
}

} // verus!
