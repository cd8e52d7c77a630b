//! The window that an application holds.

use crate::creation::Native;
use crate::error::{HandleError, WindowHandlerError, WindowHandlerResult};
use crate::native::{system_appearance, views, win32_window_handle, NativeWindow};
use crate::platform::{PlatformRequest, Request};
use crate::text::native_string;
use raw_window_handle::RawWindowHandle;
use vstd::prelude::*;

verus! {

/// Where a new window stands, how large it is in logical units, and what it is
/// called.
#[derive(Debug, PartialEq, Eq)]
pub struct WindowInitialInfo {
    pub pos_x: i32,
    pub pos_y: i32,
    pub width: i32,
    pub height: i32,
    pub title: String,
}

/// What a [`WindowInitialInfo`] says, with the title as a sequence.
pub struct InitialInfo {
    pub pos_x: i32,
    pub pos_y: i32,
    pub width: i32,
    pub height: i32,
    pub title: Seq<char>,
}

impl View for WindowInitialInfo {
    type V = InitialInfo;

    open spec fn view(&self) -> InitialInfo {
        InitialInfo {
            pos_x: self.pos_x,
            pos_y: self.pos_y,
            width: self.width,
            height: self.height,
            title: self.title@,
        }
    }
}

/// A window could not be made.
#[derive(Debug, Clone, Copy, PartialEq, Eq, Structural)]
pub enum WindowError {
    /// The driver failed to construct the native window.
    WindowHandlerError(WindowHandlerError),
}

pub type WindowResult<T> = Result<T, WindowError>;

/// A window of the application. It owns its native window, and hands every
/// operation on to it.
pub struct Window {
    handler: NativeWindow,
}

impl View for Window {
    type V = Native;

    closed spec fn view(&self) -> Native {
        self.handler@
    }
}

impl Window {
    /// The window of the native window that the driver has constructed, or
    /// the driver's error as a window error.
    pub fn new(handler: WindowHandlerResult<NativeWindow>) -> (window: WindowResult<Self>)
        ensures
            match handler {
                Ok(native) => window matches Ok(made) && made@ == native@,
                Err(error) => window == Err::<Self, WindowError>(
                    WindowError::WindowHandlerError(error),
                ),
            },
    {
        let handler = match handler {
            Ok(handler) => handler,
            Err(error) => return Err(WindowError::WindowHandlerError(error)),
        };
        Ok(Window { handler })
    }

    /// The handle of the native window, which is not null.
    pub fn hwnd(&self) -> (hwnd: isize)
        ensures
            hwnd == self@.handle,
            hwnd != 0,
    {
        self.handler.hwnd()
    }

    /// The address of the user data that is bound to the native window.
    pub fn user_data(&self) -> (address: usize)
        ensures
            address == self@.user_data,
    {
        self.handler.userdata().key()
    }

    /// The two requests that give the window the look of the system: see
    /// [`NativeWindow::apply_system_appearance`].
    pub fn apply_system_appearance(&self) -> (requests: Vec<PlatformRequest>)
        ensures
            views(requests@) == system_appearance(self@.handle),
    {
        self.handler.apply_system_appearance()
    }

    /// The request that gives the window the text `title`.
    pub fn set_title(&self, title: &str) -> (request: PlatformRequest)
        ensures
            request@ == (Request::SetText { window: self@.handle, text: native_string(title@) }),
    {
        self.handler.set_title(title)
    }

    /// The request that asks for the text of the window.
    pub fn get_title(&self) -> (request: PlatformRequest)
        ensures
            request@ == (Request::GetText { window: self@.handle }),
    {
        self.handler.get_title()
    }

    /// The raw handle of the window, for a rendering surface to attach to:
    /// see [`NativeWindow::rwh`].
    pub fn window_handle(&self, instance: isize) -> (raw: Result<RawWindowHandle, HandleError>)
        ensures
            self@.handle <= 0 ==> raw == Err::<RawWindowHandle, HandleError>(
                HandleError::Unavailable,
            ),
            self@.handle > 0 ==> raw == Ok::<RawWindowHandle, HandleError>(
                win32_window_handle(self@.handle, instance),
            ),
    {
        let raw = self.handler.rwh(instance)?;
        Ok(raw)
    }
}

} // verus!
