//! The application's side: the context that windows are created in, and the
//! dispatcher that pumps their messages.

use crate::creation::{begin, CreationStep, WindowCreation};
use crate::native::NativeWindow;
use crate::platform::PlatformReply;
use crate::router::{route, Message, RouterAction, EXIT_CODE, HANDLED, WM_DESTROY, WM_QUIT};
use crate::runner::{next_address, pumped, EventRunner};
use crate::window::{Window, WindowInitialInfo};
use vstd::prelude::*;

verus! {

/// What a window reports to the registered handler. No event is defined yet:
/// the one variant cannot be built.
pub enum Event {
    Never(core::convert::Infallible),
}

/// Why the pump tells the application to leave its loop.
#[derive(Debug, Clone, Copy, PartialEq, Eq, Structural)]
pub enum ReturnCode {
    /// The quit signal was received.
    Exit,
}

/// What can be registered with a runner: a callable that takes an event.
pub trait Handler {

}

/// Every callable that takes an event can be registered.
impl<F: FnMut(Event) -> ()> Handler for F {

}

/// Where the windows of an application are created. The context owns the
/// runner.
pub struct Context {
    pub(crate) runner: EventRunner,
}

impl Context {
    /// The runner of the context.
    pub closed spec fn runner(&self) -> EventRunner {
        self.runner
    }

    /// The runner of the context.
    pub fn event_runner(&self) -> (runner: &EventRunner)
        ensures
            *runner == self.runner(),
    {
        &self.runner
    }

    /// A context with a new runner.
    pub fn new() -> (context: Self)
        ensures
            !context.runner().has_handler(),
            context.runner().classes() == Seq::<Seq<char>>::empty(),
            context.runner().last_address() == 0,
    {
        Self { runner: EventRunner::new() }
    }

    /// Begins the creation of a window: see [`NativeWindow::new`]. The
    /// creation goes on with [`Context::advance_window`].
    pub fn create_window(&mut self, info: WindowInitialInfo) -> (creation: WindowCreation)
        ensures
            creation@ == begin(
                info@,
                next_address(old(self).runner().last_address()),
                old(self).runner().classes(),
            ),
            creation@.user_data != 0,
            final(self).runner().last_address() == creation@.user_data,
            final(self).runner().handler() == old(self).runner().handler(),
            final(self).runner().classes() == old(self).runner().classes(),
    {
        NativeWindow::new(&mut self.runner, info)
    }

    /// Takes the creation of a window one call further: see
    /// [`NativeWindow::create_window`]. A creation that has finished gives the
    /// window by [`Window::new`].
    pub fn advance_window(&mut self, creation: WindowCreation, reply: PlatformReply) -> (step:
        CreationStep)
        ensures
            step@ == creation@.step(reply, old(self).runner().classes()),
            final(self).runner().classes() == creation@.classes_after(
                reply,
                old(self).runner().classes(),
            ),
            final(self).runner().handler() == old(self).runner().handler(),
            final(self).runner().last_address() == old(self).runner().last_address(),
    {
        NativeWindow::create_window(&mut self.runner, creation, reply)
    }
}

/// What an application implements to take part in the life of its windows.
pub trait EventHandler {
    /// Called once, before the handler is registered: the place to create the
    /// windows.
    fn init(&mut self, context: &mut Context);

    /// Called for each event of a window.
    fn window_event(&mut self, context: &Context, window: &Window, event: Event);
}

/// The dispatcher: it owns the context, takes the application's handler and
/// pumps the queue.
pub struct EventDispatcher {
    context: Context,
}

impl EventDispatcher {
    /// The context of the dispatcher.
    pub closed spec fn context(&self) -> Context {
        self.context
    }

    /// Whether a handler has been taken.
    pub open spec fn spec_has_handler(&self) -> bool {
        self.context().runner().has_handler()
    }

    /// A dispatcher with a new context.
    pub fn new() -> (dispatcher: Self)
        ensures
            !dispatcher.has_handler(),
            dispatcher.context().runner().classes() == Seq::<Seq<char>>::empty(),
            dispatcher.context().runner().last_address() == 0,
    {
        Self { context: Context::new() }
    }

    /// Whether a handler has been taken.
    #[verifier::when_used_as_spec(spec_has_handler)]
    pub fn has_handler(&self) -> (registered: bool)
        ensures
            registered == self.has_handler(),
    {
        self.context.runner.has_handler()
    }

    /// Lets `handler` set itself up in the context, then registers the
    /// handler of the runner. A dispatcher takes one handler.
    ///
    /// What `init` does to the context is the handler's own business: the
    /// dispatcher holds a handler afterwards whatever it was, and a handler
    /// that `init` left in the slot is kept.
    pub fn with_handler<T: EventHandler>(&mut self, handler: T)
        requires
            !old(self).has_handler(),
        ensures
            final(self).has_handler(),
    {
        let mut handler = handler;
        handler.init(&mut self.context);
        let _ = self.context.runner.try_register_handler(move |_event: Event| {});
    }

    /// One turn of the pump: see [`EventRunner::dispatch_events`].
    pub fn dispatch(&self, polled: Option<Message>) -> (code: Option<ReturnCode>)
        ensures
            code == pumped(polled),
    {
        self.context.runner.dispatch_events(polled)
    }
}

/// Destroying a window ends the loop. The router answers the destroy
/// notification of any window by posting the quit signal, and reports the
/// message as handled; the quit message that the queue then delivers makes the
/// pump return `Exit`. No other message does, and a turn that finds the queue
/// empty returns `None`.
pub proof fn lemma_destroy_ends_the_loop(slot: usize, create_params: usize, polled: Message)
    ensures
        route(slot, WM_DESTROY, create_params).action == (RouterAction::Quit {
            exit_code: EXIT_CODE,
            result: HANDLED,
        }),
        polled.code == WM_QUIT ==> pumped(Some(polled)) == Some(ReturnCode::Exit),
        polled.code != WM_QUIT ==> pumped(Some(polled)) == None::<ReturnCode>,
        pumped(None) == None::<ReturnCode>,
{
}

} // verus!
