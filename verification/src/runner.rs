//! The runner that a context owns: the slot of the event handler, the window
//! classes of the process, and the pump.

use crate::class::{registered_after, registration_result, WindowClassRegistry, WindowClassTemplate};
use crate::error::ClassRegistrationError;
use crate::event::{Event, Handler, ReturnCode};
use crate::platform::{PlatformRequest, Request, DPI_AWARENESS_CONTEXT_PER_MONITOR_AWARE_V2};
use crate::router::{Message, WM_QUIT};
use vstd::prelude::*;

verus! {

/// The address that is given out after `last`: the next one, and never zero.
pub open spec fn next_address(last: usize) -> usize {
    if last == usize::MAX {
        1
    } else {
        (last + 1) as usize
    }
}

/// Whether a slot that holds `held` takes a handler: it does while it is
/// empty.
pub open spec fn takes_handler<H>(held: Option<H>) -> bool {
    held is None
}

/// What a slot that holds `held` holds after `offered` has been offered to it:
/// an empty slot takes what is offered, a full one keeps what it has.
pub open spec fn handler_after<H>(held: Option<H>, offered: H) -> Option<H> {
    if takes_handler(held) {
        Some(offered)
    } else {
        held
    }
}

/// What the pump answers for the message that was taken from the queue, if
/// there was one.
pub open spec fn pumped(polled: Option<Message>) -> Option<ReturnCode> {
    match polled {
        Some(message) => if message.code == WM_QUIT {
            Some(ReturnCode::Exit)
        } else {
            None
        },
        None => None,
    }
}

/// The runner: the one slot for an event handler, the classes that are
/// registered, and the addresses that were given to user data.
pub struct EventRunner {
    handler: Option<Box<dyn Handler>>,
    classes: WindowClassRegistry,
    last_address: usize,
}

impl EventRunner {
    /// The handler in the slot.
    pub closed spec fn handler(&self) -> Option<Box<dyn Handler>> {
        self.handler
    }

    /// Whether a handler is registered.
    pub open spec fn spec_has_handler(&self) -> bool {
        self.handler() is Some
    }

    /// The names of the registered classes.
    pub closed spec fn classes(&self) -> Seq<Seq<char>> {
        self.classes@
    }

    /// The address that was given out last, zero before the first.
    pub closed spec fn last_address(&self) -> usize {
        self.last_address
    }

    /// A runner without a handler, without classes and without addresses given
    /// out.
    pub fn new() -> (runner: Self)
        ensures
            !runner.has_handler(),
            runner.classes() == Seq::<Seq<char>>::empty(),
            runner.last_address() == 0,
    {
        EventRunner { handler: None, classes: WindowClassRegistry::new(), last_address: 0 }
    }

    /// The request that a process makes once, before its first window: to be
    /// told the resolution of each display by itself.
    pub fn enable_hidpi_support() -> (request: PlatformRequest)
        ensures
            request@ == (Request::SetDpiAwareness {
                context: DPI_AWARENESS_CONTEXT_PER_MONITOR_AWARE_V2,
            }),
    {
        PlatformRequest::SetDpiAwareness { context: DPI_AWARENESS_CONTEXT_PER_MONITOR_AWARE_V2 }
    }

    /// Whether a handler is registered.
    #[verifier::when_used_as_spec(spec_has_handler)]
    pub fn has_handler(&self) -> (registered: bool)
        ensures
            registered == self.has_handler(),
    {
        self.handler.is_some()
    }

    /// Registers `handler` as the handler of this runner: the slot holds it
    /// afterwards. A runner takes one handler: one that holds a handler
    /// already takes no other.
    pub fn register_handler<F: FnMut(Event) -> () + 'static>(&mut self, handler: F)
        requires
            takes_handler(old(self).handler()),
        ensures
            final(self).handler() == Some::<Box<dyn Handler>>(Box::new(handler)),
            final(self).handler() == handler_after(old(self).handler(), Box::new(handler)),
            final(self).classes() == old(self).classes(),
            final(self).last_address() == old(self).last_address(),
    {
        self.handler = Some(Box::new(handler));
    }

    /// Registers `handler` unless the runner holds a handler already, and says
    /// whether it did. The handler that a runner holds is never replaced: the
    /// one that is turned away is dropped.
    pub fn try_register_handler<F: FnMut(Event) -> () + 'static>(&mut self, handler: F) -> (registered:
        bool)
        ensures
            registered == takes_handler(old(self).handler()),
            final(self).handler() == handler_after(old(self).handler(), Box::new(handler)),
            registered ==> final(self).handler() == Some::<Box<dyn Handler>>(Box::new(handler)),
            !registered ==> final(self).handler() == old(self).handler(),
            final(self).classes() == old(self).classes(),
            final(self).last_address() == old(self).last_address(),
    {
        if self.has_handler() {
            false
        } else {
            self.register_handler(handler);
            true
        }
    }

    /// Gives out the address of a new block of user data.
    pub fn next_user_data(&mut self) -> (address: usize)
        ensures
            address == next_address(old(self).last_address()),
            address != 0,
            final(self).last_address() == address,
            final(self).handler() == old(self).handler(),
            final(self).classes() == old(self).classes(),
    {
        let address: usize = if self.last_address == usize::MAX {
            1
        } else {
            self.last_address + 1
        };
        self.last_address = address;
        address
    }

    /// The number of registered classes.
    pub fn class_count(&self) -> (count: usize)
        ensures
            count == self.classes().len(),
    {
        self.classes.count()
    }

    /// Whether a class of this name is registered.
    pub fn is_class_registered(&self, name: &String) -> (found: bool)
        ensures
            found == self.classes().contains(name@),
    {
        self.classes.is_registered(name)
    }

    /// Makes sure that the class of `template` is registered with this runner:
    /// see [`WindowClassRegistry::ensure_registered`].
    pub fn ensure_registered(&mut self, template: &WindowClassTemplate, accepted: bool) -> (result:
        Result<(), ClassRegistrationError>)
        ensures
            result == registration_result(old(self).classes(), template.name@, accepted),
            final(self).classes() == registered_after(
                old(self).classes(),
                template.name@,
                accepted,
            ),
            final(self).handler() == old(self).handler(),
            final(self).last_address() == old(self).last_address(),
    {
        self.classes.ensure_registered(template, accepted)
    }

    /// Decides what one turn of the pump returns. `polled` is what one poll of
    /// the queue gave, without waiting: `None` where no message was pending,
    /// else the message, which the caller has removed from the queue and hands
    /// on to the router whatever is returned here.
    pub fn dispatch_events(&self, polled: Option<Message>) -> (code: Option<ReturnCode>)
        ensures
            code == pumped(polled),
    {
        match polled {
            Some(message) => {
                if message.code == WM_QUIT {
                    Some(ReturnCode::Exit)
                } else {
                    None
                }
            },
            None => None,
        }
    }
}

/// A runner takes its handler once. A new slot takes the first handler that
/// is offered, and holds that very handler afterwards. From then on the slot
/// takes no handler: a second registration is not admitted, and after a second
/// and a third offer the slot holds the first handler still.
pub proof fn lemma_handler_is_registered_once(
    first: Box<dyn Handler>,
    second: Box<dyn Handler>,
    third: Box<dyn Handler>,
)
    ensures
        takes_handler(None::<Box<dyn Handler>>),
        handler_after(None, first) == Some(first),
        !takes_handler(handler_after(None, first)),
        handler_after(handler_after(None, first), second) == Some(first),
        handler_after(handler_after(handler_after(None, first), second), third) == Some(first),
{
}

/// A slot that holds a handler keeps it: no offer is taken, and none replaces
/// what is held.
pub proof fn lemma_held_handler_is_kept(held: Option<Box<dyn Handler>>, offered: Box<dyn Handler>)
    requires
        held is Some,
    ensures
        !takes_handler(held),
        handler_after(held, offered) == held,
{
}

} // verus!
