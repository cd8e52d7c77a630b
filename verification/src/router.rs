//! The router: what is done with one message of one window.
//!
//! The window system calls the router for every message of every window of the
//! class. What the router knows of a window is held in the one slot that the
//! window system keeps for it: zero while nothing is bound, then the address
//! of the window's user data.

use vstd::prelude::*;

verus! {

/// Message: the window is being created; its creation parameters are at hand.
pub const WM_CREATE: u32 = 0x0001;

/// Message: the window is being destroyed.
pub const WM_DESTROY: u32 = 0x0002;

/// Message: the window is asked to paint.
pub const WM_PAINT: u32 = 0x000F;

/// Message: the quit signal has been posted.
pub const WM_QUIT: u32 = 0x0012;

/// The exit code that the router posts when a window is destroyed.
pub const EXIT_CODE: i32 = 0;

/// The value that the router reports for a message that it has handled.
pub const HANDLED: isize = 0;

/// One message of the queue.
#[derive(Debug, Clone, Copy, PartialEq, Eq, Structural)]
pub struct Message {
    /// The window that the message is for; zero where it is for none.
    pub window: isize,
    /// What the message says.
    pub code: u32,
    pub w_param: usize,
    pub l_param: isize,
}

/// What the caller does for a message on behalf of the router.
#[derive(Debug, Clone, Copy, PartialEq, Eq, Structural)]
pub enum RouterAction {
    /// Invalidate the whole client area of the window, erasing it if `erase`
    /// is set, then hand the message unchanged to the default handler and
    /// report what it reports.
    Repaint { erase: bool },
    /// Post the quit signal with `exit_code`, and report `result`.
    Quit { exit_code: i32, result: isize },
    /// Hand the message unchanged to the default handler and report what it
    /// reports.
    Forward,
}

/// What the router decided for one message.
#[derive(Debug, Clone, Copy, PartialEq, Eq, Structural)]
pub struct Routed {
    /// What the window's slot holds from now on.
    pub slot: usize,
    /// Whether the slot is written for this message.
    pub write: bool,
    /// The address of the window's user data, if one is bound.
    pub user_data: Option<usize>,
    /// What is done with the message.
    pub action: RouterAction,
}

/// Whether a message comes with creation parameters.
pub open spec fn carries_creation_params(message: u32) -> bool {
    message == WM_CREATE
}

/// Whether a message writes the slot: the creation message does, once, while
/// the slot is empty. Nothing else writes the slot.
pub open spec fn writes_slot(slot: usize, message: u32) -> bool {
    carries_creation_params(message) && slot == 0
}

/// The slot after a message: where it is written, the address in the creation
/// parameters.
pub open spec fn slot_after(slot: usize, message: u32, create_params: usize) -> usize {
    if writes_slot(slot, message) {
        create_params
    } else {
        slot
    }
}

/// The user data that a slot gives back: none while the slot is empty.
pub open spec fn bound_user_data(slot: usize) -> Option<usize> {
    if slot == 0 {
        None
    } else {
        Some(slot)
    }
}

/// What is done with a message of the given code.
pub open spec fn action_for(message: u32) -> RouterAction {
    if message == WM_PAINT {
        RouterAction::Repaint { erase: true }
    } else if message == WM_DESTROY {
        RouterAction::Quit { exit_code: EXIT_CODE, result: HANDLED }
    } else {
        RouterAction::Forward
    }
}

/// What the router decides for a message, the slot holding `slot` before it.
pub open spec fn route(slot: usize, message: u32, create_params: usize) -> Routed {
    let next = slot_after(slot, message, create_params);
    Routed {
        slot: next,
        write: writes_slot(slot, message),
        user_data: bound_user_data(next),
        action: action_for(message),
    }
}

/// Whether the caller has creation parameters to read for this message.
pub fn has_creation_params(u_msg: u32) -> (carries: bool)
    ensures
        carries == carries_creation_params(u_msg),
{
    u_msg == WM_CREATE
}

/// Routes one message of a window whose slot holds `slot`. `create_params` is
/// the address in the message's creation parameters, and is read only where
/// the message carries them.
///
/// The user data is read back from the slot after the creation message has
/// been stored, and is `None` for the messages that arrive before it.
pub fn wndproc(slot: usize, u_msg: u32, create_params: usize) -> (routed: Routed)
    ensures
        routed == route(slot, u_msg, create_params),
{
    let write = u_msg == WM_CREATE && slot == 0;
    let bound = if write {
        create_params
    } else {
        slot
    };
    let user_data = if bound == 0 {
        None
    } else {
        Some(bound)
    };
    let action = match u_msg {
        WM_PAINT => RouterAction::Repaint { erase: true },
        WM_DESTROY => RouterAction::Quit { exit_code: EXIT_CODE, result: HANDLED },
        _ => RouterAction::Forward,
    };
    Routed { slot: bound, write, user_data, action }
}

/// The slot after a run of messages, each with its creation parameters.
pub open spec fn slot_after_all(slot: usize, messages: Seq<(u32, usize)>) -> usize
    decreases messages.len(),
{
    if messages.len() == 0 {
        slot
    } else {
        let last = messages.last();
        slot_after(slot_after_all(slot, messages.drop_last()), last.0, last.1)
    }
}

/// A bound slot keeps its address whatever messages follow.
pub proof fn lemma_bound_slot_is_kept(slot: usize, messages: Seq<(u32, usize)>)
    requires
        slot != 0,
    ensures
        slot_after_all(slot, messages) == slot,
    decreases messages.len(),
{
    if messages.len() > 0 {
        lemma_bound_slot_is_kept(slot, messages.drop_last());
    }
}

/// The user data of a window makes the round trip: once the creation message
/// has carried `address` to the router, every later message of the window
/// recovers that same address, as long as the window lives and whatever the
/// messages are.
pub proof fn lemma_user_data_round_trip(
    address: usize,
    later: Seq<(u32, usize)>,
    message: u32,
    create_params: usize,
)
    requires
        address != 0,
    ensures
        ({
            let created = route(0, WM_CREATE, address);
            let slot = slot_after_all(created.slot, later);
            &&& created.write
            &&& created.user_data == Some(address)
            &&& route(slot, message, create_params).user_data == Some(address)
            &&& route(slot, message, create_params).slot == address
            &&& !route(slot, message, create_params).write
        }),
{
    lemma_bound_slot_is_kept(address, later);
}

/// Before the creation message nothing is bound: a message that arrives on an
/// empty slot and carries no creation parameters recovers no user data, and
/// leaves the slot empty.
pub proof fn lemma_early_messages_see_no_user_data(message: u32, create_params: usize)
    requires
        !carries_creation_params(message),
    ensures
        route(0, message, create_params).user_data == None::<usize>,
        route(0, message, create_params).slot == 0,
{
}

} // verus!
