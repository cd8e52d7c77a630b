//! The creation of a native window: an algorithm of six calls to the window
//! system, suspended at each of them.
//!
//! 1. The window class is registered, unless it is already.
//! 2. The window is created at its position with a placeholder size of zero,
//!    and with the address of its user data as creation parameter.
//! 3. The dots per inch of the display that the window came up on are asked
//!    for: they are known only once the window exists.
//! 4. The window is given its physical size, without being moved, raised,
//!    activated or redrawn.
//! 5. The window is shown.
//! 6. The window is painted for the first time.

use crate::class::{class_name, registered_after, registration_result, WindowClassTemplate};
use crate::error::{CreateWindowError, WindowHandlerError, WindowHandlerResult};
use crate::native::{NativeWindow, WindowUserData};
use crate::platform::{
    PlatformReply, PlatformRequest, Request, BACKGROUND_COLOR, CLASS_CURSOR, CLASS_STYLE,
    ERROR_CLASS_ALREADY_EXISTS, RESIZE_FLAGS, SW_SHOW, WINDOW_EX_STYLE, WS_OVERLAPPEDWINDOW,
};
use crate::router::{lemma_user_data_round_trip, route, slot_after_all, WM_CREATE};
use crate::runner::{next_address, EventRunner};
use crate::scale::{clamp_i32, scale_length, scaled};
use crate::text::{native_string, to_utf16};
use crate::window::{InitialInfo, WindowInitialInfo};
use vstd::prelude::*;

verus! {

/// The call that a creation waits for.
#[derive(Debug, Clone, Copy, PartialEq, Eq, Structural)]
pub enum CreationStage {
    RegisterClass,
    CreateWindow,
    QueryDpi,
    Resize,
    Show,
    Update,
}

/// A creation that waits for the answer to a call.
pub struct WindowCreation {
    stage: CreationStage,
    info: WindowInitialInfo,
    userdata: WindowUserData,
    handle: isize,
    dpi: u32,
}

/// What a [`WindowCreation`] holds.
pub struct Creation {
    /// The call that is waited for.
    pub stage: CreationStage,
    /// What the window was asked to be.
    pub info: InitialInfo,
    /// The address of the user data of the window.
    pub user_data: usize,
    /// The handle of the window, once it is created.
    pub handle: isize,
    /// The dots per inch of its display, once they are known.
    pub dpi: u32,
}

/// A native window that has been created.
pub struct Native {
    pub handle: isize,
    pub user_data: usize,
}

/// How a creation goes on after an answer.
pub enum Step {
    /// Another call is waited for.
    Pending(Creation),
    /// The creation has ended, with the window or with an error.
    Finished(Result<Native, WindowHandlerError>),
}

impl Creation {
    /// Whether the creation holds what its stage needs: the address of the
    /// user data and, from the query for the dots per inch on, the handle of
    /// the window that was created.
    pub open spec fn wf(self) -> bool {
        &&& self.user_data != 0
        &&& match self.stage {
            CreationStage::RegisterClass | CreationStage::CreateWindow => true,
            _ => self.handle != 0,
        }
    }

    /// The creation at another stage.
    pub open spec fn at(self, stage: CreationStage) -> Creation {
        Creation { stage, ..self }
    }

    /// The physical width that the window is given.
    pub open spec fn physical_width(self) -> i32 {
        clamp_i32(scaled(self.info.width as int, self.dpi as int)) as i32
    }

    /// The physical height that the window is given.
    pub open spec fn physical_height(self) -> i32 {
        clamp_i32(scaled(self.info.height as int, self.dpi as int)) as i32
    }

    /// The call that the creation waits for.
    pub open spec fn request(self) -> Request {
        match self.stage {
            CreationStage::RegisterClass => Request::RegisterClass {
                name: native_string(class_name()),
                style: CLASS_STYLE,
                cursor: CLASS_CURSOR,
                background: BACKGROUND_COLOR,
            },
            CreationStage::CreateWindow => Request::CreateWindow {
                class_name: native_string(class_name()),
                title: native_string(self.info.title),
                style: WS_OVERLAPPEDWINDOW,
                ex_style: WINDOW_EX_STYLE,
                x: self.info.pos_x,
                y: self.info.pos_y,
                width: 0,
                height: 0,
                user_data: self.user_data,
            },
            CreationStage::QueryDpi => Request::QueryDpi { window: self.handle },
            CreationStage::Resize => Request::SetWindowPos {
                window: self.handle,
                x: 0,
                y: 0,
                width: self.physical_width(),
                height: self.physical_height(),
                flags: RESIZE_FLAGS,
            },
            CreationStage::Show => Request::ShowWindow { window: self.handle, command: SW_SHOW },
            CreationStage::Update => Request::UpdateWindow { window: self.handle },
        }
    }

    /// How the creation goes on after `reply`, where `classes` are registered.
    ///
    /// An answer that is not of the kind that the call gives counts as the
    /// failure of the call. The answers to showing and painting are not looked
    /// at.
    pub open spec fn step(self, reply: PlatformReply, classes: Seq<Seq<char>>) -> Step {
        match self.stage {
            CreationStage::RegisterClass => match registration_result(
                classes,
                class_name(),
                class_accepted(reply),
            ) {
                Ok(_) => Step::Pending(self.at(CreationStage::CreateWindow)),
                Err(error) => Step::Finished(
                    Err(WindowHandlerError::ClassRegistrationError(error)),
                ),
            },
            CreationStage::CreateWindow => if created_handle(reply) != 0 {
                Step::Pending(
                    Creation {
                        stage: CreationStage::QueryDpi,
                        handle: created_handle(reply),
                        ..self
                    },
                )
            } else {
                Step::Finished(
                    Err(
                        WindowHandlerError::CreateWindowError(
                            CreateWindowError::FailedToCreateWindow,
                        ),
                    ),
                )
            },
            CreationStage::QueryDpi => match reply {
                PlatformReply::Dpi { dpi } => Step::Pending(
                    Creation { stage: CreationStage::Resize, dpi, ..self },
                ),
                _ => Step::Finished(
                    Err(
                        WindowHandlerError::CreateWindowError(
                            CreateWindowError::UnableToEnableHiDpiSupport,
                        ),
                    ),
                ),
            },
            CreationStage::Resize => if call_succeeded(reply) {
                Step::Pending(self.at(CreationStage::Show))
            } else {
                Step::Finished(
                    Err(
                        WindowHandlerError::CreateWindowError(
                            CreateWindowError::UnableToEnableHiDpiSupport,
                        ),
                    ),
                )
            },
            CreationStage::Show => Step::Pending(self.at(CreationStage::Update)),
            CreationStage::Update => Step::Finished(
                Ok(Native { handle: self.handle, user_data: self.user_data }),
            ),
        }
    }

    /// The classes that are registered after `reply`: the answer to the
    /// registration of the class adds it, no other answer changes them.
    pub open spec fn classes_after(self, reply: PlatformReply, classes: Seq<Seq<char>>) -> Seq<
        Seq<char>,
    > {
        match self.stage {
            CreationStage::RegisterClass => registered_after(
                classes,
                class_name(),
                class_accepted(reply),
            ),
            _ => classes,
        }
    }
}

/// Whether `reply` says that the class is registered: the call gave an atom,
/// or it failed only because a class of this name exists already.
pub open spec fn class_accepted(reply: PlatformReply) -> bool {
    match reply {
        PlatformReply::Class { atom, error } => atom != 0 || error == ERROR_CLASS_ALREADY_EXISTS,
        _ => false,
    }
}

/// The handle in `reply`, zero where it holds none.
pub open spec fn created_handle(reply: PlatformReply) -> isize {
    match reply {
        PlatformReply::Window { handle } => handle,
        _ => 0,
    }
}

/// Whether `reply` says that a call succeeded.
pub open spec fn call_succeeded(reply: PlatformReply) -> bool {
    reply == (PlatformReply::Done { ok: true })
}

/// The creation of a window of `info` as it begins: with the registration of
/// the class, or, where `classes` hold it already, with the window itself.
pub open spec fn begin(info: InitialInfo, user_data: usize, classes: Seq<Seq<char>>) -> Creation {
    Creation {
        stage: if classes.contains(class_name()) {
            CreationStage::CreateWindow
        } else {
            CreationStage::RegisterClass
        },
        info,
        user_data,
        handle: 0,
        dpi: 0,
    }
}

impl View for WindowCreation {
    type V = Creation;

    closed spec fn view(&self) -> Creation {
        Creation {
            stage: self.stage,
            info: self.info@,
            user_data: self.userdata.address(),
            handle: self.handle,
            dpi: self.dpi,
        }
    }
}

impl View for NativeWindow {
    type V = Native;

    open spec fn view(&self) -> Native {
        Native { handle: self.handle(), user_data: self.user_data() }
    }
}

/// What a creation has come to: it waits for another call, or it has ended.
pub enum CreationStep {
    Pending(WindowCreation),
    Finished(WindowHandlerResult<NativeWindow>),
}

impl View for CreationStep {
    type V = Step;

    open spec fn view(&self) -> Step {
        match self {
            CreationStep::Pending(creation) => Step::Pending(creation@),
            CreationStep::Finished(Ok(window)) => Step::Finished(Ok(window@)),
            CreationStep::Finished(Err(error)) => Step::Finished(Err(*error)),
        }
    }
}

impl WindowCreation {
    #[verifier::type_invariant]
    spec fn holds_what_its_stage_needs(&self) -> bool {
        self@.wf()
    }

    /// The call that the creation waits for.
    pub fn stage(&self) -> (stage: CreationStage)
        ensures
            stage == self@.stage,
    {
        self.stage
    }

    /// The address of the user data of the window, which is not null.
    pub fn user_data(&self) -> (address: usize)
        ensures
            address == self@.user_data,
            address != 0,
    {
        self.userdata.key()
    }

    /// The request that the creation waits for the answer to.
    pub fn request(&self) -> (request: PlatformRequest)
        ensures
            request@ == self@.request(),
            self@.wf(),
    {
        proof {
            use_type_invariant(self);
        }
        match self.stage {
            CreationStage::RegisterClass => WindowClassTemplate::standard().request(),
            CreationStage::CreateWindow => PlatformRequest::CreateWindow {
                class_name: to_utf16("ryswn"),
                title: to_utf16(self.info.title.as_str()),
                style: WS_OVERLAPPEDWINDOW,
                ex_style: WINDOW_EX_STYLE,
                x: self.info.pos_x,
                y: self.info.pos_y,
                width: 0,
                height: 0,
                user_data: self.userdata.key(),
            },
            CreationStage::QueryDpi => PlatformRequest::QueryDpi { window: self.handle },
            CreationStage::Resize => PlatformRequest::SetWindowPos {
                window: self.handle,
                x: 0,
                y: 0,
                width: scale_length(self.info.width, self.dpi),
                height: scale_length(self.info.height, self.dpi),
                flags: RESIZE_FLAGS,
            },
            CreationStage::Show => PlatformRequest::ShowWindow {
                window: self.handle,
                command: SW_SHOW,
            },
            CreationStage::Update => PlatformRequest::UpdateWindow { window: self.handle },
        }
    }
}

impl NativeWindow {
    /// Begins the creation of a window of `runner`: makes the user data of the
    /// window, and stops at the first call to the window system.
    pub fn new(runner: &mut EventRunner, info: WindowInitialInfo) -> (creation: WindowCreation)
        ensures
            creation@ == begin(
                info@,
                next_address(old(runner).last_address()),
                old(runner).classes(),
            ),
            creation@.user_data != 0,
            final(runner).last_address() == creation@.user_data,
            final(runner).handler() == old(runner).handler(),
            final(runner).classes() == old(runner).classes(),
    {
        let userdata = WindowUserData::new(runner);
        let stage = if runner.is_class_registered(&WindowClassTemplate::standard().name) {
            CreationStage::CreateWindow
        } else {
            CreationStage::RegisterClass
        };
        WindowCreation { stage, info, userdata, handle: 0, dpi: 0 }
    }

    /// Takes the creation one call further: `reply` is the answer of the window
    /// system to `creation.request()`.
    ///
    /// The window class is recorded with `runner` once it is registered, and
    /// is not unregistered when a later call fails. A window that was created
    /// but could not be given its size is not handed out.
    pub fn create_window(
        runner: &mut EventRunner,
        creation: WindowCreation,
        reply: PlatformReply,
    ) -> (step: CreationStep)
        ensures
            step@ == creation@.step(reply, old(runner).classes()),
            final(runner).classes() == creation@.classes_after(reply, old(runner).classes()),
            final(runner).handler() == old(runner).handler(),
            final(runner).last_address() == old(runner).last_address(),
            creation@.wf(),
    {
        proof {
            use_type_invariant(&creation);
        }
        let WindowCreation { stage, info, userdata, handle, dpi } = creation;
        match stage {
            CreationStage::RegisterClass => {
                let accepted = match reply {
                    PlatformReply::Class { atom, error } => atom != 0 || error
                        == ERROR_CLASS_ALREADY_EXISTS,
                    _ => false,
                };
                match runner.ensure_registered(&WindowClassTemplate::standard(), accepted) {
                    Ok(_) => CreationStep::Pending(
                        WindowCreation {
                            stage: CreationStage::CreateWindow,
                            info,
                            userdata,
                            handle,
                            dpi,
                        },
                    ),
                    Err(error) => CreationStep::Finished(
                        Err(WindowHandlerError::ClassRegistrationError(error)),
                    ),
                }
            },
            CreationStage::CreateWindow => {
                let created = match reply {
                    PlatformReply::Window { handle } => handle,
                    _ => 0,
                };
                if created != 0 {
                    CreationStep::Pending(
                        WindowCreation {
                            stage: CreationStage::QueryDpi,
                            info,
                            userdata,
                            handle: created,
                            dpi,
                        },
                    )
                } else {
                    CreationStep::Finished(
                        Err(
                            WindowHandlerError::CreateWindowError(
                                CreateWindowError::FailedToCreateWindow,
                            ),
                        ),
                    )
                }
            },
            CreationStage::QueryDpi => match reply {
                PlatformReply::Dpi { dpi: reported } => CreationStep::Pending(
                    WindowCreation {
                        stage: CreationStage::Resize,
                        info,
                        userdata,
                        handle,
                        dpi: reported,
                    },
                ),
                _ => CreationStep::Finished(
                    Err(
                        WindowHandlerError::CreateWindowError(
                            CreateWindowError::UnableToEnableHiDpiSupport,
                        ),
                    ),
                ),
            },
            CreationStage::Resize => {
                let resized = match reply {
                    PlatformReply::Done { ok } => ok,
                    _ => false,
                };
                if resized {
                    CreationStep::Pending(
                        WindowCreation { stage: CreationStage::Show, info, userdata, handle, dpi },
                    )
                } else {
                    CreationStep::Finished(
                        Err(
                            WindowHandlerError::CreateWindowError(
                                CreateWindowError::UnableToEnableHiDpiSupport,
                            ),
                        ),
                    )
                }
            },
            CreationStage::Show => CreationStep::Pending(
                WindowCreation { stage: CreationStage::Update, info, userdata, handle, dpi },
            ),
            CreationStage::Update => CreationStep::Finished(Ok(NativeWindow::bind(handle, userdata))),
        }
    }
}

/// How a creation goes on after a run of answers, one for each call in turn.
/// An answer that comes after the creation has ended is not looked at.
pub open spec fn run(creation: Creation, replies: Seq<PlatformReply>, classes: Seq<Seq<char>>) -> Step
    decreases replies.len(),
{
    if replies.len() == 0 {
        Step::Pending(creation)
    } else {
        match creation.step(replies[0], classes) {
            Step::Pending(next) => run(
                next,
                replies.drop_first(),
                creation.classes_after(replies[0], classes),
            ),
            Step::Finished(result) => Step::Finished(result),
        }
    }
}

/// The answers of a window system that does all it is asked: `class`, where
/// the class is asked for, the window made under `handle`, a display of `dpi`
/// dots per inch, and the window taking its size.
pub open spec fn answers(registered: bool, class: PlatformReply, handle: isize, dpi: u32) -> Seq<
    PlatformReply,
> {
    let after_class = seq![
        PlatformReply::Window { handle },
        PlatformReply::Dpi { dpi },
        PlatformReply::Done { ok: true },
    ];
    if registered {
        after_class
    } else {
        seq![class] + after_class
    }
}

/// A creation keeps what its stage needs, and a window that it ends with has a
/// handle that is not null.
pub proof fn lemma_step_keeps_the_handle(
    creation: Creation,
    reply: PlatformReply,
    classes: Seq<Seq<char>>,
)
    requires
        creation.wf(),
    ensures
        match creation.step(reply, classes) {
            Step::Pending(next) => next.wf() && next.info == creation.info && next.user_data
                == creation.user_data,
            Step::Finished(Ok(window)) => window.handle != 0 && window.user_data != 0
                && window.user_data == creation.user_data,
            Step::Finished(Err(_)) => true,
        },
{
}

/// Creating a window with a window system that does all it is asked yields
/// the window: whatever the position, the size and the title, and whatever is
/// answered to showing and painting, the creation ends with the window of the
/// handle that the window system gave, which is not null, bound to the user
/// data that the creation began with.
pub proof fn lemma_creation_succeeds(
    info: InitialInfo,
    user_data: usize,
    classes: Seq<Seq<char>>,
    class: PlatformReply,
    handle: isize,
    dpi: u32,
    shown: PlatformReply,
    painted: PlatformReply,
)
    requires
        class_accepted(class),
        handle != 0,
    ensures
        run(
            begin(info, user_data, classes),
            answers(classes.contains(class_name()), class, handle, dpi) + seq![shown, painted],
            classes,
        ) == Step::Finished(Ok(Native { handle, user_data })),
{
    let started = begin(info, user_data, classes);
    let registered = classes.contains(class_name());
    let replies = answers(registered, class, handle, dpi) + seq![shown, painted];
    let tail = seq![
        PlatformReply::Window { handle },
        PlatformReply::Dpi { dpi },
        PlatformReply::Done { ok: true },
        shown,
        painted,
    ];
    let creating = started.at(CreationStage::CreateWindow);
    let known = registered_after(classes, class_name(), true);
    assert(run(creating, tail, known) == Step::Finished(Ok(Native { handle, user_data }))) by {
        lemma_run_from_create(creating, handle, dpi, shown, painted, known);
    }
    if registered {
        assert(replies == tail);
        assert(known == classes);
    } else {
        assert(replies.drop_first() == tail);
        assert(replies[0] == class);
    }
}

/// From the call that creates the window on, a window system that does all it
/// is asked leads the creation to its window.
proof fn lemma_run_from_create(
    creating: Creation,
    handle: isize,
    dpi: u32,
    shown: PlatformReply,
    painted: PlatformReply,
    classes: Seq<Seq<char>>,
)
    requires
        creating.stage == CreationStage::CreateWindow,
        handle != 0,
    ensures
        run(
            creating,
            seq![
                PlatformReply::Window { handle },
                PlatformReply::Dpi { dpi },
                PlatformReply::Done { ok: true },
                shown,
                painted,
            ],
            classes,
        ) == Step::Finished(Ok(Native { handle, user_data: creating.user_data })),
{
    let r0 = seq![
        PlatformReply::Window { handle },
        PlatformReply::Dpi { dpi },
        PlatformReply::Done { ok: true },
        shown,
        painted,
    ];
    let r1 = seq![PlatformReply::Dpi { dpi }, PlatformReply::Done { ok: true }, shown, painted];
    let r2 = seq![PlatformReply::Done { ok: true }, shown, painted];
    let r3 = seq![shown, painted];
    let r4 = seq![painted];
    assert(r0.drop_first() == r1);
    assert(r1.drop_first() == r2);
    assert(r2.drop_first() == r3);
    assert(r3.drop_first() == r4);
    assert(r4.drop_first() == Seq::<PlatformReply>::empty());
    let c1 = Creation { stage: CreationStage::QueryDpi, handle, ..creating };
    let c2 = Creation { stage: CreationStage::Resize, dpi, ..c1 };
    let c3 = c2.at(CreationStage::Show);
    let c4 = c3.at(CreationStage::Update);
    assert(run(c4, r4, classes) == Step::Finished(
        Ok(Native { handle, user_data: creating.user_data }),
    ));
    assert(run(c3, r3, classes) == run(c4, r4, classes));
    assert(run(c2, r2, classes) == run(c3, r3, classes));
    assert(run(c1, r1, classes) == run(c2, r2, classes));
    assert(run(creating, r0, classes) == run(c1, r1, classes));
}

/// The window is given the size that its display asks for: whatever the
/// logical width and height, and whatever dots per inch the window system
/// reports for the new window, the call that follows sizes the window to the
/// width and the height, each multiplied by the dots per inch, divided by 96
/// and rounded. The call keeps the position, the place in the Z order and the
/// activation of the window, and does not redraw it.
///
/// A length that no `i32` holds cannot be applied: it is left out here.
pub proof fn lemma_applied_size(creation: Creation, dpi: u32, classes: Seq<Seq<char>>)
    requires
        creation.stage == CreationStage::QueryDpi,
        i32::MIN <= scaled(creation.info.width as int, dpi as int) <= i32::MAX,
        i32::MIN <= scaled(creation.info.height as int, dpi as int) <= i32::MAX,
    ensures
        creation.step(PlatformReply::Dpi { dpi }, classes) matches Step::Pending(sizing)
            && sizing.request() == (Request::SetWindowPos {
            window: creation.handle,
            x: 0,
            y: 0,
            width: scaled(creation.info.width as int, dpi as int) as i32,
            height: scaled(creation.info.height as int, dpi as int) as i32,
            flags: RESIZE_FLAGS,
        }),
{
}

/// The user data of a window makes the round trip through the window system:
/// the address that the creation hands over with the call that creates the
/// window is the address that the router binds at the creation message, and
/// gives back for every message after it.
pub proof fn lemma_window_recovers_its_user_data(
    creation: Creation,
    later: Seq<(u32, usize)>,
    message: u32,
    create_params: usize,
)
    requires
        creation.wf(),
        creation.stage == CreationStage::CreateWindow,
    ensures
        creation.request() matches Request::CreateWindow { user_data, .. } && user_data
            == creation.user_data && route(
            slot_after_all(route(0, WM_CREATE, user_data).slot, later),
            message,
            create_params,
        ).user_data == Some(creation.user_data),
{
    lemma_user_data_round_trip(creation.user_data, later, message, create_params);
}

} // verus!
