//! Window classes: the template that the windows of this library share, and
//! the record of what has been registered.

use crate::error::ClassRegistrationError;
use crate::platform::{PlatformRequest, Request, BACKGROUND_COLOR, CLASS_CURSOR, CLASS_STYLE};
use crate::text::{native_string, to_utf16};
use vstd::prelude::*;

verus! {

/// The name of the class of every window that this library creates.
pub open spec fn class_name() -> Seq<char> {
    "ryswn"@
}

/// A named bundle of what the windows of a class have in common. The entry
/// point for their messages is the same for every class.
#[derive(Debug, PartialEq, Eq)]
pub struct WindowClassTemplate {
    pub name: String,
    pub style: u32,
    pub cursor: u32,
    pub background: u32,
}

impl WindowClassTemplate {
    /// The template of this library's windows: redrawn on any change of size,
    /// with the arrow for a cursor on a black background.
    pub fn standard() -> (template: Self)
        ensures
            template.name@ == class_name(),
            template.style == CLASS_STYLE,
            template.cursor == CLASS_CURSOR,
            template.background == BACKGROUND_COLOR,
    {
        WindowClassTemplate {
            name: "ryswn".to_owned(),
            style: CLASS_STYLE,
            cursor: CLASS_CURSOR,
            background: BACKGROUND_COLOR,
        }
    }

    /// The request that registers this template.
    pub open spec fn registration(&self) -> Request {
        Request::RegisterClass {
            name: native_string(self.name@),
            style: self.style,
            cursor: self.cursor,
            background: self.background,
        }
    }

    /// The request that registers this template.
    pub fn request(&self) -> (request: PlatformRequest)
        ensures
            request@ == self.registration(),
    {
        PlatformRequest::RegisterClass {
            name: to_utf16(self.name.as_str()),
            style: self.style,
            cursor: self.cursor,
            background: self.background,
        }
    }
}

/// What `ensure_registered` answers for the class `name`, where `classes` are
/// registered and the window system, if it is asked, answers `accepted`.
pub open spec fn registration_result(
    classes: Seq<Seq<char>>,
    name: Seq<char>,
    accepted: bool,
) -> Result<(), ClassRegistrationError> {
    if classes.contains(name) || accepted {
        Ok(())
    } else {
        Err(ClassRegistrationError::Rejected)
    }
}

/// The classes that are registered after `ensure_registered`.
pub open spec fn registered_after(
    classes: Seq<Seq<char>>,
    name: Seq<char>,
    accepted: bool,
) -> Seq<Seq<char>> {
    if !classes.contains(name) && accepted {
        classes.push(name)
    } else {
        classes
    }
}

/// The classes that have been registered, in the order of their registration.
pub struct WindowClassRegistry {
    names: Vec<String>,
}

impl View for WindowClassRegistry {
    type V = Seq<Seq<char>>;

    closed spec fn view(&self) -> Seq<Seq<char>> {
        Seq::new(self.names@.len(), |i: int| self.names@[i]@)
    }
}

impl WindowClassRegistry {
    /// A registry without classes.
    pub fn new() -> (registry: Self)
        ensures
            registry@ == Seq::<Seq<char>>::empty(),
    {
        WindowClassRegistry { names: Vec::new() }
    }

    /// The number of registered classes.
    pub fn count(&self) -> (count: usize)
        ensures
            count == self@.len(),
    {
        self.names.len()
    }

    /// Whether a class of this name is registered.
    pub fn is_registered(&self, name: &String) -> (found: bool)
        ensures
            found == self@.contains(name@),
    {
        let mut index: usize = 0;
        while index < self.names.len()
            invariant
                index <= self.names@.len(),
                forall|i: int| 0 <= i < index ==> self@[i] != name@,
            decreases self.names@.len() - index,
        {
            if self.names[index] == *name {
                assert(self@[index as int] == name@);
                return true;
            }
            index += 1;
        }
        false
    }

    /// Makes sure that the class of `template` is registered. A class that is
    /// registered already stays as it is, and the window system is not asked
    /// again. Otherwise `accepted` is its answer to the template's request:
    /// an accepted class is recorded, a refused one is an error and is not
    /// asked for a second time by this call.
    pub fn ensure_registered(&mut self, template: &WindowClassTemplate, accepted: bool) -> (result:
        Result<(), ClassRegistrationError>)
        ensures
            result == registration_result(old(self)@, template.name@, accepted),
            final(self)@ == registered_after(old(self)@, template.name@, accepted),
    {
        if self.is_registered(&template.name) {
            Ok(())
        } else if accepted {
            let ghost before = self@;
            self.names.push(template.name.clone());
            assert(self@ == before.push(template.name@));
            Ok(())
        } else {
            Err(ClassRegistrationError::Rejected)
        }
    }
}

/// Registering a class a second time is no error and adds no class: after a
/// registration that succeeded, another one of the same name succeeds whatever
/// the window system would answer, and leaves the registered classes, and so
/// their number, as they are.
pub proof fn lemma_registration_is_idempotent(
    classes: Seq<Seq<char>>,
    name: Seq<char>,
    first: bool,
    second: bool,
)
    requires
        registration_result(classes, name, first) is Ok,
    ensures
        ({
            let once = registered_after(classes, name, first);
            &&& registration_result(once, name, second) is Ok
            &&& registered_after(once, name, second) == once
            &&& registered_after(once, name, second).len() == once.len()
        }),
{
    let once = registered_after(classes, name, first);
    if !classes.contains(name) {
        assert(once.last() == name);
    }
}

/// A registration keeps each name once: where no name occurs twice before, none
/// does after, and the class asked for occurs exactly once after a success.
pub proof fn lemma_registration_keeps_names_distinct(
    classes: Seq<Seq<char>>,
    name: Seq<char>,
    accepted: bool,
)
    requires
        classes.no_duplicates(),
    ensures
        registered_after(classes, name, accepted).no_duplicates(),
        registration_result(classes, name, accepted) is Ok ==> registered_after(
            classes,
            name,
            accepted,
        ).contains(name),
        registered_after(classes, name, accepted).len() <= classes.len() + 1,
{
    let after = registered_after(classes, name, accepted);
    if !classes.contains(name) && accepted {
        assert(after.last() == name);
    }
}

} // verus!
