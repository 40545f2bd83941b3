//! The shared context of a terminal session: the console handle, acquired at
//! most once and remembered from then on.

use vstd::prelude::*;

verus! {

/// A console handle, as the platform gave it.
#[derive(Clone, Copy, Debug, PartialEq, Eq, Structural)]
pub struct Handle {
    pub raw: u64,
}

/// What a session knows of its console handle.
#[derive(Clone, Copy, Debug, PartialEq, Eq, Structural)]
pub enum Cached {
    /// Nobody has tried to acquire the handle yet.
    Untried,
    /// The handle was acquired, and this is it.
    Held(Handle),
    /// The one attempt to acquire the handle failed.
    Unavailable,
}

/// The cache of one session. It is filled by the first answer it is given and
/// never changes after that.
#[derive(Debug)]
pub struct SharedContext {
    handle: Cached,
}

/// The cache after it was offered the result of an acquisition: the first
/// result is kept, success or failure, and a later one is ignored.
pub open spec fn provided(before: Cached, acquired: Option<Handle>) -> Cached {
    match before {
        Cached::Untried => match acquired {
            Some(handle) => Cached::Held(handle),
            None => Cached::Unavailable,
        },
        _ => before,
    }
}

/// The handle that a cache holds, if it holds one.
pub open spec fn held(cached: Cached) -> Option<Handle> {
    match cached {
        Cached::Held(handle) => Some(handle),
        _ => None,
    }
}

impl View for SharedContext {
    type V = Cached;

    closed spec fn view(&self) -> Cached {
        self.handle
    }
}

impl SharedContext {
    /// The context of a new session: nothing has been acquired.
    pub fn new() -> (context: SharedContext)
        ensures
            context@ == Cached::Untried,
    {
        SharedContext { handle: Cached::Untried }
    }

    /// What the session knows of its handle. The answer `Untried` asks the
    /// caller to acquire the handle and to hand the result to `provide`.
    pub fn lookup(&self) -> (cached: Cached)
        ensures
            cached == self@,
    {
        self.handle
    }

    /// Takes the result of an acquisition and returns the session's handle.
    /// Only the first result offered is kept; where one is there already,
    /// `acquired` is ignored and the context stays as it was.
    pub fn provide(&mut self, acquired: Option<Handle>) -> (handle: Option<Handle>)
        ensures
            final(self)@ == provided(old(self)@, acquired),
            handle == held(final(self)@),
    {
        match self.handle {
            Cached::Untried => {
                self.handle = match acquired {
                    Some(handle) => Cached::Held(handle),
                    None => Cached::Unavailable,
                };
                acquired
            },
            Cached::Held(handle) => Some(handle),
            Cached::Unavailable => None,
        }
    }

    /// Ends the session: the handle that has to be given back to the platform,
    /// if one was acquired.
    pub fn release(self) -> (handle: Option<Handle>)
        ensures
            handle == held(self@),
    {
        match self.handle {
            Cached::Held(handle) => Some(handle),
            _ => None,
        }
    }
}

/// At most one acquisition counts: once a result was offered the cache is no
/// longer `Untried`, and whatever is offered after that changes nothing.
pub proof fn acquired_once(before: Cached, first: Option<Handle>, second: Option<Handle>)
    ensures
        provided(before, first) != Cached::Untried,
        provided(provided(before, first), second) == provided(before, first),
{
}

} // verus!
