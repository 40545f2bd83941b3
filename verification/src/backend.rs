//! The choice of a backend, made once from what the caller found out about
//! the platform.

use vstd::prelude::*;
use crate::context::{held, provided, Cached, Handle, SharedContext};

verus! {

/// The two ways to drive a terminal.
#[derive(Clone, Copy, Debug, PartialEq, Eq, Structural)]
pub enum Backend {
    /// Escape sequences written to the output stream.
    Ansi,
    /// Calls to the console of the platform.
    NativeConsole,
}

/// What the caller found out about the platform before a session starts.
#[derive(Clone, Copy, Debug, PartialEq, Eq, Structural)]
pub struct Platform {
    /// The platform has a console of its own, driven by calls.
    pub native_console: bool,
    /// A terminal is attached to the process.
    pub attached: bool,
    /// The capability probe found that escape sequences are supported and to
    /// be preferred.
    pub ansi_preferred: bool,
    /// The result of acquiring the console handle; it is looked at only where
    /// the native backend is attempted.
    pub console_handle: Option<Handle>,
}

/// Whether the selector attempts the native backend: the platform has a
/// console, a terminal is attached, and escape sequences are not preferred.
pub open spec fn attempts_native(platform: Platform) -> bool {
    platform.native_console && platform.attached && !platform.ansi_preferred
}

/// The shared context once the selector has run: the handle is acquired only
/// where the native backend is attempted.
pub open spec fn context_after(platform: Platform, context: Cached) -> Cached {
    if attempts_native(platform) {
        provided(context, platform.console_handle)
    } else {
        context
    }
}

/// The backend for a platform. Without a native console it is always the
/// escape-sequence backend. With one, there is no backend where no terminal is
/// attached; otherwise the native backend is taken unless escape sequences are
/// preferred or the console handle cannot be had, in which cases the
/// escape-sequence backend is.
pub open spec fn selected(platform: Platform, context: Cached) -> Option<Backend> {
    if !platform.native_console {
        Some(Backend::Ansi)
    } else if !platform.attached {
        None
    } else if platform.ansi_preferred {
        Some(Backend::Ansi)
    } else if held(context_after(platform, context)) is Some {
        Some(Backend::NativeConsole)
    } else {
        Some(Backend::Ansi)
    }
}

/// The native backend is only ever selected together with its handle.
pub proof fn native_holds_handle(platform: Platform, context: Cached)
    ensures
        selected(platform, context) == Some(Backend::NativeConsole) ==> held(
            context_after(platform, context),
        ) is Some,
{
}

/// Selects the backend for `platform`, acquiring the console handle through
/// `context` where the native backend is attempted.
pub fn select(context: &mut SharedContext, platform: &Platform) -> (backend: Option<Backend>)
    ensures
        backend == selected(*platform, old(context)@),
        final(context)@ == context_after(*platform, old(context)@),
{
    if !platform.native_console {
        return Some(Backend::Ansi);
    }
    if !platform.attached {
        return None;
    }
    if platform.ansi_preferred {
        return Some(Backend::Ansi);
    }
    match context.provide(platform.console_handle) {
        Some(_) => Some(Backend::NativeConsole),
        None => Some(Backend::Ansi),
    }
}

} // verus!
