//! The terminal itself: one backend, selected when the terminal is made, and
//! every operation handed on to it. The operations do not touch the platform:
//! each takes what the platform last said about the screen and returns what is
//! to be done.

use vstd::prelude::*;
use crate::ansi;
use crate::backend::{context_after, select, selected, Backend, Platform};
use crate::clear_type::ClearType;
use crate::console;
use crate::console::{ConsoleCall, ScreenInfo};
use crate::context::{held, Cached, Handle, SharedContext};

verus! {

/// What the platform said when it was last asked about the screen.
#[derive(Debug, PartialEq, Eq)]
pub enum Reading {
    /// Nothing: it was not asked, or it did not answer.
    Unavailable,
    /// The bytes with which the terminal answered the size query.
    Reply(Vec<u8>),
    /// The console's screen buffer information.
    Console(ScreenInfo),
}

/// What the caller has to do on behalf of an operation: write `output` to the
/// output stream, and make `calls` to the console, in order. For each
/// operation at most one of the two holds anything.
#[derive(Debug, PartialEq, Eq)]
pub struct Action {
    pub output: Vec<u8>,
    pub calls: Vec<ConsoleCall>,
}

/// An action as contracts speak of it.
pub struct ActionView {
    pub output: Seq<u8>,
    pub calls: Seq<ConsoleCall>,
}

impl View for Action {
    type V = ActionView;

    open spec fn view(&self) -> ActionView {
        ActionView { output: self.output@, calls: self.calls@ }
    }
}

/// The action that asks for nothing.
pub open spec fn nothing() -> ActionView {
    ActionView { output: Seq::empty(), calls: Seq::empty() }
}

/// The action that writes `bytes` and makes no call.
pub open spec fn written(bytes: Seq<u8>) -> ActionView {
    ActionView { output: bytes, calls: Seq::empty() }
}

/// The action that makes `calls` and writes nothing.
pub open spec fn called(calls: Seq<ConsoleCall>) -> ActionView {
    ActionView { output: Seq::empty(), calls }
}

/// What clearing asks for, by backend: nothing without one, the erase
/// sequence from the escape-sequence backend, the console's clear from the
/// native backend where the console's report is at hand.
pub open spec fn clear_action(backend: Option<Backend>, clear_type: ClearType, reading: Reading)
    -> ActionView {
    match backend {
        None => nothing(),
        Some(Backend::Ansi) => written(ansi::clear_sequence(clear_type)),
        Some(Backend::NativeConsole) => match reading {
            Reading::Console(screen) => called(console::clear_calls(clear_type, screen)),
            _ => nothing(),
        },
    }
}

/// What scrolling up asks for, by backend.
pub open spec fn scroll_up_action(backend: Option<Backend>, count: i16, reading: Reading)
    -> ActionView {
    match backend {
        None => nothing(),
        Some(Backend::Ansi) => written(ansi::scroll_up_sequence(count)),
        Some(Backend::NativeConsole) => match reading {
            Reading::Console(screen) => called(console::scroll_up_calls(count, screen)),
            _ => nothing(),
        },
    }
}

/// What scrolling down asks for, by backend.
pub open spec fn scroll_down_action(backend: Option<Backend>, count: i16, reading: Reading)
    -> ActionView {
    match backend {
        None => nothing(),
        Some(Backend::Ansi) => written(ansi::scroll_down_sequence(count)),
        Some(Backend::NativeConsole) => match reading {
            Reading::Console(screen) => called(console::scroll_down_calls(count, screen)),
            _ => nothing(),
        },
    }
}

/// What a resize asks for, by backend.
pub open spec fn resize_action(
    backend: Option<Backend>,
    width: i16,
    height: i16,
    reading: Reading,
) -> ActionView {
    match backend {
        None => nothing(),
        Some(Backend::Ansi) => written(ansi::resize_sequence(width, height)),
        Some(Backend::NativeConsole) => match reading {
            Reading::Console(screen) => called(console::resize_calls(width, height, screen)),
            _ => nothing(),
        },
    }
}

/// The size as (columns, rows), by backend: the escape-sequence backend reads
/// it from the terminal's reply, the native backend from the console's
/// report. It is (0, 0) without a backend, and where the reading is not of
/// the backend's kind or does not give a size.
pub open spec fn size_read(backend: Option<Backend>, reading: Reading) -> (u16, u16) {
    match (backend, reading) {
        (Some(Backend::Ansi), Reading::Reply(reply)) => ansi::size_from_reply(reply@),
        (Some(Backend::NativeConsole), Reading::Console(screen)) => console::window_size(screen),
        _ => (0u16, 0u16),
    }
}

/// Whether `next` is what the platform says about the screen once it has
/// carried out, to the letter, the resize that `action` asks for. A terminal
/// driven by escape sequences then reports its size with the bytes of the
/// request; a console then reports what its calls lead to. An action that asks
/// for nothing is no resize.
pub open spec fn resize_honoured(
    backend: Option<Backend>,
    reading: Reading,
    action: ActionView,
    next: Reading,
) -> bool {
    match backend {
        None => false,
        Some(Backend::Ansi) => match next {
            Reading::Reply(reply) => action.output.len() > 0 && reply@ == action.output,
            _ => false,
        },
        Some(Backend::NativeConsole) => match (reading, next) {
            (Reading::Console(before), Reading::Console(now)) => action.calls.len() > 0 && now
                == console::after(before, action.calls),
            _ => false,
        },
    }
}

/// Where the platform honours a resize to the letter, the size read
/// afterwards is the size that was asked for.
pub proof fn set_size_then_terminal_size(
    backend: Option<Backend>,
    width: i16,
    height: i16,
    reading: Reading,
    next: Reading,
)
    requires
        resize_honoured(backend, reading, resize_action(backend, width, height, reading), next),
    ensures
        size_read(backend, next) == (width as u16, height as u16),
{
    match backend {
        None => {},
        Some(Backend::Ansi) => {
            ansi::resize_then_size(width, height);
        },
        Some(Backend::NativeConsole) => match reading {
            Reading::Console(before) => {
                console::resize_then_size(before, width, height);
            },
            _ => {},
        },
    }
}

/// With the native backend, and a console that honours each request to the
/// letter: where scrolling up by `count` asks for something, or `count` is
/// zero, scrolling up by `count` and then down by `count` brings the window
/// back to where it was.
pub proof fn scroll_up_then_scroll_down(count: i16, screen: ScreenInfo)
    requires
        screen.coherent(),
        count == 0 || scroll_up_action(
            Some(Backend::NativeConsole),
            count,
            Reading::Console(screen),
        ).calls.len() > 0,
    ensures
        ({
            let backend = Some(Backend::NativeConsole);
            let up = scroll_up_action(backend, count, Reading::Console(screen));
            let between = console::after(screen, up.calls);
            let down = scroll_down_action(backend, count, Reading::Console(between));
            console::after(between, down.calls) == screen
        }),
{
    console::scroll_round_trip(screen, count);
}

impl Action {
    /// The action that asks for nothing.
    pub fn nothing() -> (action: Action)
        ensures
            action@ == nothing(),
    {
        Action { output: Vec::new(), calls: Vec::new() }
    }

    /// The action that writes `bytes`.
    pub fn write(bytes: Vec<u8>) -> (action: Action)
        ensures
            action@ == written(bytes@),
    {
        Action { output: bytes, calls: Vec::new() }
    }

    /// The action that makes `calls`.
    pub fn call(calls: Vec<ConsoleCall>) -> (action: Action)
        ensures
            action@ == called(calls@),
    {
        Action { output: Vec::new(), calls }
    }

    /// Whether the action asks for nothing.
    pub fn is_nothing(&self) -> (idle: bool)
        ensures
            idle == (self@ == nothing()),
    {
        let idle = self.output.len() == 0 && self.calls.len() == 0;
        proof {
            if idle {
                assert(self@.output =~= Seq::<u8>::empty());
                assert(self@.calls =~= Seq::<ConsoleCall>::empty());
            }
        }
        idle
    }
}

/// A terminal: the backend that was selected for it, if one was, and the
/// shared context of its session.
#[derive(Debug)]
pub struct Terminal {
    terminal: Option<Backend>,
    context: SharedContext,
}

/// A terminal as contracts speak of it.
pub struct TerminalView {
    pub backend: Option<Backend>,
    pub handle: Cached,
}

impl View for Terminal {
    type V = TerminalView;

    closed spec fn view(&self) -> TerminalView {
        TerminalView { backend: self.terminal, handle: self.context@ }
    }
}

impl Terminal {
    #[verifier::type_invariant]
    spec fn native_has_handle(self) -> bool {
        self.terminal == Some(Backend::NativeConsole) ==> held(self.context@) is Some
    }

    /// Makes a terminal for `platform`: starts a session and selects the
    /// backend, once and for all.
    pub fn new(platform: Platform) -> (terminal: Terminal)
        ensures
            terminal@.backend == selected(platform, Cached::Untried),
            terminal@.handle == context_after(platform, Cached::Untried),
    {
        let mut context = SharedContext::new();
        let terminal = select(&mut context, &platform);
        Terminal { terminal, context }
    }

    /// The backend that was selected; `None` where no backend could be had.
    pub fn backend(&self) -> (backend: Option<Backend>)
        ensures
            backend == self@.backend,
    {
        self.terminal
    }

    /// The shared context of the session.
    pub fn context(&self) -> (context: &SharedContext)
        ensures
            context@ == self@.handle,
    {
        &self.context
    }

    /// What has to be done to clear the region named by `clear_type`. Without
    /// a backend that is nothing.
    pub fn clear(&mut self, clear_type: ClearType, reading: &Reading) -> (action: Action)
        ensures
            *final(self) == *old(self),
            action@ == clear_action(old(self)@.backend, clear_type, *reading),
            old(self)@.backend is None ==> action@ == nothing(),
    {
        match self.terminal {
            None => Action::nothing(),
            Some(Backend::Ansi) => Action::write(ansi::clear(clear_type)),
            Some(Backend::NativeConsole) => match reading {
                Reading::Console(screen) => Action::call(console::clear(clear_type, screen)),
                _ => Action::nothing(),
            },
        }
    }

    /// The size of the terminal as (columns, rows), as `reading` gives it.
    /// Without a backend it is (0, 0), and so it is where `reading` gives no
    /// size. The terminal is left as it was, so that the same reading gives the
    /// same size however often it is asked.
    pub fn terminal_size(&mut self, reading: &Reading) -> (size: (u16, u16))
        ensures
            *final(self) == *old(self),
            size == size_read(old(self)@.backend, *reading),
            old(self)@.backend is None ==> size == (0u16, 0u16),
    {
        match self.terminal {
            None => (0, 0),
            Some(Backend::Ansi) => match reading {
                Reading::Reply(reply) => ansi::terminal_size(reply.as_slice()),
                _ => (0, 0),
            },
            Some(Backend::NativeConsole) => match reading {
                Reading::Console(screen) => console::terminal_size(screen),
                _ => (0, 0),
            },
        }
    }

    /// What has to be done to scroll up by `count` lines. Without a backend
    /// that is nothing.
    pub fn scroll_up(&mut self, count: i16, reading: &Reading) -> (action: Action)
        ensures
            *final(self) == *old(self),
            action@ == scroll_up_action(old(self)@.backend, count, *reading),
            old(self)@.backend is None ==> action@ == nothing(),
    {
        match self.terminal {
            None => Action::nothing(),
            Some(Backend::Ansi) => Action::write(ansi::scroll_up(count)),
            Some(Backend::NativeConsole) => match reading {
                Reading::Console(screen) => Action::call(console::scroll_up(count, screen)),
                _ => Action::nothing(),
            },
        }
    }

    /// What has to be done to scroll down by `count` lines. Without a backend
    /// that is nothing.
    pub fn scroll_down(&mut self, count: i16, reading: &Reading) -> (action: Action)
        ensures
            *final(self) == *old(self),
            action@ == scroll_down_action(old(self)@.backend, count, *reading),
            old(self)@.backend is None ==> action@ == nothing(),
    {
        match self.terminal {
            None => Action::nothing(),
            Some(Backend::Ansi) => Action::write(ansi::scroll_down(count)),
            Some(Backend::NativeConsole) => match reading {
                Reading::Console(screen) => Action::call(console::scroll_down(count, screen)),
                _ => Action::nothing(),
            },
        }
    }

    /// What has to be done to give the terminal `width` columns and `height`
    /// rows. Without a backend that is nothing.
    pub fn set_size(&mut self, width: i16, height: i16, reading: &Reading) -> (action: Action)
        ensures
            *final(self) == *old(self),
            action@ == resize_action(old(self)@.backend, width, height, *reading),
            old(self)@.backend is None ==> action@ == nothing(),
    {
        match self.terminal {
            None => Action::nothing(),
            Some(Backend::Ansi) => Action::write(ansi::set_size(width, height)),
            Some(Backend::NativeConsole) => match reading {
                Reading::Console(screen) => Action::call(console::set_size(width, height, screen)),
                _ => Action::nothing(),
            },
        }
    }

    /// Ends the session: the console handle that has to be given back to the
    /// platform, if one was acquired. A terminal with the native backend always
    /// has one.
    pub fn close(self) -> (handle: Option<Handle>)
        ensures
            handle == held(self@.handle),
            self@.backend == Some(Backend::NativeConsole) ==> handle is Some,
    {
        proof {
            use_type_invariant(&self);
        }
        self.context.release()
    }
}

/// Makes a terminal for `platform` on the heap.
pub fn terminal(platform: Platform) -> (terminal: Box<Terminal>)
    ensures
        terminal@.backend == selected(platform, Cached::Untried),
        terminal@.handle == context_after(platform, Cached::Untried),
{
    Box::new(Terminal::new(platform))
}

} // verus!
