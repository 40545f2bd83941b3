//! Terminal control without input or output: the library decides what has to
//! be written to the output stream or asked of the console, and the caller
//! carries it out.

pub mod ansi;
pub mod backend;
pub mod clear_type;
pub mod console;
pub mod context;
pub mod decimal;
pub mod terminal;

pub use backend::{Backend, Platform};
pub use clear_type::ClearType;
pub use console::{ConsoleCall, ScreenInfo};
pub use context::{Cached, Handle, SharedContext};
pub use terminal::{terminal, Action, Reading, Terminal};
