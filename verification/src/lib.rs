//! Prompting on the controlling terminal of a process.
//!
//! The library locates an interactive terminal, toggles its line-editing and
//! character-echo modes, and reads lines from it, so that a command-line
//! program can ask the user for input — including sensitive input such as
//! passwords — without the typed text appearing on the screen.
//!
//! The OS-facing side (file descriptors, `tcgetattr`/`tcsetattr`) lives behind
//! the [`device::TerminalDevice`] abstraction; the session logic on top of it
//! is verified against that abstraction, and [`sim::SimTerminal`] provides an
//! in-memory device for exercising it.

use vstd::prelude::*;

pub mod device;
pub mod discovery;
pub mod mode;
pub mod session;
pub mod sim;

pub use mode::TerminalMode;
pub use session::Terminal;

verus! {

/// Failure of a terminal operation.
#[derive(Clone, Copy, Debug, PartialEq, Eq, Structural)]
pub enum Error {
    /// No interactive terminal could be found for the process.
    NoTerminal,
    /// An OS call failed; carries the platform error code.
    Os(i32),
    /// Bytes read from the terminal were not valid UTF-8.
    InvalidUtf8,
}

/// Turns the return value of an OS mode call into a result, pairing a nonzero
/// return with the error code the caller observed.
pub fn check_ret(input: i32, errno: i32) -> (r: Result<(), Error>)
    ensures
        r is Ok <==> input == 0,
        input != 0 ==> r == Result::<(), Error>::Err(Error::Os(errno)),
{
    if input == 0 {
        Ok(())
    } else {
        Err(Error::Os(errno))
    }
}

} // verus!
