//! Terminal discovery: deciding which stream is the interactive terminal.
//!
//! The probing itself — asking the OS whether a stream is a terminal, opening
//! the controlling-terminal device — is outside work; the embedding program
//! collects its answers into a [`ProbeReport`] and the decision is made here.
//!
//! On POSIX-style targets the standard streams are probed in the order
//! standard error, standard input, standard output, and the first one the OS
//! reports as an interactive terminal is selected. This order is part of the
//! public contract: it determines which stream later receives prompt writes
//! when more than one is a terminal. If no standard stream qualifies, the
//! controlling-terminal device is the fallback; it is selected only if it
//! could be opened and is itself a terminal. With the fallback exhausted too,
//! discovery fails with [`Error::NoTerminal`].
//!
//! On console-API targets there is no fallback device: standard input and
//! standard error must each independently be a console.

use vstd::prelude::*;

use crate::Error;

verus! {

/// The stream or device selected by discovery.
#[derive(Clone, Copy, Debug, PartialEq, Eq, Structural)]
pub enum StreamChoice {
    /// The standard-error stream, borrowed.
    Stderr,
    /// The standard-input stream, borrowed.
    Stdin,
    /// The standard-output stream, borrowed.
    Stdout,
    /// The controlling-terminal device, opened and owned.
    Device,
}

/// What probing the OS reported about each candidate stream.
#[derive(Clone, Copy, Debug, PartialEq, Eq, Structural)]
pub struct ProbeReport {
    /// Standard error is an interactive terminal.
    pub stderr_is_tty: bool,
    /// Standard input is an interactive terminal.
    pub stdin_is_tty: bool,
    /// Standard output is an interactive terminal.
    pub stdout_is_tty: bool,
    /// The controlling-terminal device could be opened read-write.
    pub device_opens: bool,
    /// The opened controlling-terminal device is itself a terminal.
    pub device_is_tty: bool,
}

/// The stream discovery selects for a given probe report, in the documented
/// priority order, or `NoTerminal` when nothing qualifies.
pub open spec fn discovery_outcome(p: ProbeReport) -> Result<StreamChoice, Error> {
    if p.stderr_is_tty {
        Ok(StreamChoice::Stderr)
    } else if p.stdin_is_tty {
        Ok(StreamChoice::Stdin)
    } else if p.stdout_is_tty {
        Ok(StreamChoice::Stdout)
    } else if p.device_opens && p.device_is_tty {
        Ok(StreamChoice::Device)
    } else {
        Err(Error::NoTerminal)
    }
}

/// Select the terminal for the process from a probe report.
///
/// The first standard stream the OS reported as a terminal wins, in the order
/// standard error, standard input, standard output; then the
/// controlling-terminal device as fallback; otherwise discovery has found no
/// interactive terminal.
pub fn choose_stream(p: &ProbeReport) -> (r: Result<StreamChoice, Error>)
    ensures
        r == discovery_outcome(*p),
{
    if p.stderr_is_tty {
        Ok(StreamChoice::Stderr)
    } else if p.stdin_is_tty {
        Ok(StreamChoice::Stdin)
    } else if p.stdout_is_tty {
        Ok(StreamChoice::Stdout)
    } else if p.device_opens && p.device_is_tty {
        Ok(StreamChoice::Device)
    } else {
        Err(Error::NoTerminal)
    }
}

/// Check the console-API discovery requirement: standard input and standard
/// error must each independently be a console; there is no fallback device.
pub fn check_console_streams(input_is_console: bool, output_is_console: bool) -> (r: Result<
    (),
    Error,
>)
    ensures
        r is Ok <==> input_is_console && output_is_console,
        r is Err ==> r == Result::<(), Error>::Err(Error::NoTerminal),
{
    if input_is_console && output_is_console {
        Ok(())
    } else {
        Err(Error::NoTerminal)
    }
}

} // verus!
