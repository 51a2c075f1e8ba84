//! The capability contract of a terminal device.
//!
//! A [`TerminalDevice`] is the boundary between the session logic and a
//! concrete terminal: it can report and change its mode snapshot, hand out the
//! bytes typed on it, and accept bytes for its screen. The session layer is
//! verified against this contract alone, so any implementor — the in-memory
//! [`crate::sim::SimTerminal`], or an OS-backed device supplied by the
//! embedding program — gets the same verified behaviour on top.
//!
//! Abstractly a device carries a mode snapshot, a stream of bytes still to be
//! read, and the bytes written to it so far. A device whose `infallible`
//! holds never fails an operation; the stronger clauses of the session layer
//! are stated under that assumption, which the simulated terminal meets.

use vstd::prelude::*;

use crate::Error;
use crate::mode::TerminalMode;

verus! {

/// Capability contract for a terminal: mode get/set plus raw byte I/O.
pub trait TerminalDevice: Sized {
    /// The device's current mode snapshot.
    ///
    /// Unknown for a device that does not say; an implementor overrides this
    /// with its model.
    open spec fn mode(&self) -> TerminalMode {
        vstd::pervasive::arbitrary()
    }

    /// The bytes still to be read from the device, in order.
    ///
    /// Unknown for a device that does not say; an implementor overrides this
    /// with its model.
    open spec fn pending_input(&self) -> Seq<u8> {
        vstd::pervasive::arbitrary()
    }

    /// The bytes written to the device so far, in order.
    ///
    /// Unknown for a device that does not say; an implementor overrides this
    /// with its model.
    open spec fn written_output(&self) -> Seq<u8> {
        vstd::pervasive::arbitrary()
    }

    /// Whether every operation on this device is guaranteed to succeed.
    ///
    /// Unknown for a device that does not say; an implementor overrides this
    /// with its model.
    open spec fn infallible(&self) -> bool {
        vstd::pervasive::arbitrary()
    }

    /// Report the device's current mode.
    fn get_terminal_mode(&self) -> (r: Result<TerminalMode, Error>)
        ensures
            r is Ok ==> r->Ok_0 == self.mode(),
            self.infallible() ==> r is Ok,
    ;

    /// Change the device's mode to `m`, applied immediately.
    ///
    /// A failed call leaves the mode as it was; input and output are never
    /// touched.
    fn set_terminal_mode(&mut self, m: &TerminalMode) -> (r: Result<(), Error>)
        ensures
            r is Ok ==> final(self).mode() == *m,
            r is Err ==> final(self).mode() == old(self).mode(),
            final(self).pending_input() == old(self).pending_input(),
            final(self).written_output() == old(self).written_output(),
            final(self).infallible() == old(self).infallible(),
            old(self).infallible() ==> r is Ok,
    ;

    /// Read the next byte, or `None` once the input is exhausted.
    ///
    /// A failed call consumes nothing; mode and output are never touched.
    fn read_byte(&mut self) -> (r: Result<Option<u8>, Error>)
        ensures
            final(self).mode() == old(self).mode(),
            final(self).written_output() == old(self).written_output(),
            final(self).infallible() == old(self).infallible(),
            old(self).infallible() ==> r is Ok,
            match r {
                Ok(Some(b)) => {
                    &&& old(self).pending_input().len() > 0
                    &&& b == old(self).pending_input()[0]
                    &&& final(self).pending_input() == old(self).pending_input().drop_first()
                },
                Ok(None) => {
                    &&& old(self).pending_input().len() == 0
                    &&& final(self).pending_input() == old(self).pending_input()
                },
                Err(_) => final(self).pending_input() == old(self).pending_input(),
            },
    ;

    /// Write all of `buf` to the device.
    ///
    /// A failed call writes nothing; mode and input are never touched.
    fn write_bytes(&mut self, buf: &[u8]) -> (r: Result<(), Error>)
        ensures
            final(self).mode() == old(self).mode(),
            final(self).pending_input() == old(self).pending_input(),
            final(self).infallible() == old(self).infallible(),
            old(self).infallible() ==> r is Ok,
            r is Ok ==> final(self).written_output() == old(self).written_output() + buf@,
            r is Err ==> final(self).written_output() == old(self).written_output(),
    ;
}

} // verus!
