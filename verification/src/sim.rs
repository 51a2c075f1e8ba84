//! An in-memory terminal device.
//!
//! [`SimTerminal`] implements [`TerminalDevice`] over plain values: a mode
//! snapshot, a queue of bytes standing for what will be typed, and a buffer
//! collecting what is written to the screen. Every operation succeeds, so it
//! witnesses the infallible case of the device contract, and it lets the
//! session layer be exercised end to end without a real terminal.

use vstd::prelude::*;

use crate::Error;
use crate::device::TerminalDevice;
use crate::mode::TerminalMode;

verus! {

/// Terminal device backed by in-memory buffers; never fails.
pub struct SimTerminal {
    /// Current mode snapshot.
    pub mode: TerminalMode,
    /// Bytes not yet read, front first.
    pub input: Vec<u8>,
    /// Bytes written to the screen so far.
    pub output: Vec<u8>,
}

impl SimTerminal {
    /// A simulated terminal in mode `mode` whose user will type `input`.
    pub fn new(mode: TerminalMode, input: Vec<u8>) -> (t: SimTerminal)
        ensures
            t.mode() == mode,
            t.pending_input() == input@,
            t.written_output() == Seq::<u8>::empty(),
            t.infallible(),
    {
        SimTerminal { mode, input, output: Vec::new() }
    }

    /// The device's current mode snapshot.
    pub fn current_mode(&self) -> (m: TerminalMode)
        ensures
            m == self.mode(),
    {
        self.mode
    }

    /// The bytes written to the simulated screen so far.
    pub fn output_bytes(&self) -> (o: &Vec<u8>)
        ensures
            o@ == self.written_output(),
    {
        &self.output
    }

    /// The bytes not yet read from the simulated keyboard.
    pub fn remaining_input(&self) -> (i: &Vec<u8>)
        ensures
            i@ == self.pending_input(),
    {
        &self.input
    }
}

impl TerminalDevice for SimTerminal {
    open spec fn mode(&self) -> TerminalMode {
        self.mode
    }

    open spec fn pending_input(&self) -> Seq<u8> {
        self.input@
    }

    open spec fn written_output(&self) -> Seq<u8> {
        self.output@
    }

    open spec fn infallible(&self) -> bool {
        true
    }

    fn get_terminal_mode(&self) -> (r: Result<TerminalMode, Error>) {
        Ok(self.mode)
    }

    fn set_terminal_mode(&mut self, m: &TerminalMode) -> (r: Result<(), Error>) {
        self.mode = *m;
        Ok(())
    }

    fn read_byte(&mut self) -> (r: Result<Option<u8>, Error>) {
        if self.input.len() == 0 {
            Ok(None)
        } else {
            let b = self.input.remove(0);
            Ok(Some(b))
        }
    }

    fn write_bytes(&mut self, buf: &[u8]) -> (r: Result<(), Error>) {
        let mut i: usize = 0;
        while i < buf.len()
            invariant
                i <= buf.len(),
                self.mode == old(self).mode,
                self.input@ == old(self).input@,
                self.output@ == old(self).output@ + buf@.take(i as int),
            decreases buf.len() - i,
        {
            self.output.push(buf[i]);
            i = i + 1;
        }
        proof {
            assert(buf@.take(buf@.len() as int) =~= buf@);
            assert(self.output@ =~= old(self).output@ + buf@);
        }
        Ok(())
    }
}

} // verus!
