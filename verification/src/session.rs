//! The prompting session on top of a terminal device.
//!
//! A [`Terminal`] owns a [`TerminalDevice`], the mode captured when the
//! session was opened, and a mirror of the device's current mode. Opening a
//! session enables line editing and nothing else; the mirror is updated in the
//! same operation as every successful mode change, so querying the echo state
//! is a pure read that never talks to the device. Closing the session
//! restores the mode captured at open time, best-effort.
//!
//! The stronger guarantees — success of each operation, exact restoration in
//! `prompt_sensitive` and `close` — are stated under the device's
//! `infallible`; what holds of every device is stated unconditionally.

use vstd::prelude::*;
use vstd::utf8::{decode_utf8, encode_utf8, valid_utf8};

use crate::Error;
use crate::device::TerminalDevice;
use crate::mode::TerminalMode;

verus! {

/// The byte a terminal line ends with.
pub open spec fn line_feed() -> u8 {
    10u8
}

/// Number of bytes the next line occupies in `input`: everything up to and
/// including the first line feed, or all of `input` if it has none.
pub open spec fn line_end(input: Seq<u8>) -> int
    decreases input.len(),
{
    if input.len() == 0 {
        0
    } else if input[0] == line_feed() {
        1
    } else {
        1 + line_end(input.drop_first())
    }
}

/// The next line of `input`, line feed included if present.
pub open spec fn raw_line(input: Seq<u8>) -> Seq<u8> {
    input.take(line_end(input))
}

/// What remains of `input` after its next line.
pub open spec fn rest_after_line(input: Seq<u8>) -> Seq<u8> {
    input.skip(line_end(input))
}

/// `line` with exactly one trailing line feed removed if it has one, and
/// unchanged otherwise.
pub open spec fn strip_line_terminator(line: Seq<u8>) -> Seq<u8> {
    if line.len() > 0 && line[line.len() - 1] == line_feed() {
        line.drop_last()
    } else {
        line
    }
}

/// The next line takes at most the whole input, and consuming it splits the
/// input exactly: the line followed by the rest is the input again.
pub proof fn lemma_line_split(input: Seq<u8>)
    ensures
        0 <= line_end(input) <= input.len(),
        raw_line(input) + rest_after_line(input) =~= input,
    decreases input.len(),
{
    if input.len() == 0 {
    } else if input[0] == line_feed() {
    } else {
        lemma_line_split(input.drop_first());
    }
}

/// Stripping removes exactly one trailing line feed when there is one and
/// nothing otherwise: the stripped line never ends in a line feed that the
/// line itself did not duplicate, and an unterminated line is unchanged.
pub proof fn lemma_strip_line_terminator(line: Seq<u8>)
    ensures
        line.len() > 0 && line[line.len() - 1] == line_feed() ==> strip_line_terminator(line)
            =~= line.take(line.len() - 1),
        !(line.len() > 0 && line[line.len() - 1] == line_feed()) ==> strip_line_terminator(line)
            =~= line,
{
}

proof fn lemma_line_end_no_feed(s: Seq<u8>)
    requires
        forall|i: int| 0 <= i < s.len() ==> s[i] != line_feed(),
    ensures
        line_end(s) == s.len(),
    decreases s.len(),
{
    if s.len() > 0 {
        lemma_line_end_no_feed(s.drop_first());
    }
}

proof fn lemma_line_end_prefix(pre: Seq<u8>, rest: Seq<u8>)
    requires
        forall|i: int| 0 <= i < pre.len() ==> pre[i] != line_feed(),
        rest.len() > 0,
        rest[0] == line_feed(),
    ensures
        line_end(pre + rest) == pre.len() + 1,
    decreases pre.len(),
{
    if pre.len() == 0 {
        assert(pre + rest =~= rest);
    } else {
        assert((pre + rest).drop_first() =~= pre.drop_first() + rest);
        lemma_line_end_prefix(pre.drop_first(), rest);
    }
}

/// Relies on String::from_utf8: it succeeds exactly on the byte sequences
/// that are valid UTF-8, and returns the string made of those very bytes.
#[verifier::external_body]
fn string_from_utf8(bytes: Vec<u8>) -> (r: Option<String>)
    ensures
        r is Some <==> valid_utf8(bytes@),
        r matches Some(s) ==> encode_utf8(s@) == bytes@ && s@ == decode_utf8(bytes@),
{
    String::from_utf8(bytes).ok()
}

/// Read bytes off `device` up to and including the first line feed, or up to
/// the end of its input.
fn read_raw_line<D: TerminalDevice>(device: &mut D) -> (r: Result<Vec<u8>, Error>)
    ensures
        final(device).mode() == old(device).mode(),
        final(device).written_output() == old(device).written_output(),
        final(device).infallible() == old(device).infallible(),
        old(device).infallible() ==> r is Ok,
        r matches Ok(line) ==> {
            &&& line@ == raw_line(old(device).pending_input())
            &&& final(device).pending_input() == rest_after_line(old(device).pending_input())
        },
{
    let ghost input0 = device.pending_input();
    let mut buf: Vec<u8> = Vec::new();
    loop
        invariant_except_break
            forall|i: int| 0 <= i < buf@.len() ==> buf@[i] != line_feed(),
            input0 == buf@ + device.pending_input(),
        invariant
            device.mode() == old(device).mode(),
            device.written_output() == old(device).written_output(),
            device.infallible() == old(device).infallible(),
        ensures
            buf@ == raw_line(input0),
            device.pending_input() == rest_after_line(input0),
        decreases device.pending_input().len(),
    {
        let ghost pending = device.pending_input();
        let ghost pre = buf@;
        match device.read_byte() {
            Err(e) => {
                return Err(e);
            },
            Ok(None) => {
                proof {
                    lemma_line_end_no_feed(buf@);
                    assert(input0 =~= buf@);
                    assert(buf@ =~= raw_line(input0));
                    assert(device.pending_input() =~= rest_after_line(input0));
                }
                break;
            },
            Ok(Some(b)) => {
                buf.push(b);
                if b == 10u8 {
                    proof {
                        lemma_line_end_prefix(pre, pending);
                        assert(input0 =~= pre + pending);
                        assert(line_end(input0) == pre.len() + 1);
                        assert(buf@ =~= raw_line(input0));
                        assert(device.pending_input() =~= rest_after_line(input0));
                    }
                    break;
                }
                proof {
                    assert(input0 =~= buf@ + device.pending_input());
                }
            },
        }
    }
    proof {
        assert(input0 == old(device).pending_input());
    }
    Ok(buf)
}

/// A session on the terminal associated with the current process.
///
/// Once opened, [`Self::prompt()`] reads non-sensitive data from the terminal
/// and [`Self::prompt_sensitive()`] reads sensitive data like passwords.
/// Echoing can also be toggled by hand with [`Self::enable_echo()`] and
/// [`Self::disable_echo()`], around the raw [`Self::read_byte()`] and
/// [`Self::write_bytes()`] passthroughs.
///
/// When opened, the terminal is put in line-editing mode; closing the session
/// restores the mode it had at open time. The terminal is inherently a global
/// resource: sessions must be used one at a time and torn down in creation
/// order, or the terminal can be left in an unexpected mode.
pub struct Terminal<D: TerminalDevice> {
    device: D,
    initial_mode: TerminalMode,
    current_mode: TerminalMode,
}

impl<D: TerminalDevice> Terminal<D> {
    /// The device this session owns.
    pub closed spec fn dev(&self) -> D {
        self.device
    }

    /// The device mode captured when the session was opened.
    pub closed spec fn initial(&self) -> TerminalMode {
        self.initial_mode
    }

    /// The session's mirror of the device's current mode.
    pub closed spec fn current(&self) -> TerminalMode {
        self.current_mode
    }

    /// The mirror is in sync with the device: mode state has a single source
    /// of truth.
    pub open spec fn wf(&self) -> bool {
        self.current() == self.dev().mode()
    }

    /// Open a session over `device`.
    ///
    /// Captures the device's mode as the session's initial mode, then applies
    /// the same mode with line editing enabled. The echo facet is left
    /// exactly as the device had it.
    pub fn open(device: D) -> (r: Result<Terminal<D>, Error>)
        ensures
            r matches Ok(t) ==> {
                &&& t.wf()
                &&& t.initial() == device.mode()
                &&& t.current() == device.mode().with_line_editing(true)
                &&& t.dev().pending_input() == device.pending_input()
                &&& t.dev().written_output() == device.written_output()
                &&& t.dev().infallible() == device.infallible()
            },
            device.infallible() ==> r is Ok,
    {
        let mut device = device;
        let initial_mode = match device.get_terminal_mode() {
            Ok(m) => m,
            Err(e) => return Err(e),
        };
        let mut current_mode = initial_mode;
        current_mode.enable_line_editing();
        match device.set_terminal_mode(&current_mode) {
            Ok(()) => (),
            Err(e) => return Err(e),
        };
        Ok(Terminal { device, initial_mode, current_mode })
    }

    /// Check if the terminal is echoing input.
    ///
    /// If enabled, any text typed on the terminal will be visible. Pure read
    /// of the session's mode mirror; never talks to the device.
    pub fn is_echo_enabled(&self) -> (b: bool)
        ensures
            b == self.current().echo_on(),
    {
        self.current_mode.is_echo_enabled()
    }

    /// The device mode captured when the session was opened.
    pub fn initial_mode(&self) -> (m: TerminalMode)
        ensures
            m == self.initial(),
    {
        self.initial_mode
    }

    /// The session's mirror of the device's current mode.
    pub fn current_mode(&self) -> (m: TerminalMode)
        ensures
            m == self.current(),
    {
        self.current_mode
    }

    /// Disable echoing of terminal input, so that text typed on the terminal —
    /// a password being entered, say — stays invisible.
    ///
    /// Only the echo facet changes; line editing is untouched.
    pub fn disable_echo(&mut self) -> (r: Result<(), Error>)
        requires
            old(self).wf(),
        ensures
            final(self).wf(),
            final(self).initial() == old(self).initial(),
            final(self).dev().pending_input() == old(self).dev().pending_input(),
            final(self).dev().written_output() == old(self).dev().written_output(),
            final(self).dev().infallible() == old(self).dev().infallible(),
            r is Ok ==> final(self).current() == old(self).current().with_echo(false),
            r is Err ==> final(self).current() == old(self).current(),
            old(self).dev().infallible() ==> r is Ok,
    {
        let mut mode = self.current_mode;
        mode.disable_echo();
        match self.device.set_terminal_mode(&mode) {
            Ok(()) => {
                self.current_mode = mode;
                Ok(())
            },
            Err(e) => Err(e),
        }
    }

    /// Enable echoing of terminal input, making typed text visible again.
    ///
    /// Only the echo facet changes; line editing is untouched.
    pub fn enable_echo(&mut self) -> (r: Result<(), Error>)
        requires
            old(self).wf(),
        ensures
            final(self).wf(),
            final(self).initial() == old(self).initial(),
            final(self).dev().pending_input() == old(self).dev().pending_input(),
            final(self).dev().written_output() == old(self).dev().written_output(),
            final(self).dev().infallible() == old(self).dev().infallible(),
            r is Ok ==> final(self).current() == old(self).current().with_echo(true),
            r is Err ==> final(self).current() == old(self).current(),
            old(self).dev().infallible() ==> r is Ok,
    {
        let mut mode = self.current_mode;
        mode.enable_echo();
        match self.device.set_terminal_mode(&mode) {
            Ok(()) => {
                self.current_mode = mode;
                Ok(())
            },
            Err(e) => Err(e),
        }
    }

    /// Read a line of input from the terminal.
    ///
    /// The line runs up to and including the first line feed, or to the end
    /// of input; exactly one trailing line feed is stripped from the returned
    /// text if present. If echoing is disabled, one line feed is written to
    /// the output afterwards, so the cursor visibly advances even though the
    /// OS did not echo the typed line terminator.
    pub fn read_input_line(&mut self) -> (r: Result<String, Error>)
        requires
            old(self).wf(),
        ensures
            final(self).wf(),
            final(self).initial() == old(self).initial(),
            final(self).current() == old(self).current(),
            final(self).dev().infallible() == old(self).dev().infallible(),
            r matches Ok(s) ==> {
                let line = strip_line_terminator(raw_line(old(self).dev().pending_input()));
                &&& valid_utf8(line)
                &&& s@ == decode_utf8(line)
                &&& final(self).dev().pending_input() == rest_after_line(
                    old(self).dev().pending_input(),
                )
            },
            r is Ok && old(self).current().echo_on() ==> final(self).dev().written_output()
                == old(self).dev().written_output(),
            r is Ok && !old(self).current().echo_on() ==> final(self).dev().written_output()
                == old(self).dev().written_output() || final(self).dev().written_output() == old(self).dev().written_output() + seq![line_feed()],
            old(self).dev().infallible() ==> {
                let line = strip_line_terminator(raw_line(old(self).dev().pending_input()));
                &&& (r is Ok <==> valid_utf8(line))
                &&& (r is Err ==> r == Result::<String, Error>::Err(Error::InvalidUtf8)
                    && final(self).dev().pending_input() == rest_after_line(
                    old(self).dev().pending_input(),
                ) && final(self).dev().written_output() == old(self).dev().written_output())
                &&& (r is Ok && !old(self).current().echo_on() ==> final(self).dev().written_output() == old(self).dev().written_output() + seq![line_feed()])
            },
    {
        let mut line = match read_raw_line(&mut self.device) {
            Ok(line) => line,
            Err(e) => return Err(e),
        };
        if line.len() > 0 && line[line.len() - 1] == 10u8 {
            line.pop();
        }
        proof {
            assert(line@ =~= strip_line_terminator(
                raw_line(old(self).dev().pending_input()),
            ));
        }
        match string_from_utf8(line) {
            None => Err(Error::InvalidUtf8),
            Some(s) => {
                if !self.current_mode.is_echo_enabled() {
                    let mut feed: Vec<u8> = Vec::new();
                    feed.push(10u8);
                    let _advanced = self.device.write_bytes(feed.as_slice());
                    proof {
                        assert(feed@ =~= seq![line_feed()]);
                    }
                }
                Ok(s)
            },
        }
    }

    /// Prompt the user on the terminal: write `text` verbatim — no implicit
    /// newline — then read a line of input.
    ///
    /// This neither enables nor disables echoing, so it should not normally
    /// be used for sensitive data like passwords; see
    /// [`Self::prompt_sensitive()`].
    pub fn prompt(&mut self, text: &str) -> (r: Result<String, Error>)
        requires
            old(self).wf(),
        ensures
            final(self).wf(),
            final(self).initial() == old(self).initial(),
            final(self).current() == old(self).current(),
            final(self).dev().infallible() == old(self).dev().infallible(),
            r matches Ok(s) ==> {
                let line = strip_line_terminator(raw_line(old(self).dev().pending_input()));
                &&& valid_utf8(line)
                &&& s@ == decode_utf8(line)
                &&& final(self).dev().pending_input() == rest_after_line(
                    old(self).dev().pending_input(),
                )
            },
            old(self).dev().infallible() ==> {
                let line = strip_line_terminator(raw_line(old(self).dev().pending_input()));
                let prompted = old(self).dev().written_output() + encode_utf8(text@);
                &&& (r is Ok <==> valid_utf8(line))
                &&& (r is Ok && old(self).current().echo_on() ==> final(self).dev().written_output() == prompted)
                &&& (r is Ok && !old(self).current().echo_on() ==> final(self).dev().written_output() == prompted + seq![line_feed()])
                &&& (r is Err ==> r == Result::<String, Error>::Err(Error::InvalidUtf8)
                    && final(self).dev().written_output() == prompted)
            },
    {
        match self.device.write_bytes(text.as_bytes()) {
            Ok(()) => (),
            Err(e) => return Err(e),
        };
        self.read_input_line()
    }

    /// Prompt the user for sensitive data (like a password) on the terminal.
    ///
    /// Echoing is disabled before `text` is shown, so the typed response
    /// never appears on the screen. If echoing was enabled beforehand, it is
    /// re-enabled after the response is read — best-effort: a failure to
    /// restore it is swallowed, so the caller still receives the line.
    pub fn prompt_sensitive(&mut self, text: &str) -> (r: Result<String, Error>)
        requires
            old(self).wf(),
        ensures
            final(self).wf(),
            final(self).initial() == old(self).initial(),
            final(self).dev().infallible() == old(self).dev().infallible(),
            final(self).current() == old(self).current() || final(self).current() == old(self).current().with_echo(false),
            r matches Ok(s) ==> {
                let line = strip_line_terminator(raw_line(old(self).dev().pending_input()));
                &&& valid_utf8(line)
                &&& s@ == decode_utf8(line)
                &&& final(self).dev().pending_input() == rest_after_line(
                    old(self).dev().pending_input(),
                )
            },
            old(self).dev().infallible() ==> {
                let line = strip_line_terminator(raw_line(old(self).dev().pending_input()));
                let prompted = old(self).dev().written_output() + encode_utf8(text@);
                &&& final(self).current() == old(self).current()
                &&& (r is Ok <==> valid_utf8(line))
                &&& (r is Ok ==> final(self).dev().written_output() == prompted + seq![
                    line_feed(),
                ])
                &&& (r is Err ==> r == Result::<String, Error>::Err(Error::InvalidUtf8)
                    && final(self).dev().written_output() == prompted && final(self).dev().pending_input() == rest_after_line(old(self).dev().pending_input()))
            },
    {
        let was_echo = self.current_mode.is_echo_enabled();
        if was_echo {
            let mut mode = self.current_mode;
            mode.disable_echo();
            match self.device.set_terminal_mode(&mode) {
                Ok(()) => {
                    self.current_mode = mode;
                },
                Err(e) => {
                    return Err(e);
                },
            }
        }
        match self.device.write_bytes(text.as_bytes()) {
            Ok(()) => (),
            Err(e) => return Err(e),
        };
        let line = self.read_input_line();
        if was_echo {
            let mut mode = self.current_mode;
            mode.enable_echo();
            match self.device.set_terminal_mode(&mode) {
                Ok(()) => {
                    self.current_mode = mode;
                },
                Err(_) => {
                    // Best-effort: a failure to restore echo must not mask
                    // the line the user typed.
                },
            }
        }
        line
    }

    /// Raw passthrough: read the next byte from the terminal, or `None` at
    /// end of input, bypassing the line protocol.
    pub fn read_byte(&mut self) -> (r: Result<Option<u8>, Error>)
        ensures
            final(self).initial() == old(self).initial(),
            final(self).current() == old(self).current(),
            final(self).dev().mode() == old(self).dev().mode(),
            final(self).dev().written_output() == old(self).dev().written_output(),
            final(self).dev().infallible() == old(self).dev().infallible(),
            old(self).wf() ==> final(self).wf(),
            old(self).dev().infallible() ==> r is Ok,
            match r {
                Ok(Some(b)) => {
                    &&& old(self).dev().pending_input().len() > 0
                    &&& b == old(self).dev().pending_input()[0]
                    &&& final(self).dev().pending_input() == old(self).dev().pending_input().drop_first()
                },
                Ok(None) => {
                    &&& old(self).dev().pending_input().len() == 0
                    &&& final(self).dev().pending_input() == old(self).dev().pending_input()
                },
                Err(_) => final(self).dev().pending_input() == old(self).dev().pending_input(),
            },
    {
        self.device.read_byte()
    }

    /// Raw passthrough: write all of `buf` to the terminal, bypassing the
    /// line protocol.
    pub fn write_bytes(&mut self, buf: &[u8]) -> (r: Result<(), Error>)
        ensures
            final(self).initial() == old(self).initial(),
            final(self).current() == old(self).current(),
            final(self).dev().mode() == old(self).dev().mode(),
            final(self).dev().pending_input() == old(self).dev().pending_input(),
            final(self).dev().infallible() == old(self).dev().infallible(),
            old(self).wf() ==> final(self).wf(),
            old(self).dev().infallible() ==> r is Ok,
            r is Ok ==> final(self).dev().written_output() == old(self).dev().written_output()
                + buf@,
            r is Err ==> final(self).dev().written_output() == old(self).dev().written_output(),
    {
        self.device.write_bytes(buf)
    }

    /// Opening a session never changes the echo facet on its own: a freshly
    /// opened session reports echo enabled exactly when the device's mode at
    /// open time had echo on, and it has line editing enabled, whatever the
    /// device held before.
    pub proof fn lemma_open_preserves_echo(device: D, t: Terminal<D>)
        requires
            t.initial() == device.mode(),
            t.current() == device.mode().with_line_editing(true),
        ensures
            t.current().echo_on() == device.mode().echo_on(),
            t.current().line_editing_on(),
    {
        crate::mode::lemma_facet_independence(device.mode(), true, false);
    }

    /// End the session, restoring the mode captured at open time and handing
    /// the device back.
    ///
    /// The restoration is best-effort: a failure to restore is swallowed, and
    /// the device is returned either way.
    pub fn close(self) -> (d: D)
        ensures
            d.pending_input() == self.dev().pending_input(),
            d.written_output() == self.dev().written_output(),
            d.infallible() == self.dev().infallible(),
            d.mode() == self.initial() || d.mode() == self.dev().mode(),
            self.dev().infallible() ==> d.mode() == self.initial(),
    {
        let Terminal { mut device, initial_mode, current_mode: _ } = self;
        let _restored = device.set_terminal_mode(&initial_mode);
        device
    }
}

} // verus!
