//! Terminal mode snapshots.
//!
//! A [`TerminalMode`] is a copyable snapshot of the terminal's line-discipline
//! settings at a point in time. It tracks two independent facets: whether
//! line-editing (canonical) input is enabled, and whether typed characters are
//! echoed back to the screen. Each mutator touches only its own facet, and
//! querying a snapshot never talks to the OS.
//!
//! The platform bit layout (a `termios` flag word, a console input-mode word)
//! never crosses into this type: the OS-facing layer translates between its
//! raw representation and the two facets kept here.

use vstd::prelude::*;

verus! {

/// Snapshot of the terminal's line-editing and echo settings.
#[derive(Clone, Copy, Debug, PartialEq, Eq, Structural)]
pub struct TerminalMode {
    /// Line-editing (canonical) input facet.
    pub line_editing: bool,
    /// Character-echo facet.
    pub echo: bool,
}

impl TerminalMode {
    /// Whether this snapshot has line-editing (canonical) input enabled.
    pub open spec fn line_editing_on(&self) -> bool {
        self.line_editing
    }

    /// Whether this snapshot has character echo enabled.
    pub open spec fn echo_on(&self) -> bool {
        self.echo
    }

    /// The same snapshot with the echo facet set to `e`.
    pub open spec fn with_echo(self, e: bool) -> TerminalMode {
        TerminalMode { echo: e, ..self }
    }

    /// The same snapshot with the line-editing facet set to `le`.
    pub open spec fn with_line_editing(self, le: bool) -> TerminalMode {
        TerminalMode { line_editing: le, ..self }
    }

    /// Build a snapshot from its two facets.
    pub fn new(line_editing: bool, echo: bool) -> (m: TerminalMode)
        ensures
            m.line_editing_on() == line_editing,
            m.echo_on() == echo,
    {
        TerminalMode { line_editing, echo }
    }

    /// Enable line-editing (canonical) input; the echo facet is untouched.
    pub fn enable_line_editing(&mut self)
        ensures
            *final(self) == old(self).with_line_editing(true),
    {
        self.line_editing = true;
    }

    /// Clear the echo facet; line editing is untouched.
    pub fn disable_echo(&mut self)
        ensures
            *final(self) == old(self).with_echo(false),
    {
        self.echo = false;
    }

    /// Set the echo facet; line editing is untouched.
    pub fn enable_echo(&mut self)
        ensures
            *final(self) == old(self).with_echo(true),
    {
        self.echo = true;
    }

    /// Whether typed characters would be echoed under this snapshot.
    ///
    /// Pure query of the in-memory snapshot; no OS interaction.
    pub fn is_echo_enabled(&self) -> (b: bool)
        ensures
            b == self.echo_on(),
    {
        self.echo
    }

    /// Whether line-editing input would be enabled under this snapshot.
    ///
    /// Pure query of the in-memory snapshot; no OS interaction.
    pub fn is_line_editing_enabled(&self) -> (b: bool)
        ensures
            b == self.line_editing_on(),
    {
        self.line_editing
    }
}

/// Setting the echo facet overrides whatever the snapshot held before:
/// enabling always yields an echoing mode and disabling never does,
/// regardless of `m`'s prior state.
pub proof fn lemma_echo_override(m: TerminalMode)
    ensures
        m.with_echo(true).echo_on(),
        !m.with_echo(false).echo_on(),
{
}

/// The two facets are independent: changing the line-editing facet never
/// changes the result of the echo query, and changing the echo facet never
/// changes the line-editing facet.
pub proof fn lemma_facet_independence(m: TerminalMode, le: bool, e: bool)
    ensures
        m.with_line_editing(le).echo_on() == m.echo_on(),
        m.with_echo(e).line_editing_on() == m.line_editing_on(),
{
}

} // verus!
