//! A model of the terminal driver's mode state.
//!
//! The session harness owns two pieces of global terminal state: raw input
//! mode and the alternate screen buffer.  A `TermState` records both flags
//! together with a count of every call made to each of the four
//! mode-changing entry points, the way a mock terminal driver in a test
//! harness would record them.  Each entry point takes the outcome the
//! device reported (`ok`), since the device itself can refuse a mode
//! change; the model states exactly what each call does to the recorded
//! state for either outcome.

use vstd::prelude::*;

verus! {

/// The terminal driver's mode flags and call counters.
#[derive(Clone, Copy, PartialEq, Eq, Structural, Debug)]
pub struct TermState {
    /// Raw input mode is currently on.
    pub raw: bool,
    /// The alternate screen buffer is currently active.
    pub alt: bool,
    /// Calls made so far to the raw-mode enable entry point.
    pub raw_enables: u64,
    /// Calls made so far to the raw-mode disable entry point.
    pub raw_disables: u64,
    /// Calls made so far to the enter-alternate-screen entry point.
    pub alt_enters: u64,
    /// Calls made so far to the leave-alternate-screen entry point.
    pub alt_leaves: u64,
}

/// The state after one call to the raw-mode enable entry point that the
/// device answered with `ok`.
pub open spec fn spec_enable_raw(t: TermState, ok: bool) -> TermState {
    TermState {
        raw: if ok { true } else { t.raw },
        alt: t.alt,
        raw_enables: (t.raw_enables + 1) as u64,
        raw_disables: t.raw_disables,
        alt_enters: t.alt_enters,
        alt_leaves: t.alt_leaves,
    }
}

/// The state after one call to the raw-mode disable entry point that the
/// device answered with `ok`.
pub open spec fn spec_disable_raw(t: TermState, ok: bool) -> TermState {
    TermState {
        raw: if ok { false } else { t.raw },
        alt: t.alt,
        raw_enables: t.raw_enables,
        raw_disables: (t.raw_disables + 1) as u64,
        alt_enters: t.alt_enters,
        alt_leaves: t.alt_leaves,
    }
}

/// The state after one call to the enter-alternate-screen entry point that
/// the device answered with `ok`.
pub open spec fn spec_enter_alt(t: TermState, ok: bool) -> TermState {
    TermState {
        raw: t.raw,
        alt: if ok { true } else { t.alt },
        raw_enables: t.raw_enables,
        raw_disables: t.raw_disables,
        alt_enters: (t.alt_enters + 1) as u64,
        alt_leaves: t.alt_leaves,
    }
}

/// The state after one call to the leave-alternate-screen entry point that
/// the device answered with `ok`.
pub open spec fn spec_leave_alt(t: TermState, ok: bool) -> TermState {
    TermState {
        raw: t.raw,
        alt: if ok { false } else { t.alt },
        raw_enables: t.raw_enables,
        raw_disables: t.raw_disables,
        alt_enters: t.alt_enters,
        alt_leaves: (t.alt_leaves + 1) as u64,
    }
}

impl TermState {
    /// A terminal in its normal state: both modes off, no calls recorded.
    pub fn start() -> (t: TermState)
        ensures
            t == (TermState {
                raw: false,
                alt: false,
                raw_enables: 0,
                raw_disables: 0,
                alt_enters: 0,
                alt_leaves: 0,
            }),
    {
        TermState {
            raw: false,
            alt: false,
            raw_enables: 0,
            raw_disables: 0,
            alt_enters: 0,
            alt_leaves: 0,
        }
    }

    /// Record a call to the raw-mode enable entry point; `ok` is the
    /// outcome the device reported.
    pub fn enable_raw(&mut self, ok: bool) -> (r: bool)
        requires
            old(self).raw_enables < u64::MAX,
        ensures
            *final(self) == spec_enable_raw(*old(self), ok),
            r == ok,
    {
        self.raw_enables = self.raw_enables + 1;
        if ok {
            self.raw = true;
        }
        ok
    }

    /// Record a call to the raw-mode disable entry point; `ok` is the
    /// outcome the device reported.
    pub fn disable_raw(&mut self, ok: bool) -> (r: bool)
        requires
            old(self).raw_disables < u64::MAX,
        ensures
            *final(self) == spec_disable_raw(*old(self), ok),
            r == ok,
    {
        self.raw_disables = self.raw_disables + 1;
        if ok {
            self.raw = false;
        }
        ok
    }

    /// Record a call to the enter-alternate-screen entry point; `ok` is
    /// the outcome the device reported.
    pub fn enter_alt(&mut self, ok: bool) -> (r: bool)
        requires
            old(self).alt_enters < u64::MAX,
        ensures
            *final(self) == spec_enter_alt(*old(self), ok),
            r == ok,
    {
        self.alt_enters = self.alt_enters + 1;
        if ok {
            self.alt = true;
        }
        ok
    }

    /// Record a call to the leave-alternate-screen entry point; `ok` is
    /// the outcome the device reported.
    pub fn leave_alt(&mut self, ok: bool) -> (r: bool)
        requires
            old(self).alt_leaves < u64::MAX,
        ensures
            *final(self) == spec_leave_alt(*old(self), ok),
            r == ok,
    {
        self.alt_leaves = self.alt_leaves + 1;
        if ok {
            self.alt = false;
        }
        ok
    }
}

} // verus!
