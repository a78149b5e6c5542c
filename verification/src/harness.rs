//! The session harness lifecycle: mode entry at construction, teardown.
//!
//! A `Journal` owns the terminal's raw-mode and alternate-screen state for
//! the lifetime of a session.  Construction performs, in order: enable raw
//! mode, enter the alternate screen, bind the rendering surface; if any
//! step fails the error is returned and the earlier steps are not rolled
//! back (a documented limitation, stated exactly by the contract).
//! Teardown attempts both restorations — disable raw mode, then leave the
//! alternate screen — and attempts the second even when the first fails.
//!
//! The terminal device is a [`TermState`]: the caller (the unverified
//! shell, or a test's mock driver) passes in the outcome the device
//! reported for each mode change, and the contracts state exactly what
//! was recorded for every combination of outcomes.

use vstd::prelude::*;

use crate::term::spec_disable_raw;
use crate::term::spec_enable_raw;
use crate::term::spec_enter_alt;
use crate::term::spec_leave_alt;
use crate::term::TermState;

verus! {

/// Why constructing a session failed: the step that reported failure.
#[derive(Clone, Copy, PartialEq, Eq, Structural, Debug)]
pub enum HarnessError {
    /// Enabling raw input mode failed; nothing was changed.
    RawMode,
    /// Switching to the alternate screen failed; raw mode stays on.
    AlternateScreen,
    /// Binding the rendering surface failed; both modes stay on.
    SurfaceBind,
}

/// A live session: the harness that holds raw-mode and alternate-screen
/// ownership between construction and teardown.  Teardown consumes it:
/// a session is restored once.
#[derive(PartialEq, Eq, Structural, Debug)]
pub struct Journal {
    /// Frames rendered so far over the life of the session.
    pub frames: u64,
}

/// The terminal state after the construction steps ran against `t` with
/// the given device outcomes: raw mode is attempted first, the alternate
/// screen only when raw mode succeeded, and a failed step is not rolled
/// back.
pub open spec fn spec_new_term(t: TermState, raw_ok: bool, alt_ok: bool) -> TermState {
    if !raw_ok {
        spec_enable_raw(t, false)
    } else {
        spec_enter_alt(spec_enable_raw(t, true), alt_ok)
    }
}

/// What construction returns for the given device outcomes: the error of
/// the first failing step, or a fresh session with no frames rendered.
pub open spec fn spec_new_result(raw_ok: bool, alt_ok: bool, bind_ok: bool) -> Result<
    Journal,
    HarnessError,
> {
    if !raw_ok {
        Err(HarnessError::RawMode)
    } else if !alt_ok {
        Err(HarnessError::AlternateScreen)
    } else if !bind_ok {
        Err(HarnessError::SurfaceBind)
    } else {
        Ok(Journal { frames: 0 })
    }
}

/// The terminal state after teardown ran against `t`: raw mode is
/// disabled first, the alternate screen is left second, and both are
/// attempted whatever the device answers.
pub open spec fn spec_restore_term(t: TermState, raw_ok: bool, alt_ok: bool) -> TermState {
    spec_leave_alt(spec_disable_raw(t, raw_ok), alt_ok)
}

impl Journal {
    /// Construct a session against the terminal `term`.
    ///
    /// `raw_ok`, `alt_ok` and `bind_ok` are the outcomes the device
    /// reports for the three construction steps in order.  On failure the
    /// object is never formed, so no teardown obligation is created and
    /// the steps already taken stay in effect.
    ///
    /// At most one session may hold the terminal's modes at a time; that
    /// is caller discipline, not enforced here.
    pub fn new(term: &mut TermState, raw_ok: bool, alt_ok: bool, bind_ok: bool) -> (r: Result<
        Journal,
        HarnessError,
    >)
        requires
            old(term).raw_enables < u64::MAX,
            old(term).alt_enters < u64::MAX,
        ensures
            *final(term) == spec_new_term(*old(term), raw_ok, alt_ok),
            r == spec_new_result(raw_ok, alt_ok, bind_ok),
    {
        if !term.enable_raw(raw_ok) {
            return Err(HarnessError::RawMode);
        }
        if !term.enter_alt(alt_ok) {
            return Err(HarnessError::AlternateScreen);
        }
        if !bind_ok {
            return Err(HarnessError::SurfaceBind);
        }
        Ok(Journal { frames: 0 })
    }

    /// Tear the session down: disable raw mode, then leave the alternate
    /// screen.  Both restorations are attempted even if one fails, and a
    /// failure is swallowed — teardown reports nothing.
    pub fn restore(self, term: &mut TermState, raw_ok: bool, alt_ok: bool)
        requires
            old(term).raw_disables < u64::MAX,
            old(term).alt_leaves < u64::MAX,
        ensures
            *final(term) == spec_restore_term(*old(term), raw_ok, alt_ok),
    {
        let _ = term.disable_raw(raw_ok);
        let _ = term.leave_alt(alt_ok);
    }
}

/// Law: construction followed immediately by teardown — zero frames
/// rendered — fully restores the terminal: both modes are off again, and
/// the one enable is matched by one disable, the one enter by one leave.
pub proof fn lemma_teardown_restores(t: TermState)
    requires
        t.raw_enables < u64::MAX,
        t.alt_enters < u64::MAX,
        t.raw_disables < u64::MAX,
        t.alt_leaves < u64::MAX,
    ensures
        spec_restore_term(spec_new_term(t, true, true), true, true).raw == false,
        spec_restore_term(spec_new_term(t, true, true), true, true).alt == false,
        spec_restore_term(spec_new_term(t, true, true), true, true).raw_enables == t.raw_enables
            + 1,
        spec_restore_term(spec_new_term(t, true, true), true, true).raw_disables == t.raw_disables
            + 1,
        spec_restore_term(spec_new_term(t, true, true), true, true).alt_enters == t.alt_enters + 1,
        spec_restore_term(spec_new_term(t, true, true), true, true).alt_leaves == t.alt_leaves + 1,
{
}

/// Law: a construction that fails at the alternate-screen step leaves raw
/// mode on and the screen where it was — the earlier step is not rolled
/// back, exactly as documented.
pub proof fn lemma_partial_construction_not_rolled_back(t: TermState)
    requires
        t.raw_enables < u64::MAX,
        t.alt_enters < u64::MAX,
    ensures
        spec_new_term(t, true, false).raw == true,
        spec_new_term(t, true, false).alt == t.alt,
        spec_new_result(true, false, true) == Err::<Journal, HarnessError>(
            HarnessError::AlternateScreen,
        ),
{
}

/// The terminal state after `n` successful construction/teardown cycles.
pub open spec fn spec_cycles(t: TermState, n: nat) -> TermState
    decreases n,
{
    if n == 0 {
        t
    } else {
        spec_restore_term(spec_new_term(spec_cycles(t, (n - 1) as nat), true, true), true, true)
    }
}

/// Law: repeated construction/teardown cycles leave the toggle counts
/// balanced — `n` cycles add exactly `n` to each of the four counters —
/// and, once at least one cycle ran, leave both modes off.
pub proof fn lemma_cycles_balanced(t: TermState, n: nat)
    requires
        t.raw_enables + n <= u64::MAX,
        t.raw_disables + n <= u64::MAX,
        t.alt_enters + n <= u64::MAX,
        t.alt_leaves + n <= u64::MAX,
    ensures
        spec_cycles(t, n).raw_enables == t.raw_enables + n,
        spec_cycles(t, n).raw_disables == t.raw_disables + n,
        spec_cycles(t, n).alt_enters == t.alt_enters + n,
        spec_cycles(t, n).alt_leaves == t.alt_leaves + n,
        n > 0 ==> spec_cycles(t, n).raw == false && spec_cycles(t, n).alt == false,
    decreases n,
{
    if n > 0 {
        lemma_cycles_balanced(t, (n - 1) as nat);
    }
}

} // verus!
