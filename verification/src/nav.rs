//! The navigation state machine: a cursor into the path sequence plus the
//! toggle between the single-path and aggregate-heatmap presentation modes.
//!
//! The controller enforces its own guards: callers cannot drive the cursor
//! out of bounds, and an out-of-range step is a no-op, never a crash.

use vstd::prelude::*;

verus! {

/// Which presentation layer is active while browsing.
#[derive(Clone, Copy, PartialEq, Eq, Structural, Debug)]
pub enum Mode {
    /// The path at the current cursor, drawn as an arrow with markers.
    SinglePath,
    /// The aggregate traversal-frequency overlay over all entities.
    Heatmap,
}

impl Mode {
    pub open spec fn spec_flipped(self) -> Mode {
        match self {
            Mode::SinglePath => Mode::Heatmap,
            Mode::Heatmap => Mode::SinglePath,
        }
    }

    /// The other mode.
    pub fn flipped(self) -> (m: Mode)
        ensures
            m == self.spec_flipped(),
    {
        match self {
            Mode::SinglePath => Mode::Heatmap,
            Mode::Heatmap => Mode::SinglePath,
        }
    }
}

/// The two states of the browser: no paths at all, or browsing with a
/// cursor into the path sequence and an active presentation mode.
#[derive(Clone, Copy, PartialEq, Eq, Structural, Debug)]
pub enum NavState {
    Empty,
    Browsing { cursor: usize, mode: Mode },
}

/// A state is well formed for a path count when `Empty` occurs exactly on
/// an empty path sequence and the cursor stays inside `[0, total - 1]`.
pub open spec fn wf_state(s: NavState, total: nat) -> bool {
    match s {
        NavState::Empty => total == 0,
        NavState::Browsing { cursor, mode } => {
            0 < total <= usize::MAX && (cursor as nat) < total
        },
    }
}

/// The state a fresh controller starts in: browsing the first path with the
/// aggregate heatmap shown, or `Empty` when there are no paths.
pub open spec fn spec_initial(total: nat) -> NavState {
    if total == 0 {
        NavState::Empty
    } else {
        NavState::Browsing { cursor: 0, mode: Mode::Heatmap }
    }
}

/// Step to the next path. Valid only while browsing below the last index;
/// anything else is a no-op. A cursor change forces `SinglePath`, so the
/// newly selected path is surfaced to the user.
pub open spec fn spec_next(s: NavState, total: nat) -> NavState {
    match s {
        NavState::Empty => s,
        NavState::Browsing { cursor, mode } => {
            if (cursor as nat) + 1 < total {
                NavState::Browsing { cursor: (cursor + 1) as usize, mode: Mode::SinglePath }
            } else {
                s
            }
        },
    }
}

/// Step to the previous path. Valid only while browsing above index zero;
/// anything else is a no-op. A cursor change forces `SinglePath`.
pub open spec fn spec_prev(s: NavState, total: nat) -> NavState {
    match s {
        NavState::Empty => s,
        NavState::Browsing { cursor, mode } => {
            if cursor > 0 {
                NavState::Browsing { cursor: (cursor - 1) as usize, mode: Mode::SinglePath }
            } else {
                s
            }
        },
    }
}

/// Flip the presentation mode. Valid only while browsing; the cursor is
/// untouched.
pub open spec fn spec_toggle(s: NavState) -> NavState {
    match s {
        NavState::Empty => s,
        NavState::Browsing { cursor, mode } => {
            NavState::Browsing { cursor, mode: mode.spec_flipped() }
        },
    }
}

/// Law: every transition keeps the state well formed; in particular the
/// cursor never leaves `[0, total - 1]`.
pub proof fn lemma_transitions_preserve_wf(s: NavState, total: nat)
    requires
        wf_state(s, total),
    ensures
        wf_state(spec_initial(total), total),
        wf_state(spec_next(s, total), total),
        wf_state(spec_prev(s, total), total),
        wf_state(spec_toggle(s), total),
{
}

/// Law: `next` then `prev`, when the `next` is valid (so the `prev` is
/// too), restores the original cursor.
pub proof fn lemma_next_then_prev_restores_cursor(s: NavState, total: nat)
    requires
        wf_state(s, total),
        s matches NavState::Browsing { cursor, .. } && (cursor as nat) + 1 < total,
    ensures
        spec_prev(spec_next(s, total), total)->cursor == s->cursor,
{
}

/// Law: a transition that changes the cursor always sets the mode to
/// `SinglePath`; it never leaves the aggregate heatmap showing.
pub proof fn lemma_cursor_change_forces_single_path(s: NavState, total: nat)
    requires
        wf_state(s, total),
    ensures
        spec_next(s, total) is Browsing && spec_next(s, total)->cursor != s->cursor
            ==> spec_next(s, total)->mode == Mode::SinglePath,
        spec_prev(s, total) is Browsing && spec_prev(s, total)->cursor != s->cursor
            ==> spec_prev(s, total)->mode == Mode::SinglePath,
{
}

/// Law: toggling flips the mode and leaves the cursor unchanged.
pub proof fn lemma_toggle_flips_mode_keeps_cursor(s: NavState)
    requires
        s is Browsing,
    ensures
        spec_toggle(s)->mode == s->mode.spec_flipped(),
        spec_toggle(s)->mode != s->mode,
        spec_toggle(s)->cursor == s->cursor,
{
}

/// Law: toggling twice returns to the original state, cursor untouched.
pub proof fn lemma_toggle_twice_restores(s: NavState)
    ensures
        spec_toggle(spec_toggle(s)) == s,
{
}

/// Owns the cursor and mode, and enforces the guard conditions of the
/// transitions itself.
pub struct NavigationController {
    total: usize,
    state: NavState,
}

impl View for NavigationController {
    type V = NavState;

    closed spec fn view(&self) -> NavState {
        self.state
    }
}

impl NavigationController {
    /// How many paths are being browsed.
    pub closed spec fn spec_total(&self) -> nat {
        self.total as nat
    }

    pub open spec fn wf(&self) -> bool {
        wf_state(self@, self.spec_total())
    }

    /// Start browsing `total` paths: at cursor 0 with the heatmap shown,
    /// or in the `Empty` state when there are none.
    pub fn new(total: usize) -> (nav: NavigationController)
        ensures
            nav.wf(),
            nav.spec_total() == total,
            nav@ == spec_initial(total as nat),
    {
        if total == 0 {
            NavigationController { total, state: NavState::Empty }
        } else {
            NavigationController {
                total,
                state: NavState::Browsing { cursor: 0, mode: Mode::Heatmap },
            }
        }
    }

    pub fn state(&self) -> (s: NavState)
        ensures
            s == self@,
    {
        self.state
    }

    pub fn total(&self) -> (n: usize)
        ensures
            n == self.spec_total(),
    {
        self.total
    }

    /// Whether the previous-path affordance should be enabled.
    pub fn can_prev(&self) -> (r: bool)
        ensures
            r == (self@ matches NavState::Browsing { cursor, .. } && cursor > 0),
    {
        match self.state {
            NavState::Browsing { cursor, .. } => cursor > 0,
            NavState::Empty => false,
        }
    }

    /// Whether the next-path affordance should be enabled.
    pub fn can_next(&self) -> (r: bool)
        requires
            self.wf(),
        ensures
            r == (self@ matches NavState::Browsing { cursor, .. } && (cursor as nat) + 1
                < self.spec_total()),
    {
        match self.state {
            NavState::Browsing { cursor, .. } => cursor + 1 < self.total,
            NavState::Empty => false,
        }
    }

    /// The one-based counter the host renders as "i/N".
    pub fn position(&self) -> (p: (usize, usize))
        requires
            self.wf(),
            self@ is Browsing,
        ensures
            p.0 == self@->cursor + 1,
            p.1 == self.spec_total(),
    {
        match self.state {
            NavState::Browsing { cursor, .. } => (cursor + 1, self.total),
            NavState::Empty => (0, 0),
        }
    }

    /// Step to the previous path; a no-op below the guard. Reports whether
    /// the cursor moved, so the caller knows to rebuild the path overlay.
    pub fn prev(&mut self) -> (moved: bool)
        requires
            old(self).wf(),
        ensures
            final(self).wf(),
            final(self).spec_total() == old(self).spec_total(),
            final(self)@ == spec_prev(old(self)@, old(self).spec_total()),
            moved == (final(self)@ != old(self)@),
    {
        match self.state {
            NavState::Browsing { cursor, .. } => {
                if cursor > 0 {
                    self.state = NavState::Browsing {
                        cursor: cursor - 1,
                        mode: Mode::SinglePath,
                    };
                    true
                } else {
                    false
                }
            },
            NavState::Empty => false,
        }
    }

    /// Step to the next path; a no-op at the last index. Reports whether
    /// the cursor moved.
    pub fn next(&mut self) -> (moved: bool)
        requires
            old(self).wf(),
        ensures
            final(self).wf(),
            final(self).spec_total() == old(self).spec_total(),
            final(self)@ == spec_next(old(self)@, old(self).spec_total()),
            moved == (final(self)@ != old(self)@),
    {
        match self.state {
            NavState::Browsing { cursor, .. } => {
                if cursor + 1 < self.total {
                    self.state = NavState::Browsing {
                        cursor: cursor + 1,
                        mode: Mode::SinglePath,
                    };
                    true
                } else {
                    false
                }
            },
            NavState::Empty => false,
        }
    }

    /// Flip between the single-path and heatmap layers; a no-op in `Empty`.
    /// The cursor is untouched, so no overlay rebuild is needed.
    pub fn toggle_heatmap(&mut self) -> (toggled: bool)
        requires
            old(self).wf(),
        ensures
            final(self).wf(),
            final(self).spec_total() == old(self).spec_total(),
            final(self)@ == spec_toggle(old(self)@),
            toggled == (old(self)@ is Browsing),
    {
        match self.state {
            NavState::Browsing { cursor, mode } => {
                self.state = NavState::Browsing { cursor, mode: mode.flipped() };
                true
            },
            NavState::Empty => false,
        }
    }
}

} // verus!
