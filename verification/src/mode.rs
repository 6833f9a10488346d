//! Terminal line-discipline mode transitions.
//!
//! A terminal's local mode word is modelled as the plain bits of its
//! local-flags field; the two flag masks of interest (canonical input
//! buffering and local echo) are supplied by the caller, so the logic here
//! is independent of any particular platform's constants.

use vstd::prelude::*;

verus! {

/// The local-flags word of a raw mode derived from `flags` by clearing the
/// canonical-input and echo bits.
pub open spec fn raw_flags_of(flags: u64, icanon: u64, echo: u64) -> u64 {
    flags & !(icanon | echo)
}

/// Owns the snapshot of the terminal's local flags taken at startup, hands
/// out the raw-mode variant, and restores the snapshot unchanged at exit.
pub struct ModeController {
    saved_flags: u64,
}

impl ModeController {
    /// The snapshot captured at construction.
    pub closed spec fn saved(&self) -> u64 {
        self.saved_flags
    }

    /// Capture the current local flags as the snapshot to restore later.
    pub fn new(current_flags: u64) -> (c: ModeController)
        ensures
            c.saved() == current_flags,
    {
        ModeController { saved_flags: current_flags }
    }

    /// The local flags to apply when entering raw mode: the snapshot with
    /// the canonical-input and echo bits cleared.
    pub fn raw_flags(&self, icanon: u64, echo: u64) -> (r: u64)
        ensures
            r == raw_flags_of(self.saved(), icanon, echo),
            r & icanon == 0,
            r & echo == 0,
    {
        proof {
            lemma_raw_flags_clear(self.saved_flags, icanon, echo);
        }
        self.saved_flags & !(icanon | echo)
    }

    /// The local flags to apply when leaving raw mode: exactly the snapshot.
    pub fn restore_flags(&self) -> (r: u64)
        ensures
            r == self.saved(),
    {
        self.saved_flags
    }
}

/// Raw mode clears exactly the two requested bits: both are zero afterwards,
/// and every bit outside the two masks is untouched.
pub proof fn lemma_raw_flags_clear(flags: u64, icanon: u64, echo: u64)
    ensures
        raw_flags_of(flags, icanon, echo) & icanon == 0,
        raw_flags_of(flags, icanon, echo) & echo == 0,
        raw_flags_of(flags, icanon, echo) & !(icanon | echo) == flags & !(icanon | echo),
{
    assert((flags & !(icanon | echo)) & icanon == 0) by (bit_vector);
    assert((flags & !(icanon | echo)) & echo == 0) by (bit_vector);
    assert((flags & !(icanon | echo)) & !(icanon | echo) == flags & !(icanon | echo))
        by (bit_vector);
}

/// Entering raw mode and then restoring reproduces the exact pre-entry
/// settings. A controller built from the startup flags (`c.saved() ==
/// current`, the postcondition of `new`) hands out a raw-mode word with the
/// canonical-input and echo bits disabled, and what `restore_flags` returns
/// (`c.saved()`) is identical to the pre-entry word, whatever raw mode did
/// in between.
pub proof fn lemma_enter_then_restore_is_identity(
    c: ModeController,
    current: u64,
    icanon: u64,
    echo: u64,
)
    requires
        c.saved() == current,
    ensures
        raw_flags_of(c.saved(), icanon, echo) & icanon == 0,
        raw_flags_of(c.saved(), icanon, echo) & echo == 0,
        c.saved() == current,
{
    lemma_raw_flags_clear(c.saved(), icanon, echo);
}

} // verus!
