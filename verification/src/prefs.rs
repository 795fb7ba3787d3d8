//! The one persistent user preference of the shell: whether the control
//! window stays always on top. Held in a store with exclusive access
//! through `&mut`, created at startup with the default `false` and
//! mutated only by the tray toggle action.

use vstd::prelude::*;

verus! {

/// What one toggle of the preference yields.
pub open spec fn toggled(v: bool) -> bool {
    !v
}

/// Store for the single always-on-top preference bit.
pub struct PrefStore {
    pub always_on_top: bool,
}

impl View for PrefStore {
    type V = bool;

    open spec fn view(&self) -> bool {
        self.always_on_top
    }
}

impl PrefStore {
    /// A fresh store holds the default value `false`.
    pub fn new() -> (s: Self)
        ensures
            s@ == false,
    {
        PrefStore { always_on_top: false }
    }

    /// Current value of the preference.
    pub fn get(&self) -> (v: bool)
        ensures
            v == self@,
    {
        self.always_on_top
    }

    /// Flips the preference and returns the new value; the returned value
    /// is authoritative for updating dependent UI state.
    pub fn toggle(&mut self) -> (v: bool)
        ensures
            final(self)@ == toggled(old(self)@),
            v == final(self)@,
    {
        self.always_on_top = !self.always_on_top;
        self.always_on_top
    }
}

/// Law: toggling twice returns to the starting value, and toggling once
/// always flips it.
pub proof fn lemma_toggle_involution(v: bool)
    ensures
        toggled(toggled(v)) == v,
        toggled(v) != v,
{
}

} // verus!
