//! The output controller: the single owner of the boolean output state.
//!
//! The physical pin flip is hardware I/O and is performed by the platform
//! layer; the controller is the decision and commit step around it. The
//! caller attempts the physical flip first and reports whether it took
//! effect; `toggle` then either commits the flipped state together with a
//! bump of the commit counter, or, on a hardware fault, leaves the state
//! exactly as it was, so memory and pin never disagree.

use vstd::prelude::*;

verus! {

/// The level of the output pin: either `Off` (low) or `On` (high).
#[derive(Clone, Copy, Debug, PartialEq, Eq, Structural)]
pub enum OutputState {
    Off,
    On,
}

/// The opposite level.
pub open spec fn flip(s: OutputState) -> OutputState {
    match s {
        OutputState::Off => OutputState::On,
        OutputState::On => OutputState::Off,
    }
}

/// The underlying pin write did not apply; the output keeps its old level.
#[derive(Clone, Copy, Debug, PartialEq, Eq, Structural)]
pub struct HardwareFault;

/// The mathematical content of an `OutputController`: the committed level
/// and how many toggles have been committed since construction.
pub struct ControllerView {
    pub state: OutputState,
    pub commits: nat,
}

/// Owns the in-memory image of the output level. Exclusive access (`&mut`)
/// makes each `toggle` a single atomic read-modify-write: no two calls can
/// observe the same pre-toggle state and both commit.
pub struct OutputController {
    state: OutputState,
    commits: u64,
}

impl View for OutputController {
    type V = ControllerView;

    closed spec fn view(&self) -> ControllerView {
        ControllerView { state: self.state, commits: self.commits as nat }
    }
}

impl OutputController {
    /// A controller whose output starts at the given power-on level, with
    /// no toggles committed yet.
    pub fn new(initial: OutputState) -> (c: Self)
        ensures
            c@.state == initial,
            c@.commits == 0,
    {
        OutputController { state: initial, commits: 0 }
    }

    /// The committed level. Non-mutating.
    pub fn state(&self) -> (s: OutputState)
        ensures
            s == self@.state,
    {
        self.state
    }

    /// How many toggles have been committed. Non-mutating.
    pub fn commits(&self) -> (n: u64)
        ensures
            n as nat == self@.commits,
    {
        self.commits
    }

    /// Commit one toggle. `write_applied` reports whether the platform
    /// layer's physical pin flip took effect. On success the state flips
    /// and the commit counter grows by exactly one; on a hardware fault
    /// nothing changes and the fault is surfaced to the caller.
    pub fn toggle(&mut self, write_applied: bool) -> (r: Result<OutputState, HardwareFault>)
        requires
            write_applied ==> old(self)@.commits < u64::MAX,
        ensures
            write_applied ==> {
                &&& final(self)@.state == flip(old(self)@.state)
                &&& final(self)@.commits == old(self)@.commits + 1
                &&& r == Ok::<OutputState, HardwareFault>(flip(old(self)@.state))
            },
            !write_applied ==> {
                &&& final(self)@ == old(self)@
                &&& r == Err::<OutputState, HardwareFault>(HardwareFault)
            },
    {
        if write_applied {
            self.state = match self.state {
                OutputState::Off => OutputState::On,
                OutputState::On => OutputState::Off,
            };
            self.commits = self.commits + 1;
            Ok(self.state)
        } else {
            Err(HardwareFault)
        }
    }
}

} // verus!
