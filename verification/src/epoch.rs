//! The epoch-timing gate: rebalancing is only permitted near the end of an epoch.

use vstd::prelude::*;

verus! {

/// A snapshot of how far the ledger has progressed through the current epoch,
/// together with the configured number of remaining slots below which
/// rebalancing is permitted.
#[derive(Clone, Copy, Debug, PartialEq, Eq)]
pub struct EpochWindow {
    pub current_slot_index: u64,
    pub slots_in_epoch: u64,
    pub left_epoch_threshold: u64,
}

impl EpochWindow {
    /// The slot index never runs past the length of the epoch.
    pub open spec fn well_formed(&self) -> bool {
        self.current_slot_index <= self.slots_in_epoch
    }

    /// Number of slots left until the epoch ends.
    pub open spec fn slots_remaining(&self) -> int {
        self.slots_in_epoch - self.current_slot_index
    }

    /// Whether the epoch has advanced far enough for a rebalance.
    pub open spec fn within_window(&self) -> bool {
        self.slots_remaining() <= self.left_epoch_threshold
    }

    /// Builds a window from an epoch reading, refusing a reading whose slot
    /// index lies beyond the end of the epoch.
    pub fn new(current_slot_index: u64, slots_in_epoch: u64, left_epoch_threshold: u64) -> (r: Option<EpochWindow>)
        ensures
            r is Some <==> current_slot_index <= slots_in_epoch,
            r matches Some(w) ==> w.well_formed()
                && w.current_slot_index == current_slot_index
                && w.slots_in_epoch == slots_in_epoch
                && w.left_epoch_threshold == left_epoch_threshold,
    {
        if current_slot_index <= slots_in_epoch {
            Some(EpochWindow { current_slot_index, slots_in_epoch, left_epoch_threshold })
        } else {
            None
        }
    }

    /// True exactly when the slots remaining in the epoch do not exceed the
    /// configured threshold; equality counts as inside the window.
    pub fn is_within_window(&self) -> (r: bool)
        requires
            self.well_formed(),
        ensures
            r == self.within_window(),
            r <==> self.slots_in_epoch - self.current_slot_index <= self.left_epoch_threshold,
    {
        self.slots_in_epoch - self.current_slot_index <= self.left_epoch_threshold
    }
}

} // verus!
