//! The logic of the configuration forms, apart from any widget toolkit.

pub mod input;
pub mod pages;
pub mod pin_mode;
pub mod rows;
pub mod spi;
pub mod w5500;

use vstd::prelude::*;
use crate::config::SpiMode;

verus! {

/// The index kept when a list has `len` entries: `idx` itself when it names
/// one, else the last entry; `0` for an empty list.
pub open spec fn spec_clamp_index(idx: nat, len: nat) -> nat {
    if len == 0 {
        0
    } else if idx < len {
        idx
    } else {
        (len - 1) as nat
    }
}

/// Returns `idx` when it names an entry of a list of `len`, else the last
/// valid index; `0` for an empty list, whose selection the UI disables.
pub fn clamp_index(idx: usize, len: usize) -> (clamped: usize)
    ensures
        clamped == spec_clamp_index(idx as nat, len as nat),
{
    if len == 0 {
        0
    } else if idx < len - 1 {
        idx
    } else {
        len - 1
    }
}

/// Returns the preferred index when the list has it, else `0`, so that
/// neighbouring lists can start on different entries.
pub fn default_distinct_pin_index(preferred_idx: usize, len: usize) -> (idx: usize)
    ensures
        idx == (if len > preferred_idx { preferred_idx } else { 0 }),
{
    if len > preferred_idx {
        preferred_idx
    } else {
        0
    }
}

/// The SPI mode that a list index selects: the index is taken as a byte, and
/// an index that names no mode selects the default mode.
pub open spec fn spec_mode_from_index(idx: nat) -> SpiMode {
    match SpiMode::spec_from_index(idx % 256) {
        Some(mode) => mode,
        None => SpiMode::Mode0,
    }
}

/// Returns the SPI mode that a list index selects.
pub fn mode_from_index(idx: usize) -> (mode: SpiMode)
    ensures
        mode == spec_mode_from_index(idx as nat),
{
    match SpiMode::from_index(idx % 256) {
        Some(mode) => mode,
        None => SpiMode::default(),
    }
}

/// The entries of a drop-down list and the index of the chosen one.
pub struct Choice<T> {
    pub items: Vec<T>,
    pub selected_idx: usize,
}

impl<T: Copy> Choice<T> {
    /// The chosen entry, if the index names one.
    pub open spec fn spec_selected(&self) -> Option<T> {
        if self.selected_idx < self.items@.len() {
            Some(self.items@[self.selected_idx as int])
        } else {
            None
        }
    }

    /// An empty list.
    pub fn empty() -> (choice: Self)
        ensures
            choice.items@.len() == 0,
            choice.selected_idx == 0,
    {
        Choice { items: Vec::new(), selected_idx: 0 }
    }

    /// A list of fixed entries with the first one chosen.
    pub fn new(items: Vec<T>) -> (choice: Self)
        ensures
            choice.items@ == items@,
            choice.selected_idx == 0,
    {
        Choice { items, selected_idx: 0 }
    }

    /// Replaces the entries and keeps the index inside the new list.
    pub fn replace_items(&mut self, items: Vec<T>)
        ensures
            final(self).items@ == items@,
            final(self).selected_idx == spec_clamp_index(old(self).selected_idx as nat, items@.len()),
    {
        self.items = items;
        self.clamp_selected();
    }

    /// Keeps the index inside the list.
    pub fn clamp_selected(&mut self)
        ensures
            final(self).items@ == old(self).items@,
            final(self).selected_idx == spec_clamp_index(old(self).selected_idx as nat, old(self).items@.len()),
    {
        self.selected_idx = clamp_index(self.selected_idx, self.items.len());
    }

    /// Chooses the entry at `selected_idx`, kept inside the list.
    pub fn reset_selected(&mut self, selected_idx: usize)
        ensures
            final(self).items@ == old(self).items@,
            final(self).selected_idx == spec_clamp_index(selected_idx as nat, old(self).items@.len()),
    {
        self.selected_idx = clamp_index(selected_idx, self.items.len());
    }

    /// Returns whether the list is empty.
    pub fn is_empty(&self) -> (empty: bool)
        ensures
            empty == (self.items@.len() == 0),
    {
        self.items.len() == 0
    }

    /// Returns the number of entries.
    pub fn len(&self) -> (len: usize)
        ensures
            len == self.items@.len(),
    {
        self.items.len()
    }

    /// Returns the chosen entry.
    pub fn selected(&self) -> (item: Option<T>)
        ensures
            item == self.spec_selected(),
    {
        if self.selected_idx < self.items.len() {
            Some(self.items[self.selected_idx])
        } else {
            None
        }
    }
}

} // verus!
