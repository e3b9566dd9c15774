//! The level's lookup tables, held in bevy's hash collections.
use crate::action::ScriptCommand;
use vstd::prelude::*;

verus! {

/// What a checkpoint grants: an optional command to unlock and a command budget.
pub type Unlock = (Option<ScriptCommand>, usize);

/// The checkpoint table: what each checkpoint cell grants.
pub type UnlockTable = Map<(i32, i32), Unlock>;

/// A set of grid cells, as `(x, y)` pairs.
#[verifier::external_body]
pub struct CellSet {
    cells: bevy::utils::HashSet<(i32, i32)>,
}

/// The cells that a `CellSet` holds.
pub uninterp spec fn cell_set_contents(s: CellSet) -> Set<(i32, i32)>;

/// A map from grid cells, as `(x, y)` pairs, to what reaching them grants.
#[verifier::external_body]
pub struct UnlockMap {
    entries: bevy::utils::HashMap<(i32, i32), Unlock>,
}

/// The entries that an `UnlockMap` holds.
pub uninterp spec fn unlock_map_contents(m: UnlockMap) -> Map<(i32, i32), Unlock>;

impl View for CellSet {
    type V = Set<(i32, i32)>;

    open spec fn view(&self) -> Set<(i32, i32)> {
        cell_set_contents(*self)
    }
}

impl View for UnlockMap {
    type V = Map<(i32, i32), Unlock>;

    open spec fn view(&self) -> Map<(i32, i32), Unlock> {
        unlock_map_contents(*self)
    }
}

impl CellSet {
    /// Relies on `Default` of bevy's `HashSet`: a new set holds nothing.
    #[verifier::external_body]
    pub(crate) fn empty() -> (r: CellSet)
        ensures
            cell_set_contents(r) == Set::<(i32, i32)>::empty(),
    {
        CellSet { cells: bevy::utils::HashSet::default() }
    }

    /// Relies on hashbrown's `HashSet::contains`: whether the cell is in the set.
    #[verifier::external_body]
    pub(crate) fn contains(&self, c: (i32, i32)) -> (r: bool)
        ensures
            r == cell_set_contents(*self).contains(c),
    {
        self.cells.contains(&c)
    }

    /// Relies on hashbrown's `HashSet::insert`: the cell is added to the set.
    #[verifier::external_body]
    pub(crate) fn insert(&mut self, c: (i32, i32))
        ensures
            cell_set_contents(*final(self)) == cell_set_contents(*old(self)).insert(c),
    {
        self.cells.insert(c);
    }
}

impl UnlockMap {
    /// Relies on `Default` of bevy's `HashMap`: a new map holds nothing.
    #[verifier::external_body]
    pub(crate) fn empty() -> (r: UnlockMap)
        ensures
            unlock_map_contents(r) == UnlockTable::empty(),
    {
        UnlockMap { entries: bevy::utils::HashMap::default() }
    }

    /// Relies on hashbrown's `HashMap::contains_key`: whether the cell has an entry.
    #[verifier::external_body]
    pub(crate) fn contains_key(&self, c: (i32, i32)) -> (r: bool)
        ensures
            r == unlock_map_contents(*self).contains_key(c),
    {
        self.entries.contains_key(&c)
    }

    /// Relies on hashbrown's `HashMap::get`: the entry of the cell, if any.
    #[verifier::external_body]
    pub(crate) fn get(&self, c: (i32, i32)) -> (r: Option<Unlock>)
        ensures
            unlock_map_contents(*self).contains_key(c) ==> r == Some(unlock_map_contents(*self)[c]),
            !unlock_map_contents(*self).contains_key(c) ==> r is None,
    {
        self.entries.get(&c).copied()
    }

    /// Relies on hashbrown's `HashMap::insert`: the cell's entry becomes `u`.
    #[verifier::external_body]
    pub(crate) fn insert(&mut self, c: (i32, i32), u: Unlock)
        ensures
            unlock_map_contents(*final(self)) == unlock_map_contents(*old(self)).insert(c, u),
    {
        self.entries.insert(c, u);
    }
}

} // verus!
