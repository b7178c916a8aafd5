//! Which layout entries want a shared surface to be activated.

use crate::window::id::MappedId;
use std::collections::HashSet;
use vstd::prelude::*;

verus! {

/// The entries, by the numbers of their ids, that currently request the activated state of one
/// surface.
#[derive(Debug)]
pub struct SurfaceActivatedEntries {
    pub ids: HashSet<u64>,
}

impl View for SurfaceActivatedEntries {
    type V = Set<u64>;

    open spec fn view(&self) -> Set<u64> {
        self.ids@
    }
}

/// The entries after one of them asked for, or gave up, the activated state.
pub open spec fn with_entry(entries: Set<u64>, id: u64, active: bool) -> Set<u64> {
    if active {
        entries.insert(id)
    } else {
        entries.remove(id)
    }
}

impl Default for SurfaceActivatedEntries {
    fn default() -> (entries: Self)
        ensures
            entries@ == Set::<u64>::empty(),
    {
        SurfaceActivatedEntries { ids: HashSet::new() }
    }
}

/// Notes what one entry wants, and tells whether any entry still wants the activated state.
pub fn update_surface_activated_entries(
    entries: &mut SurfaceActivatedEntries,
    id: MappedId,
    active: bool,
) -> (any_active: bool)
    ensures
        final(entries)@ == with_entry(old(entries)@, id.number(), active),
        any_active == !final(entries)@.is_empty(),
{
    broadcast use vstd::std_specs::hash::group_hash_axioms;

    let number: u64 = id.get();
    if active {
        entries.ids.insert(number);
    } else {
        entries.ids.remove(&number);
    }
    !entries.ids.is_empty()
}

} // verus!
