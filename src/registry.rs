use vstd::prelude::*;

use std::collections::HashMap;

verus! {

broadcast use vstd::std_specs::hash::group_hash_axioms;

/// The open controller handles, keyed by device index: at most one live
/// handle per index.
pub struct DeviceRegistry<H> {
    handles: HashMap<u32, H>,
}

impl<H> View for DeviceRegistry<H> {
    type V = Map<u32, H>;

    closed spec fn view(&self) -> Map<u32, H> {
        self.handles@
    }
}

impl<H> DeviceRegistry<H> {
    pub fn new() -> (r: DeviceRegistry<H>)
        ensures
            r@ == Map::<u32, H>::empty(),
    {
        DeviceRegistry { handles: HashMap::new() }
    }

    /// Stores the handle opened for `index`. A handle already stored under
    /// that index is replaced and handed back, so that the caller releases it.
    pub fn on_device_added(&mut self, index: u32, handle: H) -> (replaced: Option<H>)
        ensures
            final(self)@ == old(self)@.insert(index, handle),
            replaced == (if old(self)@.contains_key(index) {
                Some(old(self)@[index])
            } else {
                None::<H>
            }),
    {
        self.handles.insert(index, handle)
    }

    /// Removes and hands back the handle stored for `index`, for the caller
    /// to release; an index with no handle is no error and changes nothing.
    pub fn on_device_removed(&mut self, index: u32) -> (removed: Option<H>)
        ensures
            final(self)@ == old(self)@.remove(index),
            !old(self)@.contains_key(index) ==> final(self)@ == old(self)@,
            removed == (if old(self)@.contains_key(index) {
                Some(old(self)@[index])
            } else {
                None::<H>
            }),
    {
        let removed = self.handles.remove(&index);
        proof {
            if !old(self)@.contains_key(index) {
                assert(old(self)@.remove(index) == old(self)@);
            }
        }
        removed
    }

    pub fn contains(&self, index: u32) -> (r: bool)
        ensures
            r == self@.contains_key(index),
    {
        self.handles.contains_key(&index)
    }

    /// The number of open handles.
    pub fn len(&self) -> (r: usize)
        ensures
            r == self@.len(),
    {
        self.handles.len()
    }
}

} // verus!
