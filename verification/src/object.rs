//! The common surface of dialog wrappers that own one native handle.

use vstd::prelude::*;

use crate::native::{free_step, NativeLayer};

verus! {

/// A wrapper owning exactly one native handle.
///
/// Every implementor exposes its handle id, can present itself, and can
/// release the handle it owns.  Release demands a live wrapper and leaves
/// it released, so the underlying handle is freed at most once however the
/// wrapper is driven.
pub trait Object {
    /// What presenting the object hands back: a reply for a question
    /// dialog, nothing for an input box.
    type ReturnValue;

    /// Whether the native handle is still owned.
    spec fn is_live(&self) -> bool;

    /// The id of the owned native handle.
    spec fn raw_id(&self) -> u64;

    /// The id of the owned native handle, the stand-in for the raw native
    /// pointer.
    fn get_raw(&self) -> (r: u64)
        ensures
            r == self.raw_id(),
    ;

    /// Presents the object through the native layer.  Presenting never
    /// creates or releases a handle.
    fn show(&mut self, host: &mut NativeLayer) -> (r: Self::ReturnValue)
        requires
            old(self).is_live(),
            old(host).wf(),
            old(host).displays < u64::MAX,
        ensures
            final(self).is_live(),
            final(self).raw_id() == old(self).raw_id(),
            final(host).wf(),
            final(host).allocs == old(host).allocs,
            final(host).frees == old(host).frees,
            final(host).live == old(host).live,
            final(host).initialized == old(host).initialized,
    ;

    /// Releases the owned native handle, exactly once per wrapper.
    fn free(&mut self, host: &mut NativeLayer)
        requires
            old(self).is_live(),
            old(host).wf(),
            old(host).live@.contains(old(self).raw_id()),
        ensures
            !final(self).is_live(),
            final(self).raw_id() == old(self).raw_id(),
            final(host).wf(),
            free_step(*old(host), *final(host), old(self).raw_id()),
    ;
}

} // verus!
