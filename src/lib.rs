use vstd::prelude::*;

pub mod memory;
pub mod repr;
pub mod slots;

verus! {

/// A handle to a place in some memory that can be turned into a writable
/// handle to the very same place.
///
/// Obtaining the writable handle checks nothing: whoever writes through it
/// must know that no one else relies on the place staying unchanged. What the
/// memories of this crate do check is that every access stays within the
/// place's bounds and, for byte memory, that the bytes found there are a valid
/// value of the type read.
///
/// Never apply it to storage that must not change, such as a constant or a
/// value promoted to static storage: such storage has no place in these
/// memories, and on real references writing to it faults or corrupts memory.
pub trait ForceMut: Sized {
    /// The place the handle denotes.
    spec fn address(&self) -> nat;

    /// Whether writes through the handle are allowed.
    spec fn is_writable(&self) -> bool;

    /// A writable handle to the same place. Nothing is copied.
    fn forcemut(&self) -> (r: Self)
        ensures
            r.address() == self.address(),
            r.is_writable(),
    ;
}

} // verus!
