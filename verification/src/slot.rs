//! Ownership-transfer buffer slot.
//!
//! A `BufferSlot` holds zero or one value. Moving the value in (`put`) and
//! out (`take`) is the only way to reach it, so at any instant a buffer
//! handed to a driver is with exactly one holder: the slot, or whoever took
//! it. `put` on an occupied slot is rejected and hands the offered value
//! back; it never overwrites silently, since an overwrite would leak the
//! previous buffer while hardware may still reference it.

use vstd::prelude::*;

verus! {

pub struct BufferSlot<T> {
    inner: Option<T>,
}

impl<T> BufferSlot<T> {
    /// What the slot holds, if anything.
    pub closed spec fn view(&self) -> Option<T> {
        self.inner
    }

    /// A fresh, empty slot.
    pub fn empty() -> (r: BufferSlot<T>)
        ensures
            r@ is None,
    {
        BufferSlot { inner: None }
    }

    /// Store `value` in the slot. Rejected, with `value` handed back and the
    /// slot untouched, if the slot is already occupied.
    pub fn put(&mut self, value: T) -> (r: Result<(), T>)
        ensures
            old(self)@ is None ==> r == Ok::<(), T>(()) && final(self)@ == Some(value),
            old(self)@ is Some ==> r == Err::<(), T>(value) && final(self)@ == old(self)@,
    {
        if self.inner.is_some() {
            Err(value)
        } else {
            self.inner = Some(value);
            Ok(())
        }
    }

    /// Empty the slot and return its contents; `None` if it was empty.
    pub fn take(&mut self) -> (r: Option<T>)
        ensures
            r == old(self)@,
            final(self)@ is None,
    {
        self.inner.take()
    }

    /// Whether the slot currently holds a value.
    pub fn is_occupied(&self) -> (r: bool)
        ensures
            r == (self@ is Some),
    {
        self.inner.is_some()
    }
}

} // verus!
