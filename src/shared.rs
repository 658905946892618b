//! The shape of a rewritten pair: a base type holding the logic, and a
//! wrapper that shares one lock-guarded base among all of its clones.
use vstd::prelude::*;
use vstd::rwlock::{RwLock, RwLockPredicate, WriteHandle};
use std::sync::Arc;

verus! {

/// The base type: the declared structure, whose methods hold the logic.
pub struct Base {
    value: usize,
}

impl View for Base {
    type V = usize;

    closed spec fn view(&self) -> usize {
        self.value
    }
}

impl Base {
    fn refmutself_none_none(&mut self)
        ensures
            final(self)@ == 0,
    {
        self.value = 0;
    }

    fn refmutself_some_none(&mut self)
        ensures
            final(self)@ == 0,
    {
        self.value = 0;
    }

    fn refself_none_type(&self) -> (r: usize)
        ensures
            r == self@,
    {
        self.value
    }

    fn none_some_type(value: usize) -> (r: Self)
        ensures
            r@ == value,
    {
        Self { value }
    }

    /// A shared borrow of the stored value.
    pub fn refself_none_reftype(&self) -> (r: &usize)
        ensures
            *r == self@,
    {
        &self.value
    }

    /// A mutable borrow of the stored value: what is written through it is
    /// the base's new value.
    pub fn refmutself_some_refmuttype(&mut self) -> (r: &mut usize)
        ensures
            *r == old(self)@,
            final(self)@ == *final(r),
    {
        &mut self.value
    }

    fn none_none_type() -> (r: Self)
        ensures
            r@ == 0,
    {
        Self { value: 0 }
    }

    fn refmutself_none_remuttype(&mut self) -> (r: &mut Self)
        ensures
            *r == *old(self),
            *final(self) == *final(r),
    {
        self
    }

    fn refmutself_some_remuttype(&mut self, value: usize) -> (r: &mut Self)
        ensures
            r@ == value,
            *final(self) == *final(r),
    {
        self.value = value;
        self
    }
}

/// Any base value may be stored in the wrapper's lock.
pub struct AnyBase;

impl RwLockPredicate<Base> for AnyBase {
    open spec fn inv(self, v: Base) -> bool {
        true
    }
}

/// The wrapper: a shared handle to one lock-guarded base. Its clones share
/// that base, so a change made through one is seen through all.
pub struct A {
    base: Arc<RwLock<Base, AnyBase>>,
}

/// Relies on Arc::clone: a new handle to the same shared value, which is
/// neither copied nor changed.
#[verifier::external_body]
fn share_handle(handle: &Arc<RwLock<Base, AnyBase>>) -> (r: Arc<RwLock<Base, AnyBase>>)
    ensures
        *r == **handle,
{
    Arc::clone(handle)
}

impl Clone for A {
    /// A second wrapper on the same lock: the handle is cloned, not the base.
    fn clone(&self) -> (r: Self)
        ensures
            r.lock() == self.lock(),
    {
        A { base: share_handle(&self.base) }
    }
}

impl A {
    /// The lock that guards the shared base.
    pub closed spec fn lock(&self) -> RwLock<Base, AnyBase> {
        *self.base
    }

    /// Resets the shared base's value, under the lock.
    pub fn refmutself_some_none(&mut self)
        ensures
            final(self).lock() == old(self).lock(),
    {
        let (mut b, handle) = self.base.acquire_write();
        b.refmutself_some_none();
        handle.release_write(b);
    }

    /// The shared base's value, read under the same exclusive lock that
    /// guards every change.
    pub fn refself_none_type(&self) -> usize {
        let (b, handle) = self.base.acquire_write();
        let v = b.refself_none_type();
        handle.release_write(b);
        v
    }

    /// A new wrapper around a fresh base holding `value`.
    pub fn none_some_type(value: usize) -> (r: Self)
        ensures
            r.lock().pred() == AnyBase,
    {
        Self { base: Arc::new(RwLock::new(Base::none_some_type(value), Ghost(AnyBase))) }
    }

    /// A new wrapper around a fresh base holding zero.
    pub fn none_none_type() -> (r: Self)
        ensures
            r.lock().pred() == AnyBase,
    {
        Self { base: Arc::new(RwLock::new(Base::none_none_type(), Ghost(AnyBase))) }
    }

    /// This wrapper, for chaining.
    pub fn refmutself_none_remuttype(&mut self) -> (r: &mut Self)
        ensures
            *r == *old(self),
            *final(self) == *final(r),
    {
        self
    }

    /// Stores `value` in the shared base, under the lock, and returns this
    /// wrapper for chaining.
    pub fn refmutself_some_remuttype(&mut self, value: usize) -> (r: &mut Self)
        ensures
            *r == *old(self),
            *final(self) == *final(r),
    {
        let (mut b, handle) = self.base.acquire_write();
        b.refmutself_some_remuttype(value);
        handle.release_write(b);
        self
    }

    /// Takes the lock and hands out the base with the handle that gives it
    /// back: the caller releases it with `release_write`.
    pub fn lock_base(&mut self) -> (r: (Base, WriteHandle<'_, Base, AnyBase>))
        ensures
            r.1.rwlock() == old(self).lock(),
    {
        self.base.acquire_write()
    }
}

} // verus!
