use vstd::prelude::*;

verus! {

/// A handle to a value with process-static storage that is never written.
///
/// Copies of the handle all name the same value; reading through any of
/// them is always sound.
pub struct StaticRef<E: 'static + ?Sized> {
    inner: &'static E,
}

impl<E: 'static + ?Sized> Clone for StaticRef<E> {
    fn clone(&self) -> (r: Self)
        ensures
            r == *self,
    {
        StaticRef { inner: self.inner }
    }
}

impl<E: 'static + ?Sized> Copy for StaticRef<E> {
}

impl<E: 'static + ?Sized> StaticRef<E> {
    /// The value the handle names.
    pub closed spec fn value(&self) -> &'static E {
        self.inner
    }

    /// Wraps a reference to a static value.
    pub fn from_ref(e: &'static E) -> (r: Self)
        ensures
            r.value() == e,
    {
        StaticRef { inner: e }
    }

    /// The static value itself.
    pub fn to_ref(self) -> (r: &'static E)
        ensures
            r == self.value(),
    {
        self.inner
    }

    /// The reference that boundary code converts into the address it hands
    /// to the host.
    pub fn to_ptr(self) -> (r: &'static E)
        ensures
            r == self.value(),
    {
        self.inner
    }
}

/// A handle to a value with process-static storage that is written once,
/// at start-up, before any reader exists.
///
/// The handle is the single owner of the mutable borrow: it cannot be
/// copied, so there is at most one writer.
pub struct StaticRefMut<E: 'static + ?Sized> {
    inner: &'static mut E,
}

impl<E: 'static + ?Sized> StaticRefMut<E> {
    /// The value the handle names.
    pub closed spec fn value(&self) -> &E {
        &*self.inner
    }

    /// Wraps the mutable borrow of a static value.
    pub fn from_mut(e: &'static mut E) -> (r: Self)
        ensures
            r.value() == &*old(e),
    {
        StaticRefMut { inner: e }
    }

    /// Gives up writing: the value is frozen and shared from now on.
    pub fn to_ref(self) -> (r: &'static E)
        ensures
            &*r == self.value(),
    {
        self.inner
    }

    /// The mutable borrow, for the single write at start-up.
    pub fn to_mut(self) -> (r: &'static mut E)
        ensures
            &*r == self.value(),
    {
        self.inner
    }

    /// The shared reference that boundary code converts into the address it
    /// hands to the host.
    pub fn to_ptr(self) -> (r: &'static E)
        ensures
            &*r == self.value(),
    {
        self.inner
    }

    /// The mutable borrow that boundary code converts into the address of a
    /// record the host writes to.
    pub fn to_mut_ptr(self) -> (r: &'static mut E)
        ensures
            &*r == self.value(),
    {
        self.inner
    }
}

} // verus!
