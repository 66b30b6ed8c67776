//! A write-only wrapper.
//!
//! [`Wom`] owns one value. The value can be overwritten or changed in place,
//! and it can be taken back out by consuming the wrapper, but the wrapper
//! grants no read access to it: [`Wom::readable`] holds of no wrapper, and
//! the two read accessors require it. Verified code therefore cannot call
//! them at all, and unverified code that does is stopped by a panic. A read
//! attempt that is to be survived goes through [`Wom::try_as_ref`], which
//! answers every wrapper with [`ReadOfWriteOnlyValue`].
//!
//! Known limitation: a mutable borrow can be read through. Whoever holds the
//! reference that `as_mut` or [`Wom::deref_mut`] hands out can read the
//! wrapped value. Only the dedicated read accessors are closed.

use vstd::prelude::*;

verus! {

/// Makes a `T` write-only.
pub struct Wom<T> {
    inner: T,
}

/// The one failure of this library: write-only memory was read.
#[derive(Clone, Copy, Debug, PartialEq, Eq, Structural)]
pub struct ReadOfWriteOnlyValue;

impl<T> View for Wom<T> {
    type V = T;

    /// The wrapped value.
    closed spec fn view(&self) -> T {
        self.inner
    }
}

/// The wrapper that holds `t`.
pub closed spec fn wrapped<T>(t: T) -> Wom<T> {
    Wom { inner: t }
}

/// Wraps `t`, taking ownership of it.
#[verifier::when_used_as_spec(wrapped)]
pub fn wom<T>(t: T) -> (w: Wom<T>)
    ensures
        w == wrapped(t),
        w@ == t,
{
    Wom { inner: t }
}

impl<T> Wom<T> {
    /// Whether this wrapper grants read access to its contents. None does,
    /// whatever it holds and whatever was written to it before.
    pub open spec fn readable(&self) -> bool {
        false
    }

    /// What a mutable borrow of the contents does to the wrapper `self`: the
    /// borrower is lent the wrapped value, and the value that the borrower
    /// leaves behind when the borrow ends is the one that `after` holds.
    pub open spec fn lends(self, lent: T, left: T, after: Wom<T>) -> bool {
        &&& lent == self@
        &&& after@ == left
    }

    /// Consumes the wrapper and returns the wrapped value.
    pub fn into_inner(self) -> (t: T)
        ensures
            t == self@,
    {
        self.inner
    }

    /// Asks for read access to the contents and is refused, whatever the
    /// wrapper holds and whatever was written to it before.
    pub fn try_as_ref(&self) -> (r: Result<&T, ReadOfWriteOnlyValue>)
        ensures
            r == Err::<&T, ReadOfWriteOnlyValue>(ReadOfWriteOnlyValue),
    {
        Err(ReadOfWriteOnlyValue)
    }

    /// Read access to the contents, which no wrapper grants: the refusal of
    /// [`Wom::try_as_ref`] taken as fatal.
    ///
    /// This is an inherent method and not an impl of `AsRef`, whose method
    /// would have to admit every wrapper.
    ///
    /// # Panics
    ///
    /// Always, when unverified code calls it.
    pub fn as_ref(&self) -> (r: &T)
        requires
            self.readable(),
    {
        self.try_as_ref().expect("readably referencing write-only memory")
    }

    /// Transparent read access: [`Wom::as_ref`] under the name that `Deref`
    /// gives it, closed in the same way.
    ///
    /// # Panics
    ///
    /// Always, when unverified code calls it.
    pub fn deref(&self) -> (r: &T)
        requires
            self.readable(),
    {
        self.as_ref()
    }

    /// Transparent write access: `as_mut` under the name that `DerefMut`
    /// gives it, with the same contract.
    pub fn deref_mut(&mut self) -> (r: &mut T)
        ensures
            old(self).lends(*r, *final(r), *final(self)),
    {
        self.as_mut()
    }
}

impl<T> AsMut<T> for Wom<T> {
    /// Exclusive access to the contents, to overwrite them or to change them
    /// in place. The borrower can also read through the reference.
    fn as_mut(&mut self) -> (r: &mut T)
        ensures
            old(self).lends(*r, *final(r), *final(self)),
    {
        &mut self.inner
    }
}

/// Wrapping a value and unwrapping the result gives the value back.
pub proof fn lemma_wrap_then_unwrap<T>(v: T)
    ensures
        wom(v)@ == v,
{
}

/// A wrapper is nothing but its contents: two wrappers hold the same value
/// exactly when they are the same wrapper.
pub proof fn lemma_contents_decide<T>(a: Wom<T>, b: Wom<T>)
    ensures
        a@ == b@ <==> a == b,
{
}

/// No wrapper is readable, whatever it holds and however it came to hold it.
pub proof fn lemma_never_readable<T>(w: Wom<T>)
    ensures
        !w.readable(),
{
}

/// A value written over the contents through a mutable borrow persists.
/// Where the wrapper of `v` lends its contents out and the borrower leaves
/// `v2` behind, the borrower was lent `v`, and the wrapper afterwards is the
/// wrapper of `v2`: unwrapping it returns `v2`.
pub proof fn lemma_write_persists<T>(v: T, v2: T, lent: T, after: Wom<T>)
    requires
        wom(v).lends(lent, v2, after),
    ensures
        lent == v,
        after@ == v2,
        after == wom(v2),
{
}

} // verus!
