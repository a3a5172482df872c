//! Bridge between library types and the raw values of the message passing interface.

use vstd::prelude::*;

verus! {

/// The raw handle of a communicator.
pub type RawComm = u64;

/// The raw handle of a datatype.
pub type RawDatatype = u64;

/// The raw handle of a matched, not yet received message.
pub type RawMessage = u64;

/// The raw handle of a request for an operation in progress.
pub type RawRequest = u64;

/// A type that can identify as a raw value understood by the message passing interface.
pub trait AsRaw {
    /// The raw type.
    type Raw;

    /// Whether `raw` is the raw value of `self`.
    spec fn is_raw(&self, raw: Self::Raw) -> bool;

    /// The raw value.
    fn as_raw(&self) -> (r: Self::Raw)
        ensures
            self.is_raw(r),
    ;
}

impl<T> AsRaw for T where T: core::ops::Deref, T::Target: AsRaw {
    type Raw = <T::Target as AsRaw>::Raw;

    /// The raw value of a pointer is the raw value of what it points to.
    open spec fn is_raw(&self, raw: Self::Raw) -> bool {
        exists|target: &T::Target| call_ensures(T::deref, (self,), target) && target.is_raw(raw)
    }

    fn as_raw(&self) -> (r: Self::Raw) {
        let target: &T::Target = self.deref();
        target.as_raw()
    }
}

/// `Deref::deref` of a shared reference, which std implements as `*self`: it returns the
/// reference itself, the value it refers to unchanged.
pub assume_specification<'b, V: ?Sized, 'a>[ <&'b V as core::ops::Deref>::deref ](x: &'a &'b V) -> (r: &'a V)
    ensures
        r == *x,
;

/// A shared reference has the raw value of the value it refers to.
pub proof fn law_reference_is_raw<M: AsRaw>(x: &M, raw: M::Raw)
    requires
        <&M as AsRaw>::is_raw(&x, raw),
    ensures
        x.is_raw(raw),
{
}

/// What mutable access to the raw value of a type reaches, as the contracts see it.
pub trait RawAccess: AsRaw {
    /// Whether `raw` is the raw value that mutable access to `self` reaches.
    spec fn is_raw_mut(&self, raw: Self::Raw) -> bool;
}

/// Mutable access through a pointer reaches the raw value of what it points to.
impl<T> RawAccess for T where T: core::ops::DerefMut, T::Target: RawAccess {
    open spec fn is_raw_mut(&self, raw: Self::Raw) -> bool {
        exists|pointer: &mut T, target: &mut T::Target|
            {
                &&& mut_ref_current(pointer) == *self
                &&& call_ensures(T::deref_mut, (pointer,), target)
                &&& <T::Target as RawAccess>::is_raw_mut(&*target, raw)
            }
    }
}

/// A type that can hand out mutable access to the raw value it holds.
pub trait AsRawMut: RawAccess {
    /// Mutable access to the raw value; it starts out as the raw value that `self` holds.
    fn as_raw_mut(&mut self) -> (r: &mut <Self as AsRaw>::Raw)
        ensures
            <Self as RawAccess>::is_raw_mut(&*old(self), *r),
    ;
}

impl<T> AsRawMut for T where T: core::ops::DerefMut, T::Target: AsRawMut {
    fn as_raw_mut(&mut self) -> (r: &mut <Self as AsRaw>::Raw) {
        let target: &mut T::Target = self.deref_mut();
        target.as_raw_mut()
    }
}

} // verus!
