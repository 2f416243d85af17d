//! Erased references with a lifetime and an access mode.
use crate::identity::DynTypeId;
use crate::parts::RawParts;
use crate::ptr::AnyDynPtr;
use core::marker::PhantomData;
use vstd::prelude::*;

verus! {

/// A shared reference to a trait object of a trait that is tracked only at
/// run time.
///
/// In other words, this is like `&'a dyn Trait`, but with `Trait` tracked
/// dynamically instead of statically. It can be copied as freely as a shared
/// reference can.
///
/// This type stands for shared references only. [`AnyDynMut`] is its
/// exclusive counterpart.
#[derive(Clone, Copy, Debug)]
pub struct AnyDyn<'a> {
    ptr: AnyDynPtr,
    _phantom: PhantomData<&'a ()>,
}

impl<'a> View for AnyDyn<'a> {
    type V = AnyDynPtr;

    /// The raw form: the lifetime is all that the wrapper adds to it.
    closed spec fn view(&self) -> AnyDynPtr {
        self.ptr
    }
}

impl<'a> AnyDyn<'a> {
    /// Erases the shared reference to a `Dyn` whose parts are `from`. The
    /// parts come back from [`AnyDyn::cast`] with the same `Dyn`.
    ///
    /// A reference to a `Dyn` must be made of two words for its parts to be
    /// all of it: [`RawParts::fits`] says whether it is.
    pub fn new<Dyn: ?Sized + 'static>(from: RawParts) -> (any: AnyDyn<'a>)
        requires
            RawParts::fits::<Dyn>(),
        ensures
            any@.parts() == from,
            any@.type_id().identifies::<Dyn>(),
    {
        AnyDyn::from_raw(AnyDynPtr::new::<Dyn>(from))
    }

    /// Gives `ptr` the lifetime `'a`.
    ///
    /// Nothing here can tell whether the instance lives that long: the caller
    /// picks a lifetime that is right for it.
    pub fn from_raw(ptr: AnyDynPtr) -> (any: AnyDyn<'a>)
        ensures
            any@ == ptr,
    {
        AnyDyn { ptr, _phantom: PhantomData }
    }

    /// Returns the parts of the reference if and only if it was erased under
    /// `wanted`.
    pub fn cast_to(self, wanted: DynTypeId) -> (parts: Option<RawParts>)
        ensures
            parts == self@.spec_cast_to(wanted),
    {
        self.ptr.cast_to(wanted)
    }

    /// Returns the parts of the reference if it was erased as a reference to
    /// a `Dyn`, and nothing otherwise: [`AnyDyn::cast_to`] with the identity
    /// that [`DynTypeId::of`] gives for `Dyn`.
    pub fn cast<Dyn: ?Sized + 'static>(self) -> (parts: Option<RawParts>)
        ensures
            self@.is_cast::<Dyn>(parts),
            parts is Some ==> parts == Some(self@.parts()),
    {
        self.cast_to(DynTypeId::of::<Dyn>())
    }

    /// Returns the raw form of this reference.
    pub fn as_ptr(self) -> (ptr: AnyDynPtr)
        ensures
            ptr == self@,
    {
        self.ptr
    }
}

/// An exclusive reference to a trait object of a trait that is tracked only
/// at run time.
///
/// In other words, this is like `&'a mut dyn Trait`, but with `Trait` tracked
/// dynamically instead of statically. Like an exclusive reference it cannot
/// be copied, and a cast uses it up, so no second reference to the instance
/// can be made from it.
#[derive(Debug)]
pub struct AnyDynMut<'a> {
    ptr: AnyDynPtr,
    _phantom: PhantomData<&'a mut ()>,
}

impl<'a> View for AnyDynMut<'a> {
    type V = AnyDynPtr;

    /// The raw form: the lifetime and the access mode are all that the wrapper
    /// adds to it.
    closed spec fn view(&self) -> AnyDynPtr {
        self.ptr
    }
}

impl<'a> AnyDynMut<'a> {
    /// Erases the exclusive reference to a `Dyn` whose parts are `from`. The
    /// parts come back from [`AnyDynMut::cast`] with the same `Dyn`.
    ///
    /// A reference to a `Dyn` must be made of two words for its parts to be
    /// all of it: [`RawParts::fits`] says whether it is.
    pub fn new<Dyn: ?Sized + 'static>(from: RawParts) -> (any: AnyDynMut<'a>)
        requires
            RawParts::fits::<Dyn>(),
        ensures
            any@.parts() == from,
            any@.type_id().identifies::<Dyn>(),
    {
        AnyDynMut::from_raw(AnyDynPtr::new::<Dyn>(from))
    }

    /// Gives `ptr` the lifetime `'a`, and exclusive access. Nothing here can
    /// tell whether the instance lives that long, nor whether another
    /// reference to it is in use: the caller answers for both.
    pub fn from_raw(ptr: AnyDynPtr) -> (any: AnyDynMut<'a>)
        ensures
            any@ == ptr,
    {
        AnyDynMut { ptr, _phantom: PhantomData }
    }

    /// Returns the parts of the reference if and only if it was erased under
    /// `wanted`.
    pub fn cast_to(self, wanted: DynTypeId) -> (parts: Option<RawParts>)
        ensures
            parts == self@.spec_cast_to(wanted),
    {
        self.ptr.cast_to(wanted)
    }

    /// Returns the parts of the reference if it was erased as a reference to
    /// a `Dyn`, and nothing otherwise: [`AnyDynMut::cast_to`] with the
    /// identity that [`DynTypeId::of`] gives for `Dyn`.
    pub fn cast<Dyn: ?Sized + 'static>(self) -> (parts: Option<RawParts>)
        ensures
            self@.is_cast::<Dyn>(parts),
            parts is Some ==> parts == Some(self@.parts()),
    {
        self.cast_to(DynTypeId::of::<Dyn>())
    }

    /// Returns the raw form of this reference.
    pub fn as_ptr(self) -> (ptr: AnyDynPtr)
        ensures
            ptr == self@,
    {
        self.ptr
    }
}

} // verus!
