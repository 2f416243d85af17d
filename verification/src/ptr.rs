//! The erased reference in its raw form.
use crate::identity::DynTypeId;
use crate::parts::RawParts;
use vstd::prelude::*;

verus! {

/// The parts of a reference to a trait object, together with the identity of
/// the trait object type they were taken from.
///
/// This is the raw form of [`crate::AnyDyn`] and [`crate::AnyDynMut`]: it
/// tracks neither a lifetime nor whether the reference was shared or
/// exclusive.
///
/// The parts can be had back only by naming the identity they are kept
/// under, so the dispatch metadata of one trait is never handed out as that
/// of another.
#[derive(Clone, Copy, Debug)]
pub struct AnyDynPtr {
    parts: RawParts,
    type_id: DynTypeId,
}

impl AnyDynPtr {
    /// The identity of the trait object type that the parts were erased under.
    pub closed spec fn type_id(self) -> DynTypeId {
        self.type_id
    }

    /// The parts that are kept.
    pub closed spec fn parts(self) -> RawParts {
        self.parts
    }

    /// What a cast to `wanted` gives: the parts where `wanted` is the identity
    /// they are kept under, and nothing for any other identity.
    pub open spec fn spec_cast_to(self, wanted: DynTypeId) -> Option<RawParts> {
        if self.type_id() == wanted {
            Some(self.parts())
        } else {
            None
        }
    }

    /// The value that keeps `from` under the identity `type_id`.
    pub closed spec fn spec_with_type_id(from: RawParts, type_id: DynTypeId) -> AnyDynPtr {
        AnyDynPtr { parts: from, type_id }
    }

    /// Keeps `from` under the identity `type_id`.
    pub fn with_type_id(from: RawParts, type_id: DynTypeId) -> (ptr: AnyDynPtr)
        ensures
            ptr == AnyDynPtr::spec_with_type_id(from, type_id),
            ptr.parts() == from,
            ptr.type_id() == type_id,
    {
        AnyDynPtr { parts: from, type_id }
    }

    /// Keeps `from`, the parts of a reference to a `Dyn`, under the identity
    /// of `Dyn`: [`AnyDynPtr::with_type_id`] with the identity that
    /// [`DynTypeId::of`] gives for `Dyn`. The parts come back from
    /// [`AnyDynPtr::cast`] with the same `Dyn`.
    ///
    /// A reference to a `Dyn` must be made of two words for its parts to be
    /// all of it: [`RawParts::fits`] says whether it is.
    pub fn new<Dyn: ?Sized + 'static>(from: RawParts) -> (ptr: AnyDynPtr)
        requires
            RawParts::fits::<Dyn>(),
        ensures
            ptr.parts() == from,
            ptr.type_id().identifies::<Dyn>(),
    {
        AnyDynPtr::with_type_id(from, DynTypeId::of::<Dyn>())
    }

    /// Returns the parts if and only if they are kept under `wanted`.
    pub fn cast_to(&self, wanted: DynTypeId) -> (parts: Option<RawParts>)
        ensures
            parts == self.spec_cast_to(wanted),
    {
        if self.type_id == wanted {
            Some(self.parts)
        } else {
            None
        }
    }

    /// Returns the parts if they are kept under the identity of `Dyn`, and
    /// nothing otherwise: [`AnyDynPtr::cast_to`] with the identity that
    /// [`DynTypeId::of`] gives for `Dyn`.
    pub fn cast<Dyn: ?Sized + 'static>(&self) -> (parts: Option<RawParts>)
        ensures
            self.is_cast::<Dyn>(parts),
            parts is Some ==> parts == Some(self.parts()),
    {
        self.cast_to(DynTypeId::of::<Dyn>())
    }

    /// Whether `parts` is what a cast to the trait object type `Dyn` gives:
    /// what [`AnyDynPtr::spec_cast_to`] gives for an identifier of `Dyn`.
    pub open spec fn is_cast<Dyn: ?Sized + 'static>(self, parts: Option<RawParts>) -> bool {
        exists|wanted: DynTypeId|
            wanted.identifies::<Dyn>() && parts == #[trigger] self.spec_cast_to(wanted)
    }

    /// Two values that keep the same parts under the same identity are the
    /// same value.
    pub proof fn lemma_same_contents_same_ptr(self, other: AnyDynPtr)
        requires
            self.parts() == other.parts(),
            self.type_id() == other.type_id(),
        ensures
            self == other,
    {
    }

    /// What is kept is what was put in.
    pub proof fn lemma_with_type_id_keeps(from: RawParts, type_id: DynTypeId)
        ensures
            AnyDynPtr::spec_with_type_id(from, type_id).parts() == from,
            AnyDynPtr::spec_with_type_id(from, type_id).type_id() == type_id,
    {
    }

    /// Erasing and casting back loses nothing, and gives nothing away. Parts
    /// that are erased under one identity come back whole when that identity
    /// is asked for, and nothing comes back when any other is.
    pub proof fn lemma_cast_after_erase(from: RawParts, erased_as: DynTypeId, wanted: DynTypeId)
        ensures
            wanted == erased_as ==> AnyDynPtr::spec_with_type_id(from, erased_as).spec_cast_to(
                wanted,
            ) == Some(from),
            wanted != erased_as ==> AnyDynPtr::spec_with_type_id(from, erased_as).spec_cast_to(
                wanted,
            ) is None,
    {
    }
}

} // verus!
