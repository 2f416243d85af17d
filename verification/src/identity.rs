//! The identity of a trait object type.
use core::any::TypeId;
use vstd::prelude::*;
use vstd::std_specs::cmp::PartialEqSpecImpl;

verus! {

/// `core::any::TypeId`, carried as a value that Verus cannot look into. Two
/// of them are equal in contracts when they are the same identifier.
#[verifier::external_type_specification]
#[verifier::external_body]
pub struct ExTypeId(TypeId);

/// `TypeId::of`. Nothing is claimed of the value that comes back. std gives
/// every type one identifier, but it tells apart types that are one type to
/// Verus, such as trait object types that differ in their lifetimes only, so
/// contracts speak of an identifier only as one that a call for `T` returns.
pub assume_specification<T: ?Sized + 'static>[ TypeId::of::<T> ]() -> (id: TypeId);

/// `PartialEq::eq` of `TypeId`, which `==` calls: true exactly when both are
/// the same identifier.
#[verifier::external_body]
fn same_type_id(a: &TypeId, b: &TypeId) -> (same: bool)
    ensures
        same == (*a == *b),
{
    a == b
}

/// Unique identifier of a `dyn Trait` trait object type.
///
/// Serves the same purpose as `core::any::TypeId`, and is meant to be made
/// only for trait object types. Two identifiers are equal exactly when they
/// stand for the same trait object type, so in contracts an identifier is its
/// own model: `a == b` there means what `a == b` computes.
///
/// The order and the hash are those of `TypeId`: arbitrary, but the same
/// throughout the process, which is what a lookup key needs.
#[derive(Clone, Copy, Debug, Eq, PartialOrd, Ord, Hash)]
pub struct DynTypeId {
    type_id: TypeId,
}

impl DynTypeId {
    /// Returns the identifier of the trait object type `Dyn`: what
    /// `TypeId::of` returns for it.
    ///
    /// Code that relies on two identifiers being equal asks for one here and
    /// works with the value: the functions of this crate that take a `Dyn`
    /// are built on ones that take the identifier instead.
    pub fn of<Dyn: ?Sized + 'static>() -> (id: DynTypeId)
        ensures
            id.identifies::<Dyn>(),
    {
        DynTypeId { type_id: TypeId::of::<Dyn>() }
    }

    /// Whether this is an identifier that `TypeId::of` returns for the trait
    /// object type `Dyn`.
    ///
    /// This says of one call what it returned, and nothing of the next. That
    /// a type has the same identifier every time, and that no other type
    /// shares it, is what std promises of `TypeId`. It is not part of any
    /// contract here, because Verus takes types that differ in their
    /// lifetimes only for one type, and std does not.
    pub closed spec fn identifies<Dyn: ?Sized + 'static>(self) -> bool {
        call_ensures(TypeId::of::<Dyn>, (), self.type_id)
    }
}

impl PartialEq for DynTypeId {
    fn eq(&self, other: &DynTypeId) -> (same: bool) {
        same_type_id(&self.type_id, &other.type_id)
    }
}

impl PartialEqSpecImpl for DynTypeId {
    open spec fn obeys_eq_spec() -> bool {
        true
    }

    open spec fn eq_spec(&self, other: &DynTypeId) -> bool {
        *self == *other
    }
}

} // verus!
