//! Helpers for casting from one trait object to another.
//!
//! The types at the root of the crate are building blocks for a facility of
//! this kind. What is here is one such facility: small, general, and usable
//! as it is or as a pattern for one that is part of a larger abstraction.
//!
//! An implementer of [`AsTraitObject`] answers, for the identity of a trait
//! object type, with an erased reference to itself as that trait or with
//! nothing. [`cast_trait_object`] asks that question and casts the answer.
//! [`match_dyn_type_id`] writes the answer for an implementer that lists what
//! it supports.
use crate::identity::DynTypeId;
use crate::parts::RawParts;
use crate::ptr::AnyDynPtr;
use crate::refs::AnyDyn;
use crate::refs::AnyDynMut;
use vstd::prelude::*;

verus! {

/// Implemented by a type that is willing to be seen as a trait object of
/// other traits, for the ones it chooses.
///
/// A trait of your own with a method like
/// [`AsTraitObject::as_trait_object`] serves as well, where callers start
/// from a trait object of that trait.
///
/// An implementer that writes neither item supports nothing. One that writes
/// [`AsTraitObject::as_trait_object`] says in [`AsTraitObject::offered`] what
/// the method hands out.
pub trait AsTraitObject {
    /// The erased reference that the implementer is willing to hand out for
    /// `type_id`: none, unless the implementer says otherwise.
    ///
    /// The answer depends on the implementer and on `type_id` alone.
    open spec fn offered(&self, type_id: DynTypeId) -> Option<AnyDynPtr> {
        None
    }

    /// Returns an erased reference to `self` as the trait object type that
    /// `type_id` identifies, if the implementer offers that trait.
    ///
    /// An implementer that does not write this method supports nothing: the
    /// answer is `None` for every identity.
    ///
    /// Callers that know the trait object type when they write the call use
    /// [`cast_trait_object`] instead.
    fn as_trait_object<'a>(&'a self, type_id: DynTypeId) -> (any: Option<AnyDyn<'a>>)
        ensures
            any matches Some(found) ==> self.offered(type_id) == Some(found@),
    {
        let _ = type_id;
        None
    }
}

/// What casting `offered`, the answer of an implementer, to `wanted` gives:
/// the parts of the reference where one was offered and it was erased under
/// `wanted`, and nothing otherwise.
pub open spec fn spec_cast_offered(offered: Option<AnyDynPtr>, wanted: DynTypeId) -> Option<
    RawParts,
> {
    match offered {
        Some(ptr) => ptr.spec_cast_to(wanted),
        None => None,
    }
}

/// Casts the answer of an implementer to `wanted`.
pub fn cast_offered<'a>(offered: Option<AnyDyn<'a>>, wanted: DynTypeId) -> (parts: Option<
    RawParts,
>)
    ensures
        parts == spec_cast_offered(spec_raw(offered), wanted),
        offered is None ==> parts is None,
{
    match offered {
        Some(any) => any.cast_to(wanted),
        None => None,
    }
}

/// Asks `obj` for a reference to itself as the trait object type that
/// `wanted` identifies, and casts the answer to it.
///
/// Parts come back only if `obj` offers them for `wanted` and keeps them
/// under `wanted`.
pub fn cast_trait_object_to(obj: &(impl AsTraitObject + ?Sized), wanted: DynTypeId) -> (parts:
    Option<RawParts>)
    ensures
        is_cast_of_answer(obj, wanted, parts),
        parts is Some ==> parts == spec_cast_offered(obj.offered(wanted), wanted),
        obj.offered(wanted) is None ==> parts is None,
{
    cast_offered(obj.as_trait_object(wanted), wanted)
}

/// Casts an [`AsTraitObject`] implementer to the trait object type `Dyn`, if
/// the implementer offers that trait: [`cast_trait_object_to`] with the
/// identity that [`DynTypeId::of`] gives for `Dyn`.
pub fn cast_trait_object<Dyn: ?Sized + 'static>(obj: &(impl AsTraitObject + ?Sized)) -> (parts:
    Option<RawParts>)
    ensures
        exists|wanted: DynTypeId|
            wanted.identifies::<Dyn>() && #[trigger] is_cast_of_answer(obj, wanted, parts) && (
            parts is Some ==> parts == spec_cast_offered(obj.offered(wanted), wanted)),
{
    cast_trait_object_to(obj, DynTypeId::of::<Dyn>())
}

/// The raw form of the answer of an implementer.
pub open spec fn spec_raw<'a>(answer: Option<AnyDyn<'a>>) -> Option<AnyDynPtr> {
    match answer {
        Some(any) => Some(any@),
        None => None,
    }
}

/// Whether `parts` is what asking `obj` for `wanted` and casting the answer
/// gives: `obj` answers a request for `wanted` with some erased reference or
/// with none, and `parts` is the cast of that answer to `wanted`.
pub open spec fn is_cast_of_answer<T: AsTraitObject + ?Sized>(
    obj: &T,
    wanted: DynTypeId,
    parts: Option<RawParts>,
) -> bool {
    exists|answer: Option<AnyDyn>|
        call_ensures(T::as_trait_object, (obj, wanted), answer) && parts == spec_cast_offered(
            #[trigger] spec_raw(answer),
            wanted,
        )
}

/// Whether `supported[i]` is the first entry that is kept under `wanted`.
pub open spec fn is_first_match(supported: Seq<AnyDynPtr>, wanted: DynTypeId, i: int) -> bool {
    &&& 0 <= i < supported.len()
    &&& supported[i].type_id() == wanted
    &&& forall|j: int| 0 <= j < i ==> (#[trigger] supported[j]).type_id() != wanted
}

/// The entry of `supported` that answers a request for `wanted`: the first
/// one that is kept under `wanted`, if there is any.
pub open spec fn spec_match(supported: Seq<AnyDynPtr>, wanted: DynTypeId) -> Option<AnyDynPtr> {
    if exists|i: int| is_first_match(supported, wanted, i) {
        Some(supported[choose|i: int| is_first_match(supported, wanted, i)])
    } else {
        None
    }
}

/// Whether no two entries of `supported` are kept under the same identity.
pub open spec fn distinct_type_ids(supported: Seq<AnyDynPtr>) -> bool {
    forall|i: int, j: int|
        0 <= i < j < supported.len() ==> (#[trigger] supported[i]).type_id() != (
        #[trigger] supported[j]).type_id()
}

/// The position of the first entry of `supported` that is kept under
/// `type_id`.
fn first_match(type_id: DynTypeId, supported: &[AnyDynPtr]) -> (at: Option<usize>)
    ensures
        at matches Some(i) ==> is_first_match(supported@, type_id, i as int),
        at is None ==> forall|j: int| 0 <= j < supported@.len() ==> !is_first_match(supported@, type_id, j),
{
    let mut i: usize = 0;
    while i < supported.len()
        invariant
            i <= supported.len(),
            forall|j: int| 0 <= j < i ==> (#[trigger] supported@[j]).type_id() != type_id,
        decreases supported.len() - i,
    {
        if supported[i].cast_to(type_id).is_some() {
            return Some(i);
        }
        i += 1;
    }
    None
}

/// Looks `type_id` up among the erased references that an implementer
/// supports, in the order in which they are listed.
///
/// The first entry that was erased under `type_id` is the answer, with the
/// lifetime `'a`. Where there is none the answer is `None`.
///
/// This is the body of an [`AsTraitObject::as_trait_object`] for an
/// implementer that lists, for each trait it supports, the reference to
/// itself as that trait.
pub fn match_dyn_type_id<'a>(type_id: DynTypeId, supported: &[AnyDynPtr]) -> (any: Option<
    AnyDyn<'a>,
>)
    ensures
        any matches Some(found) ==> spec_match(supported@, type_id) == Some(found@),
        any is None ==> spec_match(supported@, type_id) is None,
{
    match first_match(type_id, supported) {
        Some(i) => {
            proof {
                lemma_first_match_is_the_match(supported@, type_id, i as int);
            }
            Some(AnyDyn::from_raw(supported[i]))
        },
        None => None,
    }
}

/// Like [`match_dyn_type_id`], for exclusive references: the answer is an
/// [`AnyDynMut`].
pub fn match_dyn_type_id_mut<'a>(type_id: DynTypeId, supported: &[AnyDynPtr]) -> (any: Option<
    AnyDynMut<'a>,
>)
    ensures
        any matches Some(found) ==> spec_match(supported@, type_id) == Some(found@),
        any is None ==> spec_match(supported@, type_id) is None,
{
    match first_match(type_id, supported) {
        Some(i) => {
            proof {
                lemma_first_match_is_the_match(supported@, type_id, i as int);
            }
            Some(AnyDynMut::from_raw(supported[i]))
        },
        None => None,
    }
}

/// There is one first match at most, and the lookup finds it.
pub proof fn lemma_first_match_is_the_match(supported: Seq<AnyDynPtr>, wanted: DynTypeId, i: int)
    requires
        is_first_match(supported, wanted, i),
    ensures
        spec_match(supported, wanted) == Some(supported[i]),
{
    let chosen = choose|k: int| is_first_match(supported, wanted, k);
    assert(chosen == i) by {
        if chosen < i {
            assert(supported[chosen].type_id() != wanted);
        }
        if i < chosen {
            assert(supported[i].type_id() != wanted);
        }
    }
}

/// Where some entry is kept under `wanted`, one such entry comes first.
pub proof fn lemma_listed_has_first_match(supported: Seq<AnyDynPtr>, wanted: DynTypeId, k: int)
    requires
        0 <= k < supported.len(),
        supported[k].type_id() == wanted,
    ensures
        exists|i: int| is_first_match(supported, wanted, i),
    decreases k,
{
    if exists|j: int| 0 <= j < k && supported[j].type_id() == wanted {
        let j = choose|j: int| 0 <= j < k && supported[j].type_id() == wanted;
        lemma_listed_has_first_match(supported, wanted, j);
    } else {
        assert(is_first_match(supported, wanted, k));
    }
}

/// A lookup never answers with the wrong trait. What it finds is an entry of
/// the list that is kept under the identity asked for, and it finds nothing
/// only where no entry is kept under that identity: an identity that is not
/// listed is not matched by accident, and one that is listed is not missed.
pub proof fn lemma_match_is_exact(supported: Seq<AnyDynPtr>, wanted: DynTypeId)
    ensures
        spec_match(supported, wanted) matches Some(found) ==> found.type_id() == wanted
            && supported.contains(found),
        spec_match(supported, wanted) is None <==> forall|j: int|
            0 <= j < supported.len() ==> (#[trigger] supported[j]).type_id() != wanted,
{
    if exists|i: int| is_first_match(supported, wanted, i) {
        let i = choose|i: int| is_first_match(supported, wanted, i);
        assert(supported[i].type_id() == wanted);
    } else {
        assert forall|j: int| 0 <= j < supported.len() implies (#[trigger] supported[j]).type_id()
            != wanted by {
            if supported[j].type_id() == wanted {
                lemma_listed_has_first_match(supported, wanted, j);
            }
        }
    }
}

/// Casting the answer of a lookup gives the parts of the listed entry for a
/// listed identity, and nothing for any other.
pub proof fn lemma_cast_of_match(supported: Seq<AnyDynPtr>, wanted: DynTypeId)
    ensures
        forall|i: int| #[trigger]
            is_first_match(supported, wanted, i) ==> spec_cast_offered(
                spec_match(supported, wanted),
                wanted,
            ) == Some(supported[i].parts()),
        (forall|j: int| 0 <= j < supported.len() ==> (#[trigger] supported[j]).type_id() != wanted)
            ==> spec_cast_offered(spec_match(supported, wanted), wanted) is None,
{
    lemma_match_is_exact(supported, wanted);
    assert forall|i: int| #[trigger] is_first_match(supported, wanted, i) implies spec_cast_offered(
        spec_match(supported, wanted),
        wanted,
    ) == Some(supported[i].parts()) by {
        lemma_first_match_is_the_match(supported, wanted, i);
    }
}

/// The order of the list does not matter as long as no identity is listed
/// twice: two lists of the same entries then answer every request alike.
pub proof fn lemma_match_ignores_order(
    first: Seq<AnyDynPtr>,
    second: Seq<AnyDynPtr>,
    wanted: DynTypeId,
)
    requires
        distinct_type_ids(first),
        first.to_multiset() == second.to_multiset(),
    ensures
        spec_match(first, wanted) == spec_match(second, wanted),
{
    first.to_multiset_ensures();
    second.to_multiset_ensures();
    lemma_match_is_exact(first, wanted);
    lemma_match_is_exact(second, wanted);
    match spec_match(second, wanted) {
        Some(theirs) => {
            assert(first.contains(theirs)) by {
                assert(second.to_multiset().count(theirs) > 0);
                assert(first.to_multiset().count(theirs) > 0);
            }
            let k = choose|k: int| 0 <= k < first.len() && first[k] == theirs;
            assert(first[k].type_id() == wanted);
            let ours = spec_match(first, wanted)->Some_0;
            let i = choose|i: int| 0 <= i < first.len() && first[i] == ours;
            assert(i == k) by {
                if i < k {
                    assert(first[i].type_id() != first[k].type_id());
                }
                if k < i {
                    assert(first[k].type_id() != first[i].type_id());
                }
            }
        },
        None => {
            if spec_match(first, wanted) is Some {
                let ours = spec_match(first, wanted)->Some_0;
                assert(second.contains(ours)) by {
                    assert(first.to_multiset().count(ours) > 0);
                    assert(second.to_multiset().count(ours) > 0);
                }
                let k = choose|k: int| 0 <= k < second.len() && second[k] == ours;
                assert(second[k].type_id() == wanted);
            }
        },
    }
}

/// An implementer that offers nothing is cast to nothing, whatever trait is
/// asked for. This is so for one that leaves [`AsTraitObject`] as it comes,
/// also where it implements the trait that is asked for.
pub proof fn lemma_nothing_offered_nothing_cast<T: AsTraitObject + ?Sized>(obj: &T)
    requires
        forall|type_id: DynTypeId| obj.offered(type_id) is None,
    ensures
        forall|wanted: DynTypeId|
            spec_cast_offered(#[trigger] obj.offered(wanted), wanted) is None,
{
}

} // verus!
