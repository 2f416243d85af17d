use any_dyn::{AnyDyn, AnyDynMut, AnyDynPtr, DynTypeId, RawParts};
use std::collections::{BTreeSet, HashSet};

trait Speaks {
    fn speak(&self) -> &'static str;
}

trait Counts {
    fn count(&self) -> usize;
}

fn parts(data: usize, metadata: usize) -> RawParts {
    RawParts::new(data, metadata).expect("the address is not null")
}

#[test]
fn identity_of_one_trait_is_always_the_same() {
    assert_eq!(DynTypeId::of::<dyn Speaks>(), DynTypeId::of::<dyn Speaks>());
    assert_eq!(DynTypeId::of::<dyn Counts>(), DynTypeId::of::<dyn Counts>());
    assert!(DynTypeId::of::<dyn Speaks>() == DynTypeId::of::<dyn Speaks>());
}

#[test]
fn identities_of_different_traits_differ() {
    assert_ne!(DynTypeId::of::<dyn Speaks>(), DynTypeId::of::<dyn Counts>());
    assert_ne!(DynTypeId::of::<dyn Counts>(), DynTypeId::of::<dyn Speaks>());
    assert!(!(DynTypeId::of::<dyn Speaks>() == DynTypeId::of::<dyn Counts>()));
    assert_ne!(
        DynTypeId::of::<dyn Speaks>(),
        DynTypeId::of::<dyn Speaks + Send>()
    );
}

#[test]
fn identity_is_copied_and_printed() {
    let id = DynTypeId::of::<dyn Speaks>();
    let copy = id;
    assert_eq!(id, copy);
    assert_eq!(id.clone(), copy);
    assert!(!format!("{id:?}").is_empty());
}

#[test]
fn identity_is_ordered_consistently() {
    let a = DynTypeId::of::<dyn Speaks>();
    let b = DynTypeId::of::<dyn Counts>();
    assert!((a < b) != (b < a));
    assert_eq!(a.cmp(&b), b.cmp(&a).reverse());
    assert_eq!(a.cmp(&a), std::cmp::Ordering::Equal);
    assert_eq!(a.partial_cmp(&b), Some(a.cmp(&b)));
    let ordered: BTreeSet<DynTypeId> = [a, b, a, b].into_iter().collect();
    assert_eq!(ordered.len(), 2);
    assert!(ordered.contains(&a) && ordered.contains(&b));
}

#[test]
fn identity_is_a_hash_key() {
    let mut seen = HashSet::new();
    assert!(seen.insert(DynTypeId::of::<dyn Speaks>()));
    assert!(seen.insert(DynTypeId::of::<dyn Counts>()));
    assert!(!seen.insert(DynTypeId::of::<dyn Speaks>()));
    assert_eq!(seen.len(), 2);
    assert!(seen.contains(&DynTypeId::of::<dyn Counts>()));
}

#[test]
fn parts_keep_their_two_words() {
    let p = RawParts::new(0x1000, 0x2000).unwrap();
    assert_eq!(p.data(), 0x1000);
    assert_eq!(p.metadata(), 0x2000);
    let q = RawParts::new(usize::MAX, 0).unwrap();
    assert_eq!(q.data(), usize::MAX);
    assert_eq!(q.metadata(), 0);
    assert_eq!(RawParts::new(1, usize::MAX).unwrap().metadata(), usize::MAX);
}

#[test]
fn parts_with_a_null_address_do_not_exist() {
    assert_eq!(RawParts::new(0, 0x2000), None);
    assert_eq!(RawParts::new(0, 0), None);
}

#[test]
fn parts_are_equal_when_both_words_are() {
    assert_eq!(parts(1, 2), parts(1, 2));
    assert_ne!(parts(1, 2), parts(1, 3));
    assert_ne!(parts(1, 2), parts(2, 2));
    let p = parts(5, 6);
    let copy = p;
    assert_eq!(p, copy);
    assert!(!format!("{p:?}").is_empty());
}

#[test]
fn references_to_trait_objects_fit() {
    assert!(RawParts::fits::<dyn Speaks>());
    assert!(RawParts::fits::<dyn Counts>());
    assert!(RawParts::fits::<dyn Speaks + Send + Sync>());
}

#[test]
fn references_of_one_word_do_not_fit() {
    assert!(!RawParts::fits::<u8>());
    assert!(!RawParts::fits::<usize>());
    assert!(!RawParts::fits::<String>());
}

#[test]
fn ptr_casts_back_to_the_trait_it_was_made_from() {
    let from = parts(0x1000, 0x2000);
    let ptr = AnyDynPtr::new::<dyn Speaks>(from);
    assert_eq!(ptr.cast::<dyn Speaks>(), Some(from));
}

#[test]
fn ptr_casts_to_no_other_trait() {
    let from = parts(0x1000, 0x2000);
    let ptr = AnyDynPtr::new::<dyn Speaks>(from);
    assert_eq!(ptr.cast::<dyn Counts>(), None);
    assert_eq!(ptr.cast::<dyn Speaks + Send>(), None);
    let ptr = AnyDynPtr::new::<dyn Counts>(from);
    assert_eq!(ptr.cast::<dyn Speaks>(), None);
    assert_eq!(ptr.cast::<dyn Counts>(), Some(from));
}

#[test]
fn ptr_gives_the_same_answer_every_time() {
    let from = parts(0x1000, 0x2000);
    let ptr = AnyDynPtr::new::<dyn Speaks>(from);
    let first = ptr.cast::<dyn Speaks>();
    let second = ptr.cast::<dyn Speaks>();
    let third = ptr.cast::<dyn Speaks>();
    assert_eq!(first, Some(from));
    assert_eq!(second, first);
    assert_eq!(third, first);
    assert_eq!(ptr.cast::<dyn Counts>(), None);
    assert_eq!(ptr.cast::<dyn Counts>(), None);
    assert_eq!(ptr.cast::<dyn Speaks>(), first);
}

#[test]
fn ptr_with_type_id_casts_to_that_identity_only() {
    let speaks = DynTypeId::of::<dyn Speaks>();
    let counts = DynTypeId::of::<dyn Counts>();
    let from = parts(0x77, 0x88);
    let ptr = AnyDynPtr::with_type_id(from, speaks);
    assert_eq!(ptr.cast_to(speaks), Some(from));
    assert_eq!(ptr.cast_to(counts), None);
    assert_eq!(ptr.cast::<dyn Speaks>(), Some(from));
    assert_eq!(ptr.cast::<dyn Counts>(), None);
}

#[test]
fn ptr_new_agrees_with_with_type_id() {
    let from = parts(0x77, 0x88);
    let ptr = AnyDynPtr::new::<dyn Counts>(from);
    assert_eq!(ptr.cast_to(DynTypeId::of::<dyn Counts>()), Some(from));
    assert_eq!(ptr.cast_to(DynTypeId::of::<dyn Speaks>()), None);
}

#[test]
fn ptr_is_copied_and_printed() {
    let from = parts(3, 4);
    let ptr = AnyDynPtr::new::<dyn Speaks>(from);
    let copy = ptr;
    assert_eq!(ptr.cast::<dyn Speaks>(), copy.cast::<dyn Speaks>());
    assert_eq!(ptr.clone().cast::<dyn Speaks>(), Some(from));
    assert!(!format!("{ptr:?}").is_empty());
}

#[test]
fn shared_reference_casts_back_to_the_trait_it_was_made_from() {
    let from = parts(0x1000, 0x2000);
    let any = AnyDyn::new::<dyn Speaks>(from);
    assert_eq!(any.cast::<dyn Speaks>(), Some(from));
    assert_eq!(any.cast::<dyn Counts>(), None);
    assert_eq!(any.cast_to(DynTypeId::of::<dyn Speaks>()), Some(from));
    assert_eq!(any.cast_to(DynTypeId::of::<dyn Counts>()), None);
}

#[test]
fn shared_reference_can_be_copied_and_cast_again() {
    let from = parts(0x1000, 0x2000);
    let any = AnyDyn::new::<dyn Speaks>(from);
    let copy = any;
    assert_eq!(any.cast::<dyn Speaks>(), Some(from));
    assert_eq!(copy.cast::<dyn Speaks>(), Some(from));
    assert_eq!(any.cast::<dyn Speaks>(), Some(from));
    assert!(!format!("{any:?}").is_empty());
}

#[test]
fn shared_reference_goes_to_its_raw_form_and_back() {
    let from = parts(0x1000, 0x2000);
    let any = AnyDyn::new::<dyn Speaks>(from);
    let ptr = any.as_ptr();
    assert_eq!(ptr.cast::<dyn Speaks>(), Some(from));
    assert_eq!(ptr.cast::<dyn Counts>(), None);
    let again = AnyDyn::from_raw(ptr);
    assert_eq!(again.cast::<dyn Speaks>(), Some(from));
    assert_eq!(again.cast::<dyn Counts>(), None);
}

#[test]
fn exclusive_reference_casts_back_to_the_trait_it_was_made_from() {
    let from = parts(0x1000, 0x2000);
    assert_eq!(
        AnyDynMut::new::<dyn Speaks>(from).cast::<dyn Speaks>(),
        Some(from)
    );
    assert_eq!(AnyDynMut::new::<dyn Speaks>(from).cast::<dyn Counts>(), None);
    assert_eq!(
        AnyDynMut::new::<dyn Counts>(from).cast_to(DynTypeId::of::<dyn Counts>()),
        Some(from)
    );
    assert_eq!(
        AnyDynMut::new::<dyn Counts>(from).cast_to(DynTypeId::of::<dyn Speaks>()),
        None
    );
    assert!(!format!("{:?}", AnyDynMut::new::<dyn Speaks>(from)).is_empty());
}

#[test]
fn exclusive_reference_goes_to_its_raw_form_and_back() {
    let from = parts(0x1000, 0x2000);
    let ptr = AnyDynMut::new::<dyn Speaks>(from).as_ptr();
    assert_eq!(ptr.cast::<dyn Speaks>(), Some(from));
    let again = AnyDynMut::from_raw(ptr);
    assert_eq!(again.cast::<dyn Speaks>(), Some(from));
    assert_eq!(AnyDynMut::from_raw(ptr).cast::<dyn Counts>(), None);
}

#[test]
fn both_wrappers_share_one_raw_form() {
    let from = parts(0x1000, 0x2000);
    let ptr = AnyDynPtr::new::<dyn Counts>(from);
    assert_eq!(
        AnyDyn::from_raw(ptr).cast::<dyn Counts>(),
        AnyDynMut::from_raw(ptr).cast::<dyn Counts>()
    );
    assert_eq!(
        AnyDyn::from_raw(ptr).cast::<dyn Speaks>(),
        AnyDynMut::from_raw(ptr).cast::<dyn Speaks>()
    );
}
