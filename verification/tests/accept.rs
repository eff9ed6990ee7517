use meslin::marker::{AcceptsNone, AcceptsOne, AcceptsThree, AcceptsTwo};
use meslin::AcceptsAll;
use std::any::TypeId;

#[test]
fn type_ids_same() {
    assert_eq!(<dyn AcceptsOne<u32>>::accepts_all()[0], TypeId::of::<u32>(),);
    assert_eq!(<dyn AcceptsTwo<u32, u64>>::accepts_all()[0], TypeId::of::<u32>(),);
    assert_eq!(<dyn AcceptsTwo<u32, u64>>::accepts_all()[1], TypeId::of::<u64>(),);
}

#[test]
fn accepts_all_lists_every_message_in_order() {
    assert!(<dyn AcceptsNone>::accepts_all().is_empty());
    let ids = <dyn AcceptsThree<u8, String, i64>>::accepts_all();
    assert_eq!(
        ids,
        vec![TypeId::of::<u8>(), TypeId::of::<String>(), TypeId::of::<i64>()]
    );
}

#[test]
fn accepts_type_finds_members() {
    let accepted = <dyn AcceptsTwo<u32, u64>>::accepts_all();
    assert!(meslin::dynamic::accepts_type(&accepted, &TypeId::of::<u32>()));
    assert!(meslin::dynamic::accepts_type(&accepted, &TypeId::of::<u64>()));
    assert!(!meslin::dynamic::accepts_type(&accepted, &TypeId::of::<i32>()));
    assert!(!meslin::dynamic::accepts_type(&[], &TypeId::of::<u32>()));
}

#[test]
fn accepts_all_types_is_subset_check() {
    let accepted = <dyn AcceptsThree<u32, u64, String>>::accepts_all();
    let sub = <dyn AcceptsTwo<String, u32>>::accepts_all();
    let not_sub = <dyn AcceptsTwo<u32, i8>>::accepts_all();
    assert!(meslin::dynamic::accepts_all_types(&accepted, &sub));
    assert!(!meslin::dynamic::accepts_all_types(&accepted, &not_sub));
    assert!(meslin::dynamic::accepts_all_types(&accepted, &[]));
    assert!(meslin::dynamic::accepts_all_types(&[], &[]));
    assert!(!meslin::dynamic::accepts_all_types(&[], &sub));
}

#[test]
fn covering_is_reflexive_transitive_and_ignores_order() {
    let a = <dyn AcceptsThree<u32, u64, String>>::accepts_all();
    let b = <dyn AcceptsTwo<String, u32>>::accepts_all();
    let c = <dyn AcceptsOne<u32>>::accepts_all();
    // Every list covers itself.
    assert!(meslin::dynamic::accepts_all_types(&a, &a));
    assert!(meslin::dynamic::accepts_all_types(&b, &b));
    // a covers b and b covers c, so a covers c.
    assert!(meslin::dynamic::accepts_all_types(&a, &b));
    assert!(meslin::dynamic::accepts_all_types(&b, &c));
    assert!(meslin::dynamic::accepts_all_types(&a, &c));
    // Order and repetition of the required identifiers do not matter.
    let reordered = vec![TypeId::of::<u32>(), TypeId::of::<String>(), TypeId::of::<u32>()];
    assert!(meslin::dynamic::accepts_all_types(&a, &reordered));
    let other = vec![TypeId::of::<i8>(), TypeId::of::<u32>()];
    let other_reordered = vec![TypeId::of::<u32>(), TypeId::of::<i8>(), TypeId::of::<i8>()];
    assert!(!meslin::dynamic::accepts_all_types(&a, &other));
    assert!(!meslin::dynamic::accepts_all_types(&a, &other_reordered));
}
