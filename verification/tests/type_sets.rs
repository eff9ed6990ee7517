use meslin::type_sets::sets::{Empty, Four, One, Three, Two};
use meslin::type_sets::{AsSet, Members, SubsetOf, SupersetOf, TypeSet};
use std::any::TypeId;

struct MySet;

impl AsSet for MySet {
    type Set = TypeSet<dyn Two<u32, u64>>;
}

fn is_subset<T>()
where
    T: SubsetOf<TypeSet<dyn Two<u32, u64>>>,
{
}

fn is_subset2<T>()
where
    T: SubsetOf<TypeSet<dyn One<u32>>>,
{
}

fn is_superset1<T>()
where
    T: SupersetOf<TypeSet<dyn Two<u32, u64>>>,
{
}

fn is_superset2<T>()
where
    T: SupersetOf<TypeSet<dyn Three<u32, u64, u128>>>,
{
}

#[test]
fn lib_test() {
    is_subset::<TypeSet<dyn Four<u32, u64, u32, u32>>>();
    is_subset::<TypeSet<dyn One<u32>>>();
    is_subset::<TypeSet<dyn One<u64>>>();
    is_subset2::<TypeSet<dyn Empty>>();
    is_subset::<MySet>();

    is_superset1::<TypeSet<dyn Two<u32, u64>>>();
    is_superset2::<TypeSet<dyn Three<u32, u64, u128>>>();
    is_superset1::<MySet>();
}

#[test]
fn members_follow_the_set_and_its_alias() {
    assert!(<TypeSet<dyn Empty> as Members>::members().is_empty());
    assert_eq!(
        <TypeSet<dyn Two<u32, u64>> as Members>::members(),
        vec![TypeId::of::<u32>(), TypeId::of::<u64>()]
    );
    assert_eq!(
        <MySet as Members>::members(),
        vec![TypeId::of::<u32>(), TypeId::of::<u64>()]
    );
}
