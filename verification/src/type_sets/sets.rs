//! The traits that make up sets of types, one for each size.
//!
//! `TypeSet<dyn Two<A, B>>` is the set of `A` and `B`. Each trait is implemented for every
//! (sized) type that contains its members, so a set is a subset of any set that contains all
//! of its members.
use super::{Contains, Members, SubsetOf, TypeSet, type_id_of};
use std::any::TypeId;
use vstd::prelude::*;

verus! {

/// The empty set.
pub trait Empty {}

impl<S> Empty for S {}

impl<S> SubsetOf<S> for TypeSet<dyn Empty> {}

impl Members for TypeSet<dyn Empty> {
    fn members() -> (r: Vec<TypeId>)
        ensures
            r.len() == 0,
    {
        Vec::new()
    }
}

/// A set of 1 type.
pub trait One<T1>: Empty + Contains<T1> {}

impl<T1, S> One<T1> for S where S: Empty + Contains<T1> {}

impl<T1, S> SubsetOf<S> for TypeSet<dyn One<T1>> where S: One<T1> {}

impl<T1: 'static> Members for TypeSet<dyn One<T1>> {
    fn members() -> (r: Vec<TypeId>)
        ensures
            r.len() == 1,
            crate::type_sets::is_type_id::<T1>(r@[0]),
    {
        let mut v = Vec::new();
        let id = type_id_of::<T1>();
        proof {
            crate::type_sets::lemma_is_type_id::<T1>(id);
        }
        v.push(id);
        v
    }
}

/// A set of 2 types.
pub trait Two<T1, T2>: One<T1> + Contains<T2> {}

impl<T1, T2, S> Two<T1, T2> for S where S: One<T1> + Contains<T2> {}

impl<T1, T2, S> SubsetOf<S> for TypeSet<dyn Two<T1, T2>> where S: Two<T1, T2> {}

impl<T1: 'static, T2: 'static> Members for TypeSet<dyn Two<T1, T2>> {
    fn members() -> (r: Vec<TypeId>)
        ensures
            r.len() == 2,
            crate::type_sets::is_type_id::<T1>(r@[0]),
            crate::type_sets::is_type_id::<T2>(r@[1]),
    {
        let mut v = Vec::new();
        let id = type_id_of::<T1>();
        proof {
            crate::type_sets::lemma_is_type_id::<T1>(id);
        }
        v.push(id);
        let id = type_id_of::<T2>();
        proof {
            crate::type_sets::lemma_is_type_id::<T2>(id);
        }
        v.push(id);
        v
    }
}

/// A set of 3 types.
pub trait Three<T1, T2, T3>: Two<T1, T2> + Contains<T3> {}

impl<T1, T2, T3, S> Three<T1, T2, T3> for S where S: Two<T1, T2> + Contains<T3> {}

impl<T1, T2, T3, S> SubsetOf<S> for TypeSet<dyn Three<T1, T2, T3>> where S: Three<T1, T2, T3> {}

impl<T1: 'static, T2: 'static, T3: 'static> Members for TypeSet<dyn Three<T1, T2, T3>> {
    fn members() -> (r: Vec<TypeId>)
        ensures
            r.len() == 3,
            crate::type_sets::is_type_id::<T1>(r@[0]),
            crate::type_sets::is_type_id::<T2>(r@[1]),
            crate::type_sets::is_type_id::<T3>(r@[2]),
    {
        let mut v = Vec::new();
        let id = type_id_of::<T1>();
        proof {
            crate::type_sets::lemma_is_type_id::<T1>(id);
        }
        v.push(id);
        let id = type_id_of::<T2>();
        proof {
            crate::type_sets::lemma_is_type_id::<T2>(id);
        }
        v.push(id);
        let id = type_id_of::<T3>();
        proof {
            crate::type_sets::lemma_is_type_id::<T3>(id);
        }
        v.push(id);
        v
    }
}

/// A set of 4 types.
pub trait Four<T1, T2, T3, T4>: Three<T1, T2, T3> + Contains<T4> {}

impl<T1, T2, T3, T4, S> Four<T1, T2, T3, T4> for S where S: Three<T1, T2, T3> + Contains<T4> {}

impl<T1, T2, T3, T4, S> SubsetOf<S> for TypeSet<dyn Four<T1, T2, T3, T4>> where S: Four<T1, T2, T3, T4> {}

impl<T1: 'static, T2: 'static, T3: 'static, T4: 'static> Members for TypeSet<dyn Four<T1, T2, T3, T4>> {
    fn members() -> (r: Vec<TypeId>)
        ensures
            r.len() == 4,
            crate::type_sets::is_type_id::<T1>(r@[0]),
            crate::type_sets::is_type_id::<T2>(r@[1]),
            crate::type_sets::is_type_id::<T3>(r@[2]),
            crate::type_sets::is_type_id::<T4>(r@[3]),
    {
        let mut v = Vec::new();
        let id = type_id_of::<T1>();
        proof {
            crate::type_sets::lemma_is_type_id::<T1>(id);
        }
        v.push(id);
        let id = type_id_of::<T2>();
        proof {
            crate::type_sets::lemma_is_type_id::<T2>(id);
        }
        v.push(id);
        let id = type_id_of::<T3>();
        proof {
            crate::type_sets::lemma_is_type_id::<T3>(id);
        }
        v.push(id);
        let id = type_id_of::<T4>();
        proof {
            crate::type_sets::lemma_is_type_id::<T4>(id);
        }
        v.push(id);
        v
    }
}

/// A set of 5 types.
pub trait Five<T1, T2, T3, T4, T5>: Four<T1, T2, T3, T4> + Contains<T5> {}

impl<T1, T2, T3, T4, T5, S> Five<T1, T2, T3, T4, T5> for S where S: Four<T1, T2, T3, T4> + Contains<T5> {}

impl<T1, T2, T3, T4, T5, S> SubsetOf<S> for TypeSet<dyn Five<T1, T2, T3, T4, T5>> where S: Five<T1, T2, T3, T4, T5> {}

impl<T1: 'static, T2: 'static, T3: 'static, T4: 'static, T5: 'static> Members for TypeSet<dyn Five<T1, T2, T3, T4, T5>> {
    fn members() -> (r: Vec<TypeId>)
        ensures
            r.len() == 5,
            crate::type_sets::is_type_id::<T1>(r@[0]),
            crate::type_sets::is_type_id::<T2>(r@[1]),
            crate::type_sets::is_type_id::<T3>(r@[2]),
            crate::type_sets::is_type_id::<T4>(r@[3]),
            crate::type_sets::is_type_id::<T5>(r@[4]),
    {
        let mut v = Vec::new();
        let id = type_id_of::<T1>();
        proof {
            crate::type_sets::lemma_is_type_id::<T1>(id);
        }
        v.push(id);
        let id = type_id_of::<T2>();
        proof {
            crate::type_sets::lemma_is_type_id::<T2>(id);
        }
        v.push(id);
        let id = type_id_of::<T3>();
        proof {
            crate::type_sets::lemma_is_type_id::<T3>(id);
        }
        v.push(id);
        let id = type_id_of::<T4>();
        proof {
            crate::type_sets::lemma_is_type_id::<T4>(id);
        }
        v.push(id);
        let id = type_id_of::<T5>();
        proof {
            crate::type_sets::lemma_is_type_id::<T5>(id);
        }
        v.push(id);
        v
    }
}

/// A set of 6 types.
pub trait Six<T1, T2, T3, T4, T5, T6>: Five<T1, T2, T3, T4, T5> + Contains<T6> {}

impl<T1, T2, T3, T4, T5, T6, S> Six<T1, T2, T3, T4, T5, T6> for S where S: Five<T1, T2, T3, T4, T5> + Contains<T6> {}

impl<T1, T2, T3, T4, T5, T6, S> SubsetOf<S> for TypeSet<dyn Six<T1, T2, T3, T4, T5, T6>> where S: Six<T1, T2, T3, T4, T5, T6> {}

impl<T1: 'static, T2: 'static, T3: 'static, T4: 'static, T5: 'static, T6: 'static> Members for TypeSet<dyn Six<T1, T2, T3, T4, T5, T6>> {
    fn members() -> (r: Vec<TypeId>)
        ensures
            r.len() == 6,
            crate::type_sets::is_type_id::<T1>(r@[0]),
            crate::type_sets::is_type_id::<T2>(r@[1]),
            crate::type_sets::is_type_id::<T3>(r@[2]),
            crate::type_sets::is_type_id::<T4>(r@[3]),
            crate::type_sets::is_type_id::<T5>(r@[4]),
            crate::type_sets::is_type_id::<T6>(r@[5]),
    {
        let mut v = Vec::new();
        let id = type_id_of::<T1>();
        proof {
            crate::type_sets::lemma_is_type_id::<T1>(id);
        }
        v.push(id);
        let id = type_id_of::<T2>();
        proof {
            crate::type_sets::lemma_is_type_id::<T2>(id);
        }
        v.push(id);
        let id = type_id_of::<T3>();
        proof {
            crate::type_sets::lemma_is_type_id::<T3>(id);
        }
        v.push(id);
        let id = type_id_of::<T4>();
        proof {
            crate::type_sets::lemma_is_type_id::<T4>(id);
        }
        v.push(id);
        let id = type_id_of::<T5>();
        proof {
            crate::type_sets::lemma_is_type_id::<T5>(id);
        }
        v.push(id);
        let id = type_id_of::<T6>();
        proof {
            crate::type_sets::lemma_is_type_id::<T6>(id);
        }
        v.push(id);
        v
    }
}

/// A set of 7 types.
pub trait Seven<T1, T2, T3, T4, T5, T6, T7>: Six<T1, T2, T3, T4, T5, T6> + Contains<T7> {}

impl<T1, T2, T3, T4, T5, T6, T7, S> Seven<T1, T2, T3, T4, T5, T6, T7> for S where S: Six<T1, T2, T3, T4, T5, T6> + Contains<T7> {}

impl<T1, T2, T3, T4, T5, T6, T7, S> SubsetOf<S> for TypeSet<dyn Seven<T1, T2, T3, T4, T5, T6, T7>> where S: Seven<T1, T2, T3, T4, T5, T6, T7> {}

impl<T1: 'static, T2: 'static, T3: 'static, T4: 'static, T5: 'static, T6: 'static, T7: 'static> Members for TypeSet<dyn Seven<T1, T2, T3, T4, T5, T6, T7>> {
    fn members() -> (r: Vec<TypeId>)
        ensures
            r.len() == 7,
            crate::type_sets::is_type_id::<T1>(r@[0]),
            crate::type_sets::is_type_id::<T2>(r@[1]),
            crate::type_sets::is_type_id::<T3>(r@[2]),
            crate::type_sets::is_type_id::<T4>(r@[3]),
            crate::type_sets::is_type_id::<T5>(r@[4]),
            crate::type_sets::is_type_id::<T6>(r@[5]),
            crate::type_sets::is_type_id::<T7>(r@[6]),
    {
        let mut v = Vec::new();
        let id = type_id_of::<T1>();
        proof {
            crate::type_sets::lemma_is_type_id::<T1>(id);
        }
        v.push(id);
        let id = type_id_of::<T2>();
        proof {
            crate::type_sets::lemma_is_type_id::<T2>(id);
        }
        v.push(id);
        let id = type_id_of::<T3>();
        proof {
            crate::type_sets::lemma_is_type_id::<T3>(id);
        }
        v.push(id);
        let id = type_id_of::<T4>();
        proof {
            crate::type_sets::lemma_is_type_id::<T4>(id);
        }
        v.push(id);
        let id = type_id_of::<T5>();
        proof {
            crate::type_sets::lemma_is_type_id::<T5>(id);
        }
        v.push(id);
        let id = type_id_of::<T6>();
        proof {
            crate::type_sets::lemma_is_type_id::<T6>(id);
        }
        v.push(id);
        let id = type_id_of::<T7>();
        proof {
            crate::type_sets::lemma_is_type_id::<T7>(id);
        }
        v.push(id);
        v
    }
}

/// A set of 8 types.
pub trait Eight<T1, T2, T3, T4, T5, T6, T7, T8>: Seven<T1, T2, T3, T4, T5, T6, T7> + Contains<T8> {}

impl<T1, T2, T3, T4, T5, T6, T7, T8, S> Eight<T1, T2, T3, T4, T5, T6, T7, T8> for S where S: Seven<T1, T2, T3, T4, T5, T6, T7> + Contains<T8> {}

impl<T1, T2, T3, T4, T5, T6, T7, T8, S> SubsetOf<S> for TypeSet<dyn Eight<T1, T2, T3, T4, T5, T6, T7, T8>> where S: Eight<T1, T2, T3, T4, T5, T6, T7, T8> {}

impl<T1: 'static, T2: 'static, T3: 'static, T4: 'static, T5: 'static, T6: 'static, T7: 'static, T8: 'static> Members for TypeSet<dyn Eight<T1, T2, T3, T4, T5, T6, T7, T8>> {
    fn members() -> (r: Vec<TypeId>)
        ensures
            r.len() == 8,
            crate::type_sets::is_type_id::<T1>(r@[0]),
            crate::type_sets::is_type_id::<T2>(r@[1]),
            crate::type_sets::is_type_id::<T3>(r@[2]),
            crate::type_sets::is_type_id::<T4>(r@[3]),
            crate::type_sets::is_type_id::<T5>(r@[4]),
            crate::type_sets::is_type_id::<T6>(r@[5]),
            crate::type_sets::is_type_id::<T7>(r@[6]),
            crate::type_sets::is_type_id::<T8>(r@[7]),
    {
        let mut v = Vec::new();
        let id = type_id_of::<T1>();
        proof {
            crate::type_sets::lemma_is_type_id::<T1>(id);
        }
        v.push(id);
        let id = type_id_of::<T2>();
        proof {
            crate::type_sets::lemma_is_type_id::<T2>(id);
        }
        v.push(id);
        let id = type_id_of::<T3>();
        proof {
            crate::type_sets::lemma_is_type_id::<T3>(id);
        }
        v.push(id);
        let id = type_id_of::<T4>();
        proof {
            crate::type_sets::lemma_is_type_id::<T4>(id);
        }
        v.push(id);
        let id = type_id_of::<T5>();
        proof {
            crate::type_sets::lemma_is_type_id::<T5>(id);
        }
        v.push(id);
        let id = type_id_of::<T6>();
        proof {
            crate::type_sets::lemma_is_type_id::<T6>(id);
        }
        v.push(id);
        let id = type_id_of::<T7>();
        proof {
            crate::type_sets::lemma_is_type_id::<T7>(id);
        }
        v.push(id);
        let id = type_id_of::<T8>();
        proof {
            crate::type_sets::lemma_is_type_id::<T8>(id);
        }
        v.push(id);
        v
    }
}

/// A set of 9 types.
pub trait Nine<T1, T2, T3, T4, T5, T6, T7, T8, T9>: Eight<T1, T2, T3, T4, T5, T6, T7, T8> + Contains<T9> {}

impl<T1, T2, T3, T4, T5, T6, T7, T8, T9, S> Nine<T1, T2, T3, T4, T5, T6, T7, T8, T9> for S where S: Eight<T1, T2, T3, T4, T5, T6, T7, T8> + Contains<T9> {}

impl<T1, T2, T3, T4, T5, T6, T7, T8, T9, S> SubsetOf<S> for TypeSet<dyn Nine<T1, T2, T3, T4, T5, T6, T7, T8, T9>> where S: Nine<T1, T2, T3, T4, T5, T6, T7, T8, T9> {}

impl<T1: 'static, T2: 'static, T3: 'static, T4: 'static, T5: 'static, T6: 'static, T7: 'static, T8: 'static, T9: 'static> Members for TypeSet<dyn Nine<T1, T2, T3, T4, T5, T6, T7, T8, T9>> {
    fn members() -> (r: Vec<TypeId>)
        ensures
            r.len() == 9,
            crate::type_sets::is_type_id::<T1>(r@[0]),
            crate::type_sets::is_type_id::<T2>(r@[1]),
            crate::type_sets::is_type_id::<T3>(r@[2]),
            crate::type_sets::is_type_id::<T4>(r@[3]),
            crate::type_sets::is_type_id::<T5>(r@[4]),
            crate::type_sets::is_type_id::<T6>(r@[5]),
            crate::type_sets::is_type_id::<T7>(r@[6]),
            crate::type_sets::is_type_id::<T8>(r@[7]),
            crate::type_sets::is_type_id::<T9>(r@[8]),
    {
        let mut v = Vec::new();
        let id = type_id_of::<T1>();
        proof {
            crate::type_sets::lemma_is_type_id::<T1>(id);
        }
        v.push(id);
        let id = type_id_of::<T2>();
        proof {
            crate::type_sets::lemma_is_type_id::<T2>(id);
        }
        v.push(id);
        let id = type_id_of::<T3>();
        proof {
            crate::type_sets::lemma_is_type_id::<T3>(id);
        }
        v.push(id);
        let id = type_id_of::<T4>();
        proof {
            crate::type_sets::lemma_is_type_id::<T4>(id);
        }
        v.push(id);
        let id = type_id_of::<T5>();
        proof {
            crate::type_sets::lemma_is_type_id::<T5>(id);
        }
        v.push(id);
        let id = type_id_of::<T6>();
        proof {
            crate::type_sets::lemma_is_type_id::<T6>(id);
        }
        v.push(id);
        let id = type_id_of::<T7>();
        proof {
            crate::type_sets::lemma_is_type_id::<T7>(id);
        }
        v.push(id);
        let id = type_id_of::<T8>();
        proof {
            crate::type_sets::lemma_is_type_id::<T8>(id);
        }
        v.push(id);
        let id = type_id_of::<T9>();
        proof {
            crate::type_sets::lemma_is_type_id::<T9>(id);
        }
        v.push(id);
        v
    }
}

/// A set of 10 types.
pub trait Ten<T1, T2, T3, T4, T5, T6, T7, T8, T9, T10>: Nine<T1, T2, T3, T4, T5, T6, T7, T8, T9> + Contains<T10> {}

impl<T1, T2, T3, T4, T5, T6, T7, T8, T9, T10, S> Ten<T1, T2, T3, T4, T5, T6, T7, T8, T9, T10> for S where S: Nine<T1, T2, T3, T4, T5, T6, T7, T8, T9> + Contains<T10> {}

impl<T1, T2, T3, T4, T5, T6, T7, T8, T9, T10, S> SubsetOf<S> for TypeSet<dyn Ten<T1, T2, T3, T4, T5, T6, T7, T8, T9, T10>> where S: Ten<T1, T2, T3, T4, T5, T6, T7, T8, T9, T10> {}

impl<T1: 'static, T2: 'static, T3: 'static, T4: 'static, T5: 'static, T6: 'static, T7: 'static, T8: 'static, T9: 'static, T10: 'static> Members for TypeSet<dyn Ten<T1, T2, T3, T4, T5, T6, T7, T8, T9, T10>> {
    fn members() -> (r: Vec<TypeId>)
        ensures
            r.len() == 10,
            crate::type_sets::is_type_id::<T1>(r@[0]),
            crate::type_sets::is_type_id::<T2>(r@[1]),
            crate::type_sets::is_type_id::<T3>(r@[2]),
            crate::type_sets::is_type_id::<T4>(r@[3]),
            crate::type_sets::is_type_id::<T5>(r@[4]),
            crate::type_sets::is_type_id::<T6>(r@[5]),
            crate::type_sets::is_type_id::<T7>(r@[6]),
            crate::type_sets::is_type_id::<T8>(r@[7]),
            crate::type_sets::is_type_id::<T9>(r@[8]),
            crate::type_sets::is_type_id::<T10>(r@[9]),
    {
        let mut v = Vec::new();
        let id = type_id_of::<T1>();
        proof {
            crate::type_sets::lemma_is_type_id::<T1>(id);
        }
        v.push(id);
        let id = type_id_of::<T2>();
        proof {
            crate::type_sets::lemma_is_type_id::<T2>(id);
        }
        v.push(id);
        let id = type_id_of::<T3>();
        proof {
            crate::type_sets::lemma_is_type_id::<T3>(id);
        }
        v.push(id);
        let id = type_id_of::<T4>();
        proof {
            crate::type_sets::lemma_is_type_id::<T4>(id);
        }
        v.push(id);
        let id = type_id_of::<T5>();
        proof {
            crate::type_sets::lemma_is_type_id::<T5>(id);
        }
        v.push(id);
        let id = type_id_of::<T6>();
        proof {
            crate::type_sets::lemma_is_type_id::<T6>(id);
        }
        v.push(id);
        let id = type_id_of::<T7>();
        proof {
            crate::type_sets::lemma_is_type_id::<T7>(id);
        }
        v.push(id);
        let id = type_id_of::<T8>();
        proof {
            crate::type_sets::lemma_is_type_id::<T8>(id);
        }
        v.push(id);
        let id = type_id_of::<T9>();
        proof {
            crate::type_sets::lemma_is_type_id::<T9>(id);
        }
        v.push(id);
        let id = type_id_of::<T10>();
        proof {
            crate::type_sets::lemma_is_type_id::<T10>(id);
        }
        v.push(id);
        v
    }
}

} // verus!
