//! Marker traits for dynamic protocols, one for each number of accepted messages.
//! 
//! `dyn AcceptsTwo<A, B>` accepts `A` and `B`.
use super::{Accepts, AcceptsAll, AcceptsSubsetOf};
use crate::type_sets::type_id_of;
use std::any::TypeId;
use vstd::prelude::*;

verus! {

/// Accepts no messages.
pub trait AcceptsNone {}

impl<S> AcceptsNone for S {}

impl<S: ?Sized> AcceptsSubsetOf<S> for dyn AcceptsNone {}

impl AcceptsAll for dyn AcceptsNone {
    fn accepts_all() -> (r: Vec<TypeId>)
        ensures
            r.len() == 0,
    {
        Vec::new()
    }
}

/// Accepts 1 message.
pub trait AcceptsOne<T1>: AcceptsNone + Accepts<T1> {}

impl<T1, S> AcceptsOne<T1> for S where S: AcceptsNone + Accepts<T1> {}

impl<T1, S: ?Sized> AcceptsSubsetOf<S> for dyn AcceptsOne<T1> where S: AcceptsOne<T1> {}

impl<T1: 'static> AcceptsAll for dyn AcceptsOne<T1> {
    fn accepts_all() -> (r: Vec<TypeId>)
        ensures
            r.len() == 1,
            crate::type_sets::is_type_id::<T1>(r@[0]),
    {
        let mut v = Vec::new();
        let id = type_id_of::<T1>();
        proof {
            crate::type_sets::lemma_is_type_id::<T1>(id);
        }
        v.push(id);
        v
    }
}

/// Accepts 2 messages.
pub trait AcceptsTwo<T1, T2>: AcceptsOne<T1> + Accepts<T2> {}

impl<T1, T2, S> AcceptsTwo<T1, T2> for S where S: AcceptsOne<T1> + Accepts<T2> {}

impl<T1, T2, S: ?Sized> AcceptsSubsetOf<S> for dyn AcceptsTwo<T1, T2> where S: AcceptsTwo<T1, T2> {}

impl<T1: 'static, T2: 'static> AcceptsAll for dyn AcceptsTwo<T1, T2> {
    fn accepts_all() -> (r: Vec<TypeId>)
        ensures
            r.len() == 2,
            crate::type_sets::is_type_id::<T1>(r@[0]),
            crate::type_sets::is_type_id::<T2>(r@[1]),
    {
        let mut v = Vec::new();
        let id = type_id_of::<T1>();
        proof {
            crate::type_sets::lemma_is_type_id::<T1>(id);
        }
        v.push(id);
        let id = type_id_of::<T2>();
        proof {
            crate::type_sets::lemma_is_type_id::<T2>(id);
        }
        v.push(id);
        v
    }
}

/// Accepts 3 messages.
pub trait AcceptsThree<T1, T2, T3>: AcceptsTwo<T1, T2> + Accepts<T3> {}

impl<T1, T2, T3, S> AcceptsThree<T1, T2, T3> for S where S: AcceptsTwo<T1, T2> + Accepts<T3> {}

impl<T1, T2, T3, S: ?Sized> AcceptsSubsetOf<S> for dyn AcceptsThree<T1, T2, T3> where S: AcceptsThree<T1, T2, T3> {}

impl<T1: 'static, T2: 'static, T3: 'static> AcceptsAll for dyn AcceptsThree<T1, T2, T3> {
    fn accepts_all() -> (r: Vec<TypeId>)
        ensures
            r.len() == 3,
            crate::type_sets::is_type_id::<T1>(r@[0]),
            crate::type_sets::is_type_id::<T2>(r@[1]),
            crate::type_sets::is_type_id::<T3>(r@[2]),
    {
        let mut v = Vec::new();
        let id = type_id_of::<T1>();
        proof {
            crate::type_sets::lemma_is_type_id::<T1>(id);
        }
        v.push(id);
        let id = type_id_of::<T2>();
        proof {
            crate::type_sets::lemma_is_type_id::<T2>(id);
        }
        v.push(id);
        let id = type_id_of::<T3>();
        proof {
            crate::type_sets::lemma_is_type_id::<T3>(id);
        }
        v.push(id);
        v
    }
}

/// Accepts 4 messages.
pub trait AcceptsFour<T1, T2, T3, T4>: AcceptsThree<T1, T2, T3> + Accepts<T4> {}

impl<T1, T2, T3, T4, S> AcceptsFour<T1, T2, T3, T4> for S where S: AcceptsThree<T1, T2, T3> + Accepts<T4> {}

impl<T1, T2, T3, T4, S: ?Sized> AcceptsSubsetOf<S> for dyn AcceptsFour<T1, T2, T3, T4> where S: AcceptsFour<T1, T2, T3, T4> {}

impl<T1: 'static, T2: 'static, T3: 'static, T4: 'static> AcceptsAll for dyn AcceptsFour<T1, T2, T3, T4> {
    fn accepts_all() -> (r: Vec<TypeId>)
        ensures
            r.len() == 4,
            crate::type_sets::is_type_id::<T1>(r@[0]),
            crate::type_sets::is_type_id::<T2>(r@[1]),
            crate::type_sets::is_type_id::<T3>(r@[2]),
            crate::type_sets::is_type_id::<T4>(r@[3]),
    {
        let mut v = Vec::new();
        let id = type_id_of::<T1>();
        proof {
            crate::type_sets::lemma_is_type_id::<T1>(id);
        }
        v.push(id);
        let id = type_id_of::<T2>();
        proof {
            crate::type_sets::lemma_is_type_id::<T2>(id);
        }
        v.push(id);
        let id = type_id_of::<T3>();
        proof {
            crate::type_sets::lemma_is_type_id::<T3>(id);
        }
        v.push(id);
        let id = type_id_of::<T4>();
        proof {
            crate::type_sets::lemma_is_type_id::<T4>(id);
        }
        v.push(id);
        v
    }
}

/// Accepts 5 messages.
pub trait AcceptsFive<T1, T2, T3, T4, T5>: AcceptsFour<T1, T2, T3, T4> + Accepts<T5> {}

impl<T1, T2, T3, T4, T5, S> AcceptsFive<T1, T2, T3, T4, T5> for S where S: AcceptsFour<T1, T2, T3, T4> + Accepts<T5> {}

impl<T1, T2, T3, T4, T5, S: ?Sized> AcceptsSubsetOf<S> for dyn AcceptsFive<T1, T2, T3, T4, T5> where S: AcceptsFive<T1, T2, T3, T4, T5> {}

impl<T1: 'static, T2: 'static, T3: 'static, T4: 'static, T5: 'static> AcceptsAll for dyn AcceptsFive<T1, T2, T3, T4, T5> {
    fn accepts_all() -> (r: Vec<TypeId>)
        ensures
            r.len() == 5,
            crate::type_sets::is_type_id::<T1>(r@[0]),
            crate::type_sets::is_type_id::<T2>(r@[1]),
            crate::type_sets::is_type_id::<T3>(r@[2]),
            crate::type_sets::is_type_id::<T4>(r@[3]),
            crate::type_sets::is_type_id::<T5>(r@[4]),
    {
        let mut v = Vec::new();
        let id = type_id_of::<T1>();
        proof {
            crate::type_sets::lemma_is_type_id::<T1>(id);
        }
        v.push(id);
        let id = type_id_of::<T2>();
        proof {
            crate::type_sets::lemma_is_type_id::<T2>(id);
        }
        v.push(id);
        let id = type_id_of::<T3>();
        proof {
            crate::type_sets::lemma_is_type_id::<T3>(id);
        }
        v.push(id);
        let id = type_id_of::<T4>();
        proof {
            crate::type_sets::lemma_is_type_id::<T4>(id);
        }
        v.push(id);
        let id = type_id_of::<T5>();
        proof {
            crate::type_sets::lemma_is_type_id::<T5>(id);
        }
        v.push(id);
        v
    }
}

/// Accepts 6 messages.
pub trait AcceptsSix<T1, T2, T3, T4, T5, T6>: AcceptsFive<T1, T2, T3, T4, T5> + Accepts<T6> {}

impl<T1, T2, T3, T4, T5, T6, S> AcceptsSix<T1, T2, T3, T4, T5, T6> for S where S: AcceptsFive<T1, T2, T3, T4, T5> + Accepts<T6> {}

impl<T1, T2, T3, T4, T5, T6, S: ?Sized> AcceptsSubsetOf<S> for dyn AcceptsSix<T1, T2, T3, T4, T5, T6> where S: AcceptsSix<T1, T2, T3, T4, T5, T6> {}

impl<T1: 'static, T2: 'static, T3: 'static, T4: 'static, T5: 'static, T6: 'static> AcceptsAll for dyn AcceptsSix<T1, T2, T3, T4, T5, T6> {
    fn accepts_all() -> (r: Vec<TypeId>)
        ensures
            r.len() == 6,
            crate::type_sets::is_type_id::<T1>(r@[0]),
            crate::type_sets::is_type_id::<T2>(r@[1]),
            crate::type_sets::is_type_id::<T3>(r@[2]),
            crate::type_sets::is_type_id::<T4>(r@[3]),
            crate::type_sets::is_type_id::<T5>(r@[4]),
            crate::type_sets::is_type_id::<T6>(r@[5]),
    {
        let mut v = Vec::new();
        let id = type_id_of::<T1>();
        proof {
            crate::type_sets::lemma_is_type_id::<T1>(id);
        }
        v.push(id);
        let id = type_id_of::<T2>();
        proof {
            crate::type_sets::lemma_is_type_id::<T2>(id);
        }
        v.push(id);
        let id = type_id_of::<T3>();
        proof {
            crate::type_sets::lemma_is_type_id::<T3>(id);
        }
        v.push(id);
        let id = type_id_of::<T4>();
        proof {
            crate::type_sets::lemma_is_type_id::<T4>(id);
        }
        v.push(id);
        let id = type_id_of::<T5>();
        proof {
            crate::type_sets::lemma_is_type_id::<T5>(id);
        }
        v.push(id);
        let id = type_id_of::<T6>();
        proof {
            crate::type_sets::lemma_is_type_id::<T6>(id);
        }
        v.push(id);
        v
    }
}

/// Accepts 7 messages.
pub trait AcceptsSeven<T1, T2, T3, T4, T5, T6, T7>: AcceptsSix<T1, T2, T3, T4, T5, T6> + Accepts<T7> {}

impl<T1, T2, T3, T4, T5, T6, T7, S> AcceptsSeven<T1, T2, T3, T4, T5, T6, T7> for S where S: AcceptsSix<T1, T2, T3, T4, T5, T6> + Accepts<T7> {}

impl<T1, T2, T3, T4, T5, T6, T7, S: ?Sized> AcceptsSubsetOf<S> for dyn AcceptsSeven<T1, T2, T3, T4, T5, T6, T7> where S: AcceptsSeven<T1, T2, T3, T4, T5, T6, T7> {}

impl<T1: 'static, T2: 'static, T3: 'static, T4: 'static, T5: 'static, T6: 'static, T7: 'static> AcceptsAll for dyn AcceptsSeven<T1, T2, T3, T4, T5, T6, T7> {
    fn accepts_all() -> (r: Vec<TypeId>)
        ensures
            r.len() == 7,
            crate::type_sets::is_type_id::<T1>(r@[0]),
            crate::type_sets::is_type_id::<T2>(r@[1]),
            crate::type_sets::is_type_id::<T3>(r@[2]),
            crate::type_sets::is_type_id::<T4>(r@[3]),
            crate::type_sets::is_type_id::<T5>(r@[4]),
            crate::type_sets::is_type_id::<T6>(r@[5]),
            crate::type_sets::is_type_id::<T7>(r@[6]),
    {
        let mut v = Vec::new();
        let id = type_id_of::<T1>();
        proof {
            crate::type_sets::lemma_is_type_id::<T1>(id);
        }
        v.push(id);
        let id = type_id_of::<T2>();
        proof {
            crate::type_sets::lemma_is_type_id::<T2>(id);
        }
        v.push(id);
        let id = type_id_of::<T3>();
        proof {
            crate::type_sets::lemma_is_type_id::<T3>(id);
        }
        v.push(id);
        let id = type_id_of::<T4>();
        proof {
            crate::type_sets::lemma_is_type_id::<T4>(id);
        }
        v.push(id);
        let id = type_id_of::<T5>();
        proof {
            crate::type_sets::lemma_is_type_id::<T5>(id);
        }
        v.push(id);
        let id = type_id_of::<T6>();
        proof {
            crate::type_sets::lemma_is_type_id::<T6>(id);
        }
        v.push(id);
        let id = type_id_of::<T7>();
        proof {
            crate::type_sets::lemma_is_type_id::<T7>(id);
        }
        v.push(id);
        v
    }
}

/// Accepts 8 messages.
pub trait AcceptsEight<T1, T2, T3, T4, T5, T6, T7, T8>: AcceptsSeven<T1, T2, T3, T4, T5, T6, T7> + Accepts<T8> {}

impl<T1, T2, T3, T4, T5, T6, T7, T8, S> AcceptsEight<T1, T2, T3, T4, T5, T6, T7, T8> for S where S: AcceptsSeven<T1, T2, T3, T4, T5, T6, T7> + Accepts<T8> {}

impl<T1, T2, T3, T4, T5, T6, T7, T8, S: ?Sized> AcceptsSubsetOf<S> for dyn AcceptsEight<T1, T2, T3, T4, T5, T6, T7, T8> where S: AcceptsEight<T1, T2, T3, T4, T5, T6, T7, T8> {}

impl<T1: 'static, T2: 'static, T3: 'static, T4: 'static, T5: 'static, T6: 'static, T7: 'static, T8: 'static> AcceptsAll for dyn AcceptsEight<T1, T2, T3, T4, T5, T6, T7, T8> {
    fn accepts_all() -> (r: Vec<TypeId>)
        ensures
            r.len() == 8,
            crate::type_sets::is_type_id::<T1>(r@[0]),
            crate::type_sets::is_type_id::<T2>(r@[1]),
            crate::type_sets::is_type_id::<T3>(r@[2]),
            crate::type_sets::is_type_id::<T4>(r@[3]),
            crate::type_sets::is_type_id::<T5>(r@[4]),
            crate::type_sets::is_type_id::<T6>(r@[5]),
            crate::type_sets::is_type_id::<T7>(r@[6]),
            crate::type_sets::is_type_id::<T8>(r@[7]),
    {
        let mut v = Vec::new();
        let id = type_id_of::<T1>();
        proof {
            crate::type_sets::lemma_is_type_id::<T1>(id);
        }
        v.push(id);
        let id = type_id_of::<T2>();
        proof {
            crate::type_sets::lemma_is_type_id::<T2>(id);
        }
        v.push(id);
        let id = type_id_of::<T3>();
        proof {
            crate::type_sets::lemma_is_type_id::<T3>(id);
        }
        v.push(id);
        let id = type_id_of::<T4>();
        proof {
            crate::type_sets::lemma_is_type_id::<T4>(id);
        }
        v.push(id);
        let id = type_id_of::<T5>();
        proof {
            crate::type_sets::lemma_is_type_id::<T5>(id);
        }
        v.push(id);
        let id = type_id_of::<T6>();
        proof {
            crate::type_sets::lemma_is_type_id::<T6>(id);
        }
        v.push(id);
        let id = type_id_of::<T7>();
        proof {
            crate::type_sets::lemma_is_type_id::<T7>(id);
        }
        v.push(id);
        let id = type_id_of::<T8>();
        proof {
            crate::type_sets::lemma_is_type_id::<T8>(id);
        }
        v.push(id);
        v
    }
}

/// Accepts 9 messages.
pub trait AcceptsNine<T1, T2, T3, T4, T5, T6, T7, T8, T9>: AcceptsEight<T1, T2, T3, T4, T5, T6, T7, T8> + Accepts<T9> {}

impl<T1, T2, T3, T4, T5, T6, T7, T8, T9, S> AcceptsNine<T1, T2, T3, T4, T5, T6, T7, T8, T9> for S where S: AcceptsEight<T1, T2, T3, T4, T5, T6, T7, T8> + Accepts<T9> {}

impl<T1, T2, T3, T4, T5, T6, T7, T8, T9, S: ?Sized> AcceptsSubsetOf<S> for dyn AcceptsNine<T1, T2, T3, T4, T5, T6, T7, T8, T9> where S: AcceptsNine<T1, T2, T3, T4, T5, T6, T7, T8, T9> {}

impl<T1: 'static, T2: 'static, T3: 'static, T4: 'static, T5: 'static, T6: 'static, T7: 'static, T8: 'static, T9: 'static> AcceptsAll for dyn AcceptsNine<T1, T2, T3, T4, T5, T6, T7, T8, T9> {
    fn accepts_all() -> (r: Vec<TypeId>)
        ensures
            r.len() == 9,
            crate::type_sets::is_type_id::<T1>(r@[0]),
            crate::type_sets::is_type_id::<T2>(r@[1]),
            crate::type_sets::is_type_id::<T3>(r@[2]),
            crate::type_sets::is_type_id::<T4>(r@[3]),
            crate::type_sets::is_type_id::<T5>(r@[4]),
            crate::type_sets::is_type_id::<T6>(r@[5]),
            crate::type_sets::is_type_id::<T7>(r@[6]),
            crate::type_sets::is_type_id::<T8>(r@[7]),
            crate::type_sets::is_type_id::<T9>(r@[8]),
    {
        let mut v = Vec::new();
        let id = type_id_of::<T1>();
        proof {
            crate::type_sets::lemma_is_type_id::<T1>(id);
        }
        v.push(id);
        let id = type_id_of::<T2>();
        proof {
            crate::type_sets::lemma_is_type_id::<T2>(id);
        }
        v.push(id);
        let id = type_id_of::<T3>();
        proof {
            crate::type_sets::lemma_is_type_id::<T3>(id);
        }
        v.push(id);
        let id = type_id_of::<T4>();
        proof {
            crate::type_sets::lemma_is_type_id::<T4>(id);
        }
        v.push(id);
        let id = type_id_of::<T5>();
        proof {
            crate::type_sets::lemma_is_type_id::<T5>(id);
        }
        v.push(id);
        let id = type_id_of::<T6>();
        proof {
            crate::type_sets::lemma_is_type_id::<T6>(id);
        }
        v.push(id);
        let id = type_id_of::<T7>();
        proof {
            crate::type_sets::lemma_is_type_id::<T7>(id);
        }
        v.push(id);
        let id = type_id_of::<T8>();
        proof {
            crate::type_sets::lemma_is_type_id::<T8>(id);
        }
        v.push(id);
        let id = type_id_of::<T9>();
        proof {
            crate::type_sets::lemma_is_type_id::<T9>(id);
        }
        v.push(id);
        v
    }
}

/// Accepts 10 messages.
pub trait AcceptsTen<T1, T2, T3, T4, T5, T6, T7, T8, T9, T10>: AcceptsNine<T1, T2, T3, T4, T5, T6, T7, T8, T9> + Accepts<T10> {}

impl<T1, T2, T3, T4, T5, T6, T7, T8, T9, T10, S> AcceptsTen<T1, T2, T3, T4, T5, T6, T7, T8, T9, T10> for S where S: AcceptsNine<T1, T2, T3, T4, T5, T6, T7, T8, T9> + Accepts<T10> {}

impl<T1, T2, T3, T4, T5, T6, T7, T8, T9, T10, S: ?Sized> AcceptsSubsetOf<S> for dyn AcceptsTen<T1, T2, T3, T4, T5, T6, T7, T8, T9, T10> where S: AcceptsTen<T1, T2, T3, T4, T5, T6, T7, T8, T9, T10> {}

impl<T1: 'static, T2: 'static, T3: 'static, T4: 'static, T5: 'static, T6: 'static, T7: 'static, T8: 'static, T9: 'static, T10: 'static> AcceptsAll for dyn AcceptsTen<T1, T2, T3, T4, T5, T6, T7, T8, T9, T10> {
    fn accepts_all() -> (r: Vec<TypeId>)
        ensures
            r.len() == 10,
            crate::type_sets::is_type_id::<T1>(r@[0]),
            crate::type_sets::is_type_id::<T2>(r@[1]),
            crate::type_sets::is_type_id::<T3>(r@[2]),
            crate::type_sets::is_type_id::<T4>(r@[3]),
            crate::type_sets::is_type_id::<T5>(r@[4]),
            crate::type_sets::is_type_id::<T6>(r@[5]),
            crate::type_sets::is_type_id::<T7>(r@[6]),
            crate::type_sets::is_type_id::<T8>(r@[7]),
            crate::type_sets::is_type_id::<T9>(r@[8]),
            crate::type_sets::is_type_id::<T10>(r@[9]),
    {
        let mut v = Vec::new();
        let id = type_id_of::<T1>();
        proof {
            crate::type_sets::lemma_is_type_id::<T1>(id);
        }
        v.push(id);
        let id = type_id_of::<T2>();
        proof {
            crate::type_sets::lemma_is_type_id::<T2>(id);
        }
        v.push(id);
        let id = type_id_of::<T3>();
        proof {
            crate::type_sets::lemma_is_type_id::<T3>(id);
        }
        v.push(id);
        let id = type_id_of::<T4>();
        proof {
            crate::type_sets::lemma_is_type_id::<T4>(id);
        }
        v.push(id);
        let id = type_id_of::<T5>();
        proof {
            crate::type_sets::lemma_is_type_id::<T5>(id);
        }
        v.push(id);
        let id = type_id_of::<T6>();
        proof {
            crate::type_sets::lemma_is_type_id::<T6>(id);
        }
        v.push(id);
        let id = type_id_of::<T7>();
        proof {
            crate::type_sets::lemma_is_type_id::<T7>(id);
        }
        v.push(id);
        let id = type_id_of::<T8>();
        proof {
            crate::type_sets::lemma_is_type_id::<T8>(id);
        }
        v.push(id);
        let id = type_id_of::<T9>();
        proof {
            crate::type_sets::lemma_is_type_id::<T9>(id);
        }
        v.push(id);
        let id = type_id_of::<T10>();
        proof {
            crate::type_sets::lemma_is_type_id::<T10>(id);
        }
        v.push(id);
        v
    }
}

} // verus!
