//! Clones that hold what the cloned value holds. Verus takes a clone of a value
//! for equal to the value only where the type says so: the types of this
//! library say it here, field by field and item by item.

use vstd::prelude::*;

verus! {

/// A type whose clones hold the same as the value they were made of.
pub trait FaithfulClone: Clone + Sized {
    /// Whether two values hold the same: they are equal in every field, and
    /// lists are equal item by item.
    spec fn same(&self, other: &Self) -> bool;

    /// Every value holds the same as itself.
    proof fn same_is_reflexive(value: Self)
        ensures
            value.same(&value),
    ;

    /// A clone holds the same as the value it was made of.
    proof fn clone_is_same(value: Self, copy: Self)
        requires
            cloned(value, copy),
        ensures
            copy.same(&value),
    ;
}

/// Clones a value, keeping what it holds.
pub fn duplicate<T: FaithfulClone>(value: &T) -> (copy: T)
    ensures
        copy.same(value),
{
    let copy = value.clone();
    proof {
        T::clone_is_same(*value, copy);
    }
    copy
}

impl FaithfulClone for String {
    open spec fn same(&self, other: &String) -> bool {
        self@ == other@
    }

    proof fn same_is_reflexive(value: String) {
    }

    proof fn clone_is_same(value: String, copy: String) {
    }
}

impl FaithfulClone for bool {
    open spec fn same(&self, other: &bool) -> bool {
        *self == *other
    }

    proof fn same_is_reflexive(value: bool) {
    }

    proof fn clone_is_same(value: bool, copy: bool) {
    }
}

impl FaithfulClone for u8 {
    open spec fn same(&self, other: &u8) -> bool {
        *self == *other
    }

    proof fn same_is_reflexive(value: u8) {
    }

    proof fn clone_is_same(value: u8, copy: u8) {
    }
}

impl FaithfulClone for usize {
    open spec fn same(&self, other: &usize) -> bool {
        *self == *other
    }

    proof fn same_is_reflexive(value: usize) {
    }

    proof fn clone_is_same(value: usize, copy: usize) {
    }
}

impl<T: FaithfulClone> FaithfulClone for Option<T> {
    open spec fn same(&self, other: &Option<T>) -> bool {
        match (self, other) {
            (Some(a), Some(b)) => a.same(b),
            (None, None) => true,
            _ => false,
        }
    }

    proof fn same_is_reflexive(value: Option<T>) {
        if let Some(v) = value {
            T::same_is_reflexive(v);
        }
    }

    proof fn clone_is_same(value: Option<T>, copy: Option<T>) {
        if value == copy {
            Self::same_is_reflexive(value);
        } else if let Some(v) = value {
            T::clone_is_same(v, copy.unwrap());
        }
    }
}

impl<T: FaithfulClone> FaithfulClone for Vec<T> {
    open spec fn same(&self, other: &Vec<T>) -> bool {
        self@.len() == other@.len() && forall|i: int|
            0 <= i < self@.len() ==> (#[trigger] self@[i]).same(&other@[i])
    }

    proof fn same_is_reflexive(value: Vec<T>) {
        assert forall|i: int| 0 <= i < value@.len() implies (#[trigger] value@[i]).same(
            &value@[i],
        ) by {
            T::same_is_reflexive(value@[i]);
        }
    }

    proof fn clone_is_same(value: Vec<T>, copy: Vec<T>) {
        if value == copy {
            Self::same_is_reflexive(value);
        } else {
            assert forall|i: int| 0 <= i < copy@.len() implies (#[trigger] copy@[i]).same(
                &value@[i],
            ) by {
                assert(cloned(value[i], copy[i]));
                T::clone_is_same(value@[i], copy@[i]);
            }
        }
    }
}

} // verus!
