//! Values that can be copied and compared by what they denote.
use vstd::prelude::*;

use crate::text::same_text;

verus! {

/// A value whose copies and comparisons go by its mathematical view.
pub trait Value: Sized + DeepView {
    /// A copy with the same view.
    fn duplicate(&self) -> (copy: Self)
        ensures
            copy.deep_view() == self.deep_view(),
    ;

    /// Whether two values have the same view.
    fn same(&self, other: &Self) -> (same: bool)
        ensures
            same == (self.deep_view() == other.deep_view()),
    ;
}

impl Value for bool {
    fn duplicate(&self) -> (copy: bool) {
        *self
    }

    fn same(&self, other: &bool) -> (same: bool) {
        *self == *other
    }
}

impl Value for i16 {
    fn duplicate(&self) -> (copy: i16) {
        *self
    }

    fn same(&self, other: &i16) -> (same: bool) {
        *self == *other
    }
}

impl Value for i32 {
    fn duplicate(&self) -> (copy: i32) {
        *self
    }

    fn same(&self, other: &i32) -> (same: bool) {
        *self == *other
    }
}

impl Value for u16 {
    fn duplicate(&self) -> (copy: u16) {
        *self
    }

    fn same(&self, other: &u16) -> (same: bool) {
        *self == *other
    }
}

impl Value for u32 {
    fn duplicate(&self) -> (copy: u32) {
        *self
    }

    fn same(&self, other: &u32) -> (same: bool) {
        *self == *other
    }
}

impl Value for u64 {
    fn duplicate(&self) -> (copy: u64) {
        *self
    }

    fn same(&self, other: &u64) -> (same: bool) {
        *self == *other
    }
}

impl Value for usize {
    fn duplicate(&self) -> (copy: usize) {
        *self
    }

    fn same(&self, other: &usize) -> (same: bool) {
        *self == *other
    }
}

impl Value for String {
    fn duplicate(&self) -> (copy: String) {
        self.clone()
    }

    fn same(&self, other: &String) -> (same: bool) {
        same_text(self.as_str(), other.as_str())
    }
}

impl<T: Value> Value for Box<T> {
    fn duplicate(&self) -> (copy: Box<T>) {
        Box::new((**self).duplicate())
    }

    fn same(&self, other: &Box<T>) -> (same: bool) {
        (**self).same(&**other)
    }
}

impl<T: Value> Value for Option<T> {
    fn duplicate(&self) -> (copy: Option<T>) {
        match self {
            Some(value) => Some(value.duplicate()),
            None => None,
        }
    }

    fn same(&self, other: &Option<T>) -> (same: bool) {
        match (self, other) {
            (Some(a), Some(b)) => a.same(b),
            (None, None) => true,
            _ => false,
        }
    }
}

impl<A: Value, B: Value> Value for (A, B) {
    fn duplicate(&self) -> (copy: (A, B)) {
        (self.0.duplicate(), self.1.duplicate())
    }

    fn same(&self, other: &(A, B)) -> (same: bool) {
        self.0.same(&other.0) && self.1.same(&other.1)
    }
}

impl<A: Value, B: Value, C: Value> Value for (A, B, C) {
    fn duplicate(&self) -> (copy: (A, B, C)) {
        (self.0.duplicate(), self.1.duplicate(), self.2.duplicate())
    }

    fn same(&self, other: &(A, B, C)) -> (same: bool) {
        self.0.same(&other.0) && self.1.same(&other.1) && self.2.same(&other.2)
    }
}

impl<T: Value> Value for Vec<T> {
    fn duplicate(&self) -> (copy: Vec<T>) {
        let mut copy: Vec<T> = Vec::new();
        let mut i: usize = 0;
        while i < self.len()
            invariant
                i <= self@.len(),
                copy@.len() == i,
                forall|k: int| 0 <= k < i ==> copy.deep_view()[k] == self.deep_view()[k],
            decreases self@.len() - i,
        {
            let ghost before = copy.deep_view();
            copy.push(self[i].duplicate());
            assert(copy.deep_view() =~= before.push(self.deep_view()[i as int]));
            i += 1;
        }
        assert(copy.deep_view() =~= self.deep_view());
        copy
    }

    fn same(&self, other: &Vec<T>) -> (same: bool) {
        if self.len() != other.len() {
            assert(self.deep_view().len() != other.deep_view().len());
            return false;
        }
        let mut i: usize = 0;
        while i < self.len()
            invariant
                i <= self@.len(),
                self@.len() == other@.len(),
                forall|k: int| 0 <= k < i ==> self.deep_view()[k] == other.deep_view()[k],
            decreases self@.len() - i,
        {
            if !self[i].same(&other[i]) {
                assert(self.deep_view()[i as int] != other.deep_view()[i as int]);
                return false;
            }
            i += 1;
        }
        assert(self.deep_view() =~= other.deep_view());
        true
    }
}

} // verus!
