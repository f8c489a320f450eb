//! Copies that are known to hold the same contents as what they copy.

use vstd::prelude::*;

verus! {

/// A type whose values can be copied. The copy has the same view.
pub trait Dup: DeepView + Sized {
    fn dup(&self) -> (copy: Self)
        ensures
            copy.deep_view() == self.deep_view(),
    ;
}

impl Dup for String {
    fn dup(&self) -> (copy: Self) {
        self.clone()
    }
}

impl Dup for bool {
    fn dup(&self) -> (copy: Self) {
        *self
    }
}

impl Dup for u16 {
    fn dup(&self) -> (copy: Self) {
        *self
    }
}

impl Dup for u32 {
    fn dup(&self) -> (copy: Self) {
        *self
    }
}

impl Dup for u64 {
    fn dup(&self) -> (copy: Self) {
        *self
    }
}

impl Dup for i32 {
    fn dup(&self) -> (copy: Self) {
        *self
    }
}

impl Dup for i64 {
    fn dup(&self) -> (copy: Self) {
        *self
    }
}

impl<T: Dup> Dup for Option<T> {
    fn dup(&self) -> (copy: Self) {
        match self {
            Some(value) => Some(value.dup()),
            None => None,
        }
    }
}

impl<T: Dup> Dup for Vec<T> {
    fn dup(&self) -> (copy: Self) {
        let mut copy: Vec<T> = Vec::new();
        let mut i: usize = 0;
        while i < self.len()
            invariant
                i <= self@.len(),
                copy@.len() == i,
                forall|k: int|
                    0 <= k < i ==> (#[trigger] copy@[k]).deep_view() == self@[k].deep_view(),
            decreases self@.len() - i,
        {
            copy.push(self[i].dup());
            i += 1;
        }
        assert(copy.deep_view() =~= self.deep_view());
        copy
    }
}

/// Pushing a value pushes its view.
pub proof fn lemma_push_view<T: DeepView>(before: Vec<T>, after: Vec<T>, value: T)
    requires
        after@ == before@.push(value),
    ensures
        after.deep_view() == before.deep_view().push(value.deep_view()),
{
    assert(after.deep_view() =~= before.deep_view().push(value.deep_view()));
}

/// Appends a value.
pub fn push<T: DeepView>(list: &mut Vec<T>, value: T)
    ensures
        final(list)@ == old(list)@.push(value),
        final(list).deep_view() == old(list).deep_view().push(value.deep_view()),
{
    let ghost before = *list;
    list.push(value);
    proof {
        lemma_push_view(before, *list, value);
    }
}

} // verus!
