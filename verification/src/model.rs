//! Values that can be copied without changing what they model.
use vstd::prelude::*;

verus! {

/// A value whose copy has the same model.
pub trait Copyable: DeepView + Sized {
    fn copy(&self) -> (r: Self)
        ensures
            r.deep_view() == self.deep_view(),
    ;
}

impl Copyable for String {
    fn copy(&self) -> (r: Self) {
        self.clone()
    }
}

impl<T: Copyable> Copyable for Option<T> {
    fn copy(&self) -> (r: Self) {
        match self {
            Some(x) => Some(x.copy()),
            None => None,
        }
    }
}

impl<A: Copyable, B: Copyable> Copyable for (A, B) {
    fn copy(&self) -> (r: Self) {
        (self.0.copy(), self.1.copy())
    }
}

impl Copyable for bool {
    fn copy(&self) -> (r: Self) {
        *self
    }
}

impl<T: Copyable> Copyable for Vec<T> {
    fn copy(&self) -> (r: Self) {
        let mut r: Vec<T> = Vec::new();
        let mut i: usize = 0;
        while i < self.len()
            invariant
                i <= self@.len(),
                r.deep_view() == self.deep_view().take(i as int),
            decreases self@.len() - i,
        {
            append_to(&mut r, self[i].copy());
            i = i + 1;
            assert(self.deep_view().take(i as int) =~= self.deep_view().take(i - 1).push(
                self.deep_view()[i - 1],
            ));
        }
        assert(self.deep_view().take(self@.len() as int) =~= self.deep_view());
        r
    }
}

impl Copyable for crate::widgets::Input {
    fn copy(&self) -> (r: Self) {
        let v = self.value();
        crate::widgets::Input { chars: crate::text::chars_of(v.as_str()), cursor: self.cursor }
    }
}

/// Appends a value to a vector, in terms of what they model.
pub fn append_to<T: DeepView>(v: &mut Vec<T>, x: T)
    ensures
        final(v).deep_view() == old(v).deep_view().push(x.deep_view()),
        final(v)@ == old(v)@.push(x),
{
    v.push(x);
    assert(v.deep_view() =~= old(v).deep_view().push(x.deep_view()));
}

} // verus!
