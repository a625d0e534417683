//! The constant family: a wrapper that carries a fixed auxiliary value and
//! only a phantom marker for its nominal slot type.

use core::marker::PhantomData;
use vstd::prelude::*;
use crate::kind::Functor;
use crate::kind::Kind;
use crate::kind::Subst;

verus! {

/// A family member whose slot type `V` is purely nominal: no value of `V`
/// is ever stored, only the auxiliary value `inner` of the fixed type `C`.
pub struct Const<C, V> {
    pub inner: C,
    pub marker: PhantomData<V>,
}

impl<C, V> Kind for Const<C, V> {
    type Inner = V;

    /// A constant member holds no value of its nominal slot type.
    open spec fn contents(self) -> Set<V> {
        Set::empty()
    }
}

impl<C, V, I> Subst<I> for Const<C, V> {
    type With = Const<C, I>;
}

impl<C, A> Functor for Const<C, A> {
    /// Carry the auxiliary value through unchanged and change only the
    /// phantom slot type. The supplied function is never invoked: a
    /// constant member holds no slot value, so the inherited precondition
    /// demands nothing of `f`, and a caller may pass a function that is not
    /// callable at all.
    fn fmap<B, F: FnOnce(Self::Inner) -> B>(self, _f: F) -> (r: <Const<C, A> as Subst<B>>::With)
        ensures
            r.inner == self.inner,
    {
        Const { inner: self.inner, marker: PhantomData }
    }
}

} // verus!
