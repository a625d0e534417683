//! The identity family: a wrapper that holds exactly one value.

use vstd::prelude::*;
use crate::kind::Applicative;
use crate::kind::Functor;
use crate::kind::Kind;
use crate::kind::Monad;
use crate::kind::Subst;

verus! {

/// A family member that carries exactly one value and delegates every
/// capability directly to it.
#[derive(Debug, PartialEq, Eq)]
pub struct Identity<T>(pub T);

impl<T> Kind for Identity<T> {
    type Inner = T;

    /// An identity member holds exactly its one wrapped value.
    open spec fn contents(self) -> Set<T> {
        set![self.0]
    }
}

impl<T, I> Subst<I> for Identity<T> {
    type With = Identity<I>;
}

impl<A> Functor for Identity<A> {
    /// Apply `f` to the held value and rewrap: the result holds exactly one
    /// possible output of `f` on the held value.
    fn fmap<B, F: FnOnce(Self::Inner) -> B>(self, f: F) -> (r: <Identity<A> as Subst<B>>::With)
        ensures
            call_ensures(f, (self.0,), r.0),
    {
        proof {
            assert(self.contents().contains(self.0));
        }
        let ret = Identity(f(self.0));
        proof {
            assert forall|y: B| ret.contents().contains(y) implies exists|x: A|
                self.contents().contains(x) && call_ensures(f, (x,), y) by {
                assert(y == ret.0);
                assert(self.contents().contains(self.0) && call_ensures(f, (self.0,), y));
            }
        }
        ret
    }
}

impl<A> Applicative for Identity<A> {
    /// Wrap the given value: the result is exactly `Identity(value)`.
    fn pure(value: A) -> (r: Identity<A>)
        ensures
            r == Identity(value),
    {
        let r = Identity(value);
        proof {
            assert(r.contents() =~= set![value]);
        }
        r
    }

    /// Apply `f` to the two held values and wrap the result: it holds
    /// exactly one possible output of `f` on that pair.
    fn zip_with<B, C, F: FnOnce(Self::Inner, B) -> C>(
        self,
        b: <Identity<A> as Subst<B>>::With,
        f: F,
    ) -> (r: <Identity<A> as Subst<C>>::With)
        ensures
            call_ensures(f, (self.0, b.0), r.0),
    {
        proof {
            assert(self.contents().contains(self.0));
            assert(b.contents().contains(b.0));
        }
        let ret = Identity(f(self.0, b.0));
        proof {
            assert forall|z: C| ret.contents().contains(z) implies exists|x: A, y: B|
                self.contents().contains(x) && b.contents().contains(y) && call_ensures(
                f,
                (x, y),
                z,
            ) by {
                assert(z == ret.0);
                assert(self.contents().contains(self.0) && b.contents().contains(b.0)
                    && call_ensures(f, (self.0, b.0), z));
            }
        }
        ret
    }
}

impl<A> Monad for Identity<A> {
    /// Apply `f` directly to the held value: the result is exactly the
    /// member `f` produces, with no extra wrapping.
    fn bind<B, F: FnOnce(Self::Inner) -> <Identity<A> as Subst<B>>::With>(self, f: F) -> (r: <
        Identity<A> as Subst<B>>::With)
        ensures
            call_ensures(f, (self.0,), r),
    {
        proof {
            assert(self.contents().contains(self.0));
        }
        let ret = f(self.0);
        proof {
            assert forall|y: B| ret.contents().contains(y) implies exists|x: A, m: Identity<B>|
                self.contents().contains(x) && call_ensures(f, (x,), m) && m.contents().contains(
                y,
            ) by {
                assert(self.contents().contains(self.0) && call_ensures(f, (self.0,), ret)
                    && ret.contents().contains(y));
            }
        }
        ret
    }

    /// Return the held value verbatim: it is itself a member of the
    /// identity family, and nothing is applied to its contents.
    fn flatten(self) -> (r: A) where A: Subst<A, With = Identity<A>>
        ensures
            r == self.0,
    {
        self.0
    }
}

/// Mapping identity law for the identity family, in full strength: when `f`
/// behaves as the identity function, a result of `m.fmap(f)` is equal to
/// `m` itself. The second premise is exactly what the identity family's
/// `fmap` ensures of its result.
pub proof fn lemma_fmap_identity<T, F: FnOnce(T) -> T>(m: Identity<T>, f: F, r: Identity<T>)
    requires
        forall|x: T, y: T| call_ensures(f, (x,), y) ==> y == x,
        call_ensures(f, (m.0,), r.0),
    ensures
        r == m,
{
}

/// Left identity law of sequencing for the identity family: when `f` can
/// only return `fx` on the input `x`, a result of `pure(x).bind(f)` is
/// `fx` itself. The first premise is what `pure` ensures of `p`, and the
/// third is exactly what the identity family's `bind` ensures of its
/// result.
pub proof fn lemma_bind_left_identity<A, B, F: FnOnce(A) -> Identity<B>>(
    x: A,
    p: Identity<A>,
    f: F,
    r: Identity<B>,
    fx: Identity<B>,
)
    requires
        p == Identity(x),
        forall|y: Identity<B>| call_ensures(f, (x,), y) ==> y == fx,
        call_ensures(f, (p.0,), r),
    ensures
        r == fx,
{
}

} // verus!
