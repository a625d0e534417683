//! The family (kind) abstraction and the capabilities built on it.

use vstd::prelude::*;

verus! {

/// A member of a *family*: a type constructor with exactly one slot for a
/// contained type. `Inner` names the type currently occupying the slot, and
/// `contents` is the member's mathematical model: the set of slot values it
/// actually holds (a member may hold none, as the constant family does).
pub trait Kind: Sized {
    /// The type currently occupying the family's slot.
    type Inner;

    /// The slot values this member holds.
    spec fn contents(self) -> Set<Self::Inner>;
}

/// Type-level substitution into the family's slot: `With` is "the same
/// family, with `I` substituted for the contained type".
///
/// The bound on `With` is the first substitution closure law: after
/// substituting `I`, the slot holds `I`. The remaining two closure laws
/// (substituting the original slot type back returns the original type
/// exactly, and substitution is not path-dependent) cannot be bounds on
/// `With` itself, because the verifier's termination check for trait
/// resolution refuses an associated type whose bounds resolve through the
/// very trait being implemented. They stand instead as obligations on the
/// capability traits and on the operations that produce substituted types
/// ([`Functor`] and its heirs), where they still stop two unrelated
/// families from naming each other as their substitution target: a pair of
/// wrappers whose substitutions point across at one another cannot
/// implement any capability.
pub trait Subst<I>: Kind {
    /// This member's family with `I` in the slot.
    type With: Kind<Inner = I>;
}

/// The mapping capability: transform the contained value through a pure
/// function, producing the same family with the new slot type.
///
/// The supertrait bound is the second closure law, demanded of every
/// mappable family: substituting the member's own slot type back into
/// itself yields the member's type exactly.
pub trait Functor: Kind + Subst<<Self as Kind>::Inner, With = Self> {
    /// Transform the contained value with `f`, consuming the member.
    ///
    /// `f` must accept every value the member holds, and every value the
    /// result holds is an output of `f` on some held value. A family that
    /// holds no value may ignore `f` entirely, so nothing more is promised
    /// here; each family's implementation pins its result down exactly.
    ///
    /// The clauses on the result type are the remaining closure laws,
    /// instantiated for the substituted type: substituting the original
    /// slot type back returns `Self`, and substituting `B` again changes
    /// nothing.
    fn fmap<B, F: FnOnce(Self::Inner) -> B>(self, f: F) -> (r: <Self as Subst<B>>::With) where
        Self: Subst<B>,
        <Self as Subst<B>>::With: Subst<<Self as Kind>::Inner, With = Self>,
        <Self as Subst<B>>::With: Subst<B, With = <Self as Subst<B>>::With>,

        requires
            forall|x: Self::Inner| self.contents().contains(x) ==> call_requires(f, (x,)),
        ensures
            forall|y: B|
                r.contents().contains(y) ==> exists|x: Self::Inner|
                    self.contents().contains(x) && call_ensures(f, (x,), y),
    ;
}

/// The lifting/combining capability: construct a member from a bare value,
/// and combine two members pointwise through a binary function.
pub trait Applicative: Functor {
    /// Construct a new family member wrapping `value` directly: the result
    /// holds exactly that value.
    fn pure(value: Self::Inner) -> (r: Self)
        ensures
            r.contents() == set![value],
    ;

    /// Combine two members of the same family pointwise with `f`,
    /// consuming both. `f` must accept every pair of values the two members
    /// hold, and every value the result holds is an output of `f` on such a
    /// pair.
    fn zip_with<B, C, F: FnOnce(Self::Inner, B) -> C>(
        self,
        b: <Self as Subst<B>>::With,
        f: F,
    ) -> (r: <Self as Subst<C>>::With) where
        Self: Subst<B> + Subst<C>,
        <Self as Subst<C>>::With: Subst<<Self as Kind>::Inner, With = Self>,
        <Self as Subst<C>>::With: Subst<C, With = <Self as Subst<C>>::With>,

        requires
            forall|x: Self::Inner, y: B|
                self.contents().contains(x) && b.contents().contains(y) ==> call_requires(
                    f,
                    (x, y),
                ),
        ensures
            forall|z: C|
                r.contents().contains(z) ==> exists|x: Self::Inner, y: B|
                    self.contents().contains(x) && b.contents().contains(y) && call_ensures(
                        f,
                        (x, y),
                        z,
                    ),
    ;
}

/// The sequencing capability: chain a computation that itself produces a
/// family member, and collapse one level of same-family nesting.
pub trait Monad: Applicative {
    /// Chain a dependent computation: apply `f` to the contained value and
    /// return the member it produces, with no extra wrapping. `f` must
    /// accept every value the member holds, and every value the result
    /// holds is held by a member `f` can produce from a held value.
    fn bind<B, F: FnOnce(Self::Inner) -> <Self as Subst<B>>::With>(self, f: F) -> (r: <Self as
        Subst<B>>::With) where
        Self: Subst<B>,
        <Self as Subst<B>>::With: Subst<<Self as Kind>::Inner, With = Self>,
        <Self as Subst<B>>::With: Subst<B, With = <Self as Subst<B>>::With>,

        requires
            forall|x: Self::Inner| self.contents().contains(x) ==> call_requires(f, (x,)),
        ensures
            forall|y: B|
                r.contents().contains(y) ==> exists|x: Self::Inner, m: <Self as Subst<B>>::With|
                    self.contents().contains(x) && call_ensures(f, (x,), m) && m.contents()
                        .contains(y),
    ;

    /// Collapse one level of nesting: the contained value is itself a
    /// member of the same family (witnessed by the clause that its own
    /// substitution projects back to `Self` exactly), and is returned
    /// verbatim, with no transformation of its contents. The result is one
    /// of the values the outer member held.
    fn flatten(self) -> (r: Self::Inner) where
        Self::Inner: Subst<<Self as Kind>::Inner, With = Self>,

        ensures
            self.contents().contains(r),
    ;
}

/// Mapping identity law, stated for every family with mapping: when `f`
/// behaves as the identity function, a result of `m.fmap(f)` can hold only
/// values `m` already held. The second premise is exactly what
/// [`Functor::fmap`] ensures of its result. (The full behavioural equality
/// with the original is pinned down by each family's own `fmap` contract.)
pub proof fn lemma_fmap_identity_contents<M: Functor, F: FnOnce(<M as Kind>::Inner) -> <M as Kind>::Inner>(
    m: M,
    f: F,
    r: M,
)
    requires
        forall|x: M::Inner, y: M::Inner| call_ensures(f, (x,), y) ==> y == x,
        forall|y: M::Inner|
            r.contents().contains(y) ==> exists|x: M::Inner|
                m.contents().contains(x) && call_ensures(f, (x,), y),
    ensures
        r.contents().subset_of(m.contents()),
{
    assert forall|y: M::Inner| r.contents().contains(y) implies m.contents().contains(y) by {
        let x = choose|x: M::Inner| m.contents().contains(x) && call_ensures(f, (x,), y);
        assert(m.contents().contains(x) && call_ensures(f, (x,), y));
    }
}

} // verus!
