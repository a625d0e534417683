use core::marker::PhantomData;
use kinded::constant::Const;
use kinded::identity::Identity;
use kinded::kind::Applicative;
use kinded::kind::Functor;
use kinded::kind::Monad;

#[test]
fn test_ident() {
    let i: Identity<Identity<i32>> = Identity(Identity(0));
    assert_eq!(i.flatten(), Identity(0));
}

#[test]
fn fmap_identity_preserves_member() {
    let m: Identity<u64> = Identity(42);
    assert_eq!(m.fmap(|v| v), Identity(42));
}

#[test]
fn fmap_on_constant_keeps_value_and_skips_function() {
    let c: Const<u64, i8> = Const { inner: 9, marker: PhantomData };
    let d: Const<u64, u32> = c.fmap(|_v| panic!("a constant member never invokes the mapped function"));
    assert_eq!(d.inner, 9);
}

#[test]
fn pure_bind_left_identity() {
    let f = |v: u64| Identity(v + 1);
    assert_eq!(Identity::<u64>::pure(2).bind(f), f(2));
}

#[test]
fn zip_with_adds_pointwise() {
    let a: Identity<u64> = Identity(2);
    let b: Identity<u64> = Identity(3);
    assert_eq!(a.zip_with(b, |x, y| x + y), Identity(5));
}

#[test]
fn pure_wraps_the_value() {
    assert_eq!(Identity::<i32>::pure(7), Identity(7));
}

#[test]
fn bind_chains_without_extra_wrapping() {
    let m: Identity<u64> = Identity(10);
    let r: Identity<u64> = m.bind(|v| Identity(v * 3));
    assert_eq!(r, Identity(30));
}

#[test]
fn fmap_transforms_the_held_value() {
    let m: Identity<u64> = Identity(5);
    assert_eq!(m.fmap(|v| v + 1), Identity(6));
}
