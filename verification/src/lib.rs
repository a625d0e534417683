//! Higher-kinded polymorphism encoded with single-parameter traits.
//!
//! A *family* is a type constructor with exactly one slot for a contained
//! type. Because the language offers no native quantification over type
//! constructors, a family is described by two traits: [`kind::Kind`] names
//! the slot, and [`kind::Subst`] performs type-level substitution into it,
//! with bounds that force every implementation's substitution to be
//! self-consistent. On top of those sit the mapping, lifting/combining and
//! sequencing capabilities ([`kind::Functor`], [`kind::Applicative`],
//! [`kind::Monad`]). Two example families instantiate the hierarchy: an
//! identity wrapper ([`identity::Identity`]) and a constant wrapper
//! ([`constant::Const`]).

pub mod constant;
pub mod identity;
pub mod kind;
