//! The type-level vocabulary of the generic encoding: heterogeneous product
//! and sum chains, unary position indices, and the wrapper types that select a
//! record's field-naming style. Generated impls built from these combinators
//! mirror the explicit descriptor model checked elsewhere in this crate.

use vstd::prelude::*;

verus! {

/// A product chain cell: one field followed by the rest of the chain.
#[derive(Debug, Clone, Copy, PartialEq)]
pub struct HCons<H, T>(pub H, pub T);

/// The terminator of every product chain.
#[derive(Debug, Clone, Copy, PartialEq)]
pub struct HNil;

/// A sum chain cell: either the first alternative or one of the rest.
#[derive(Debug, Clone, Copy, PartialEq)]
pub enum HSum<H, T> {
    L(H),
    R(T),
}

/// The terminator of every sum chain. It exists only to close the chain at
/// the type level: the field is private and no constructor is offered, so no
/// value of it can be made outside this crate, and this crate makes none.
#[derive(Debug, Clone, Copy, PartialEq)]
pub struct HSumNil(());

/// The successor of a unary position index.
#[derive(Debug, PartialEq)]
pub struct Succ<X>(pub core::marker::PhantomData<X>);

impl<X> Clone for Succ<X> {
    fn clone(&self) -> (r: Self)
        ensures
            r == *self,
    {
        Succ(core::marker::PhantomData)
    }
}

impl<X> Copy for Succ<X> {

}

/// The zero position index.
#[derive(Debug, Clone, Copy, PartialEq)]
pub struct Zero;

/// The number a unary position index stands for.
pub trait PeanoNumber {
    spec fn number() -> nat;
}

impl PeanoNumber for Zero {
    open spec fn number() -> nat {
        0
    }
}

impl<P: PeanoNumber> PeanoNumber for Succ<P> {
    open spec fn number() -> nat {
        P::number() + 1
    }
}

/// A placeholder standing for the generic parameter at position `X`.
#[derive(Debug, Clone, Copy, PartialEq)]
pub struct TypeVar<X>(pub X);

/// Wraps the product chain of a record with named fields.
#[derive(Debug, Clone, Copy, PartialEq)]
pub struct NamedStruct<X>(pub X);

/// Wraps the product chain of a record with positional fields.
#[derive(Debug, Clone, Copy, PartialEq)]
pub struct UnnamedStruct<X>(pub X);

/// The shape of a record with no fields.
#[derive(Debug, Clone, Copy, PartialEq)]
pub struct UnitStruct;

/// Wraps the sum chain of a variant type.
#[derive(Debug, Clone, Copy, PartialEq)]
pub struct Enum<X>(pub X);

/// Metadata lookup for the field of type `F` at the position index `I` of
/// its record: generated impls answer with that field's parsed directives.
pub trait SerdeFieldAttr<F, I> {
    fn field() -> crate::meta::Field;
}

/// Metadata lookup for the field of type `F` at position `FI` inside the
/// variant at position `VI`.
pub trait SerdeVariantFieldAttr<F, VI, FI> {
    fn field() -> crate::meta::Field;
}

/// Metadata lookup for the variant at the position index `VI`.
pub trait SerdeVariantAttr<VI> {
    fn variant() -> crate::meta::Variant;
}

/// The length of a product chain, as a unary index type.
pub trait HLen {
    type Len: PeanoNumber;
}

impl<H, T: HLen> HLen for HCons<H, T> {
    type Len = Succ<T::Len>;
}

impl HLen for HNil {
    type Len = Zero;
}

impl<H, T: HLen> HLen for (H, T) {
    type Len = Succ<T::Len>;
}

impl HLen for () {
    type Len = Zero;
}

/// The unary length of a product chain type counts its cells: an empty
/// chain counts zero, and each cell adds one.
pub proof fn lemma_hlen_counts<H, T: HLen>()
    ensures
        <<HNil as HLen>::Len as PeanoNumber>::number() == 0,
        <<HCons<H, T> as HLen>::Len as PeanoNumber>::number() == <T::Len as PeanoNumber>::number()
            + 1,
{
}

} // verus!
