//! The generic shape of a type: product chains of field types closed by an
//! empty terminator, wrapped by the record's field-naming style, and sum
//! chains of variant shapes closed by an empty sum. A chain's view is the
//! ordered list of its elements; its nesting depth equals that list's length,
//! so the arity of the encoding equals the declared item count exactly.

use vstd::prelude::*;

use crate::ty::SpecTypeExpr;
use crate::ty::TypeExpr;
use crate::ty::view_seq;
use crate::ty::view_type_args;
use crate::ty::lemma_view_seq;
use crate::ty::lemma_view_type_args;

verus! {

broadcast use vstd::seq::group_seq_axioms, vstd::std_specs::vec::group_vec_axioms;

/// A right-folded chain of field types: the first declared field is the
/// head of the outermost pair.
#[derive(Debug, PartialEq, Eq)]
pub enum ProductChain {
    Pair(TypeExpr, Box<ProductChain>),
    Empty,
}

/// The ordered field types a product chain encodes.
pub open spec fn product_chain_elems(c: ProductChain) -> Seq<SpecTypeExpr>
    decreases c,
{
    match c {
        ProductChain::Pair(h, t) => seq![h@] + product_chain_elems(*t),
        ProductChain::Empty => Seq::empty(),
    }
}

impl View for ProductChain {
    type V = Seq<SpecTypeExpr>;

    open spec fn view(&self) -> Seq<SpecTypeExpr> {
        product_chain_elems(*self)
    }
}

/// The number of pairs a product chain nests.
pub open spec fn product_chain_len(c: ProductChain) -> nat
    decreases c,
{
    match c {
        ProductChain::Pair(_, t) => 1 + product_chain_len(*t),
        ProductChain::Empty => 0,
    }
}

/// A chain nests exactly as many pairs as it has elements.
pub proof fn lemma_product_chain_arity(c: ProductChain)
    ensures
        product_chain_len(c) == product_chain_elems(c).len(),
    decreases c,
{
    match c {
        ProductChain::Pair(h, t) => {
            lemma_product_chain_arity(*t);
        }
        ProductChain::Empty => {
        }
    }
}

/// A product chain wrapped by the field-naming style of its record.
#[derive(Debug, PartialEq, Eq)]
pub enum ProductShape {
    /// The fields are named.
    NamedProduct(ProductChain),
    /// The fields are positional.
    PositionalProduct(ProductChain),
    /// There are no fields.
    UnitProduct,
}

pub enum SpecProductShape {
    NamedProduct(Seq<SpecTypeExpr>),
    PositionalProduct(Seq<SpecTypeExpr>),
    UnitProduct,
}

impl View for ProductShape {
    type V = SpecProductShape;

    open spec fn view(&self) -> SpecProductShape {
        match self {
            ProductShape::NamedProduct(c) => SpecProductShape::NamedProduct(c@),
            ProductShape::PositionalProduct(c) => SpecProductShape::PositionalProduct(c@),
            ProductShape::UnitProduct => SpecProductShape::UnitProduct,
        }
    }
}

/// A right-folded chain of variant shapes: the first declared variant is the
/// head of the outermost alternative, and the empty sum closes the chain.
#[derive(Debug, PartialEq, Eq)]
pub enum SumChain {
    Either(ProductShape, Box<SumChain>),
    EmptySum,
}

/// The ordered variant shapes a sum chain encodes.
pub open spec fn sum_chain_elems(s: SumChain) -> Seq<SpecProductShape>
    decreases s,
{
    match s {
        SumChain::Either(p, t) => seq![p@] + sum_chain_elems(*t),
        SumChain::EmptySum => Seq::empty(),
    }
}

impl View for SumChain {
    type V = Seq<SpecProductShape>;

    open spec fn view(&self) -> Seq<SpecProductShape> {
        sum_chain_elems(*self)
    }
}

/// The number of alternatives a sum chain nests.
pub open spec fn sum_chain_len(s: SumChain) -> nat
    decreases s,
{
    match s {
        SumChain::Either(_, t) => 1 + sum_chain_len(*t),
        SumChain::EmptySum => 0,
    }
}

/// A sum chain nests exactly as many alternatives as it has elements.
pub proof fn lemma_sum_chain_arity(s: SumChain)
    ensures
        sum_chain_len(s) == sum_chain_elems(s).len(),
    decreases s,
{
    match s {
        SumChain::Either(p, t) => {
            lemma_sum_chain_arity(*t);
        }
        SumChain::EmptySum => {
        }
    }
}

/// The generic shape of one type: a wrapped product for a record, a sum of
/// wrapped products for a variant type.
#[derive(Debug, PartialEq, Eq)]
pub enum Shape {
    Product(ProductShape),
    Variant(SumChain),
}

pub enum SpecShape {
    Product(SpecProductShape),
    Variant(Seq<SpecProductShape>),
}

impl View for Shape {
    type V = SpecShape;

    open spec fn view(&self) -> SpecShape {
        match self {
            Shape::Product(p) => SpecShape::Product(p@),
            Shape::Variant(s) => SpecShape::Variant(s@),
        }
    }
}

/// Folds the declared field types, first to last, into a product chain. The
/// chain lists exactly the given types in order and nests one pair per type.
pub fn product_chain_of(ts: Vec<TypeExpr>) -> (c: ProductChain)
    ensures
        c@ == view_type_args(ts@),
        product_chain_len(c) == ts@.len(),
{
    let ghost orig = ts@;
    let mut rest = ts;
    let mut c = ProductChain::Empty;
    proof {
        assert(orig.subrange(orig.len() as int, orig.len() as int) =~= Seq::<TypeExpr>::empty());
        assert(view_type_args(orig.subrange(orig.len() as int, orig.len() as int)) =~= Seq::<
            SpecTypeExpr,
        >::empty());
    }
    while rest.len() > 0
        invariant
            rest@ == orig.subrange(0, rest@.len() as int),
            c@ == view_type_args(orig.subrange(rest@.len() as int, orig.len() as int)),
            product_chain_len(c) == orig.len() - rest@.len(),
        decreases rest@.len(),
    {
        let t = match rest.pop() {
            Some(t) => t,
            None => {
                proof {
                    assert(false);
                }
                TypeExpr::Param(0)
            }
        };
        proof {
            let i = rest@.len() as int;
            let n = orig.len() as int;
            assert(t == orig[i]);
            assert(orig.subrange(i, n).drop_first() =~= orig.subrange(i + 1, n));
            assert(orig.subrange(i, n)[0] == orig[i]);
            assert(view_type_args(orig.subrange(i, n)) == seq![orig[i]@] + view_type_args(
                orig.subrange(i + 1, n),
            ));
            assert(rest@ =~= orig.subrange(0, i));
        }
        c = ProductChain::Pair(t, Box::new(c));
    }
    proof {
        assert(orig.subrange(0, orig.len() as int) =~= orig);
        assert(rest@.len() == 0);
        lemma_view_type_args(orig);
    }
    c
}

/// Folds the variant shapes, first to last, into a sum chain. The chain
/// lists exactly the given shapes in order and nests one alternative per
/// variant.
pub fn sum_chain_of(ps: Vec<ProductShape>) -> (s: SumChain)
    ensures
        s@ == view_seq(ps@),
        sum_chain_len(s) == ps@.len(),
{
    let ghost orig = ps@;
    let mut rest = ps;
    let mut s = SumChain::EmptySum;
    proof {
        assert(orig.subrange(orig.len() as int, orig.len() as int) =~= Seq::<ProductShape>::empty());
        assert(view_seq(orig.subrange(orig.len() as int, orig.len() as int)) =~= Seq::<
            SpecProductShape,
        >::empty());
    }
    while rest.len() > 0
        invariant
            rest@ == orig.subrange(0, rest@.len() as int),
            s@ == view_seq(orig.subrange(rest@.len() as int, orig.len() as int)),
            sum_chain_len(s) == orig.len() - rest@.len(),
        decreases rest@.len(),
    {
        let p = match rest.pop() {
            Some(p) => p,
            None => {
                proof {
                    assert(false);
                }
                ProductShape::UnitProduct
            }
        };
        proof {
            let i = rest@.len() as int;
            let n = orig.len() as int;
            assert(p == orig[i]);
            assert(orig.subrange(i, n).drop_first() =~= orig.subrange(i + 1, n));
            assert(orig.subrange(i, n)[0] == orig[i]);
            assert(view_seq(orig.subrange(i, n)) == seq![orig[i]@] + view_seq(
                orig.subrange(i + 1, n),
            ));
            assert(rest@ =~= orig.subrange(0, i));
        }
        s = SumChain::Either(p, Box::new(s));
    }
    proof {
        assert(orig.subrange(0, orig.len() as int) =~= orig);
        lemma_view_seq(orig);
    }
    s
}

} // verus!
