//! Values and their generic representation. A value of a processed type is
//! an ordered list of field payloads (for a record) or a chosen variant with
//! its payloads. Its representation nests the payloads into a product chain
//! wrapped by the record's naming style and, for a variant type, selects the
//! alternative whose nesting depth equals the variant's declared position.
//! The two conversions are total mutual inverses.

use vstd::prelude::*;

use crate::ty::view_seq;

verus! {

broadcast use vstd::seq::group_seq_axioms, vstd::std_specs::vec::group_vec_axioms;

/// One field payload, carried through the conversions untouched.
#[derive(Debug, Clone, PartialEq, Eq)]
pub enum Leaf {
    Unit,
    Truth(bool),
    Byte(u8),
    Word(u64),
    Text(String),
}

pub enum SpecLeaf {
    Unit,
    Truth(bool),
    Byte(u8),
    Word(u64),
    Text(Seq<char>),
}

impl View for Leaf {
    type V = SpecLeaf;

    open spec fn view(&self) -> SpecLeaf {
        match self {
            Leaf::Unit => SpecLeaf::Unit,
            Leaf::Truth(b) => SpecLeaf::Truth(*b),
            Leaf::Byte(b) => SpecLeaf::Byte(*b),
            Leaf::Word(w) => SpecLeaf::Word(*w),
            Leaf::Text(s) => SpecLeaf::Text(s@),
        }
    }
}

/// The payloads of one record or variant body, in declared order, tagged by
/// the body's field-naming style.
#[derive(Debug, PartialEq, Eq)]
pub enum FieldsValue {
    Named(Vec<Leaf>),
    Positional(Vec<Leaf>),
    Unit,
}

pub enum SpecFieldsValue {
    Named(Seq<SpecLeaf>),
    Positional(Seq<SpecLeaf>),
    Unit,
}

impl View for FieldsValue {
    type V = SpecFieldsValue;

    open spec fn view(&self) -> SpecFieldsValue {
        match self {
            FieldsValue::Named(ls) => SpecFieldsValue::Named(view_seq(ls@)),
            FieldsValue::Positional(ls) => SpecFieldsValue::Positional(view_seq(ls@)),
            FieldsValue::Unit => SpecFieldsValue::Unit,
        }
    }
}

/// A value of a processed type: a record's body, or the variant chosen by
/// its declared position together with that variant's body.
#[derive(Debug, PartialEq, Eq)]
pub enum Value {
    Record(FieldsValue),
    Choice(usize, FieldsValue),
}

pub enum SpecValue {
    Record(SpecFieldsValue),
    Choice(nat, SpecFieldsValue),
}

impl View for Value {
    type V = SpecValue;

    open spec fn view(&self) -> SpecValue {
        match self {
            Value::Record(f) => SpecValue::Record(f@),
            Value::Choice(i, f) => SpecValue::Choice(*i as nat, f@),
        }
    }
}

/// A right-folded chain of payloads: the first field's payload is the head
/// of the outermost pair.
#[derive(Debug, PartialEq, Eq)]
pub enum ProductValue {
    Pair(Leaf, Box<ProductValue>),
    Empty,
}

/// The ordered payloads a product-value chain encodes.
pub open spec fn product_value_elems(pv: ProductValue) -> Seq<SpecLeaf>
    decreases pv,
{
    match pv {
        ProductValue::Pair(h, t) => seq![h@] + product_value_elems(*t),
        ProductValue::Empty => Seq::empty(),
    }
}

impl View for ProductValue {
    type V = Seq<SpecLeaf>;

    open spec fn view(&self) -> Seq<SpecLeaf> {
        product_value_elems(*self)
    }
}

/// A product-value chain wrapped by its body's field-naming style.
#[derive(Debug, PartialEq, Eq)]
pub enum ProductRepr {
    NamedProduct(ProductValue),
    PositionalProduct(ProductValue),
    UnitProduct,
}

pub enum SpecProductRepr {
    NamedProduct(Seq<SpecLeaf>),
    PositionalProduct(Seq<SpecLeaf>),
    UnitProduct,
}

impl View for ProductRepr {
    type V = SpecProductRepr;

    open spec fn view(&self) -> SpecProductRepr {
        match self {
            ProductRepr::NamedProduct(pv) => SpecProductRepr::NamedProduct(pv@),
            ProductRepr::PositionalProduct(pv) => SpecProductRepr::PositionalProduct(pv@),
            ProductRepr::UnitProduct => SpecProductRepr::UnitProduct,
        }
    }
}

/// A chosen alternative of a sum: the body sits under one nesting of `R` per
/// declared position before it. There is no empty case: a sum value always
/// chooses an alternative.
#[derive(Debug, PartialEq, Eq)]
pub enum SumValue {
    L(ProductRepr),
    R(Box<SumValue>),
}

/// The alternative a sum value chooses: its nesting depth and its body.
pub open spec fn sum_value_choice(s: SumValue) -> (nat, SpecProductRepr)
    decreases s,
{
    match s {
        SumValue::L(p) => (0nat, p@),
        SumValue::R(t) => {
            let (d, p) = sum_value_choice(*t);
            ((d + 1) as nat, p)
        }
    }
}

impl View for SumValue {
    type V = (nat, SpecProductRepr);

    open spec fn view(&self) -> (nat, SpecProductRepr) {
        sum_value_choice(*self)
    }
}

/// The generic representation of a value: a wrapped product for a record, a
/// chosen alternative for a variant type.
#[derive(Debug, PartialEq, Eq)]
pub enum Repr {
    Product(ProductRepr),
    Variant(SumValue),
}

pub enum SpecRepr {
    Product(SpecProductRepr),
    Variant(nat, SpecProductRepr),
}

impl View for Repr {
    type V = SpecRepr;

    open spec fn view(&self) -> SpecRepr {
        match self {
            Repr::Product(p) => SpecRepr::Product(p@),
            Repr::Variant(s) => SpecRepr::Variant(s@.0, s@.1),
        }
    }
}

/// Wraps a body's payload list in its naming style.
pub open spec fn spec_wrap_fields(f: SpecFieldsValue) -> SpecProductRepr {
    match f {
        SpecFieldsValue::Named(ls) => SpecProductRepr::NamedProduct(ls),
        SpecFieldsValue::Positional(ls) => SpecProductRepr::PositionalProduct(ls),
        SpecFieldsValue::Unit => SpecProductRepr::UnitProduct,
    }
}

/// Reads a body's payload list back out of its wrapper.
pub open spec fn spec_unwrap_fields(p: SpecProductRepr) -> SpecFieldsValue {
    match p {
        SpecProductRepr::NamedProduct(ls) => SpecFieldsValue::Named(ls),
        SpecProductRepr::PositionalProduct(ls) => SpecFieldsValue::Positional(ls),
        SpecProductRepr::UnitProduct => SpecFieldsValue::Unit,
    }
}

/// What converting a value to its generic representation yields.
pub open spec fn spec_to_repr(v: SpecValue) -> SpecRepr {
    match v {
        SpecValue::Record(f) => SpecRepr::Product(spec_wrap_fields(f)),
        SpecValue::Choice(i, f) => SpecRepr::Variant(i, spec_wrap_fields(f)),
    }
}

/// What converting a generic representation back to a value yields.
pub open spec fn spec_from_repr(r: SpecRepr) -> SpecValue {
    match r {
        SpecRepr::Product(p) => SpecValue::Record(spec_unwrap_fields(p)),
        SpecRepr::Variant(i, p) => SpecValue::Choice(i, spec_unwrap_fields(p)),
    }
}

/// Round trip: converting any value to its generic representation and back
/// returns the value unchanged.
pub proof fn lemma_round_trip(v: SpecValue)
    ensures
        spec_from_repr(spec_to_repr(v)) == v,
{
}

/// Round trip, the other way: converting any representation to a value and
/// back returns the representation unchanged.
pub proof fn lemma_repr_round_trip(r: SpecRepr)
    ensures
        spec_to_repr(spec_from_repr(r)) == r,
{
}

/// Folds a payload list, first to last, into a product-value chain.
pub fn product_value_of(ls: Vec<Leaf>) -> (pv: ProductValue)
    ensures
        pv@ == view_seq(ls@),
{
    let ghost orig = ls@;
    let mut rest = ls;
    let mut pv = ProductValue::Empty;
    proof {
        assert(view_seq(orig.subrange(orig.len() as int, orig.len() as int)) =~= Seq::<
            SpecLeaf,
        >::empty());
    }
    while rest.len() > 0
        invariant
            rest@.len() <= orig.len(),
            rest@ == orig.subrange(0, rest@.len() as int),
            pv@ == view_seq(orig.subrange(rest@.len() as int, orig.len() as int)),
        decreases rest@.len(),
    {
        let l = match rest.pop() {
            Some(l) => l,
            None => {
                proof {
                    assert(false);
                }
                Leaf::Unit
            }
        };
        proof {
            let i = rest@.len() as int;
            let n = orig.len() as int;
            assert(l == orig[i]);
            assert(orig.subrange(i, n).drop_first() =~= orig.subrange(i + 1, n));
            assert(orig.subrange(i, n)[0] == orig[i]);
            assert(view_seq(orig.subrange(i, n)) == seq![orig[i]@] + view_seq(
                orig.subrange(i + 1, n),
            ));
            assert(rest@ =~= orig.subrange(0, i));
        }
        pv = ProductValue::Pair(l, Box::new(pv));
    }
    proof {
        assert(orig.subrange(0, orig.len() as int) =~= orig);
    }
    pv
}

/// Reads the payloads of a product-value chain back into a list, in order.
pub fn product_value_leaves(pv: ProductValue) -> (ls: Vec<Leaf>)
    ensures
        view_seq(ls@) == pv@,
    decreases pv,
{
    match pv {
        ProductValue::Empty => {
            let ls: Vec<Leaf> = Vec::new();
            proof {
                assert(view_seq(ls@) =~= Seq::<SpecLeaf>::empty());
            }
            ls
        }
        ProductValue::Pair(h, t) => {
            let mut rest = product_value_leaves(*t);
            let ghost tail = rest@;
            let ghost h_view = h@;
            rest.insert(0, h);
            proof {
                assert(rest@ == tail.insert(0, h));
                assert(rest@.drop_first() =~= tail);
                assert(rest@[0] == h);
                assert(view_seq(rest@) == seq![h_view] + view_seq(tail));
            }
            rest
        }
    }
}

/// Wraps a body in its naming style, folding its payloads into a chain.
pub fn product_repr_of(f: FieldsValue) -> (p: ProductRepr)
    ensures
        p@ == spec_wrap_fields(f@),
{
    match f {
        FieldsValue::Named(ls) => ProductRepr::NamedProduct(product_value_of(ls)),
        FieldsValue::Positional(ls) => ProductRepr::PositionalProduct(product_value_of(ls)),
        FieldsValue::Unit => ProductRepr::UnitProduct,
    }
}

/// Reads a wrapped body back, in its naming style, with its payloads in
/// order.
pub fn fields_value_of(p: ProductRepr) -> (f: FieldsValue)
    ensures
        f@ == spec_unwrap_fields(p@),
{
    match p {
        ProductRepr::NamedProduct(pv) => FieldsValue::Named(product_value_leaves(pv)),
        ProductRepr::PositionalProduct(pv) => FieldsValue::Positional(product_value_leaves(pv)),
        ProductRepr::UnitProduct => FieldsValue::Unit,
    }
}

/// Converts a value to its generic representation: the body is wrapped in
/// its naming style, and a chosen variant sits under one `R` nesting per
/// declared position before it.
pub fn to_repr(v: Value) -> (r: Repr)
    ensures
        r@ == spec_to_repr(v@),
{
    match v {
        Value::Record(f) => Repr::Product(product_repr_of(f)),
        Value::Choice(i, f) => {
            let body = product_repr_of(f);
            let mut s = SumValue::L(body);
            let mut k: usize = 0;
            while k < i
                invariant
                    k <= i,
                    s@.0 == k as nat,
                    s@.1 == spec_wrap_fields(f@),
                decreases i - k,
            {
                s = SumValue::R(Box::new(s));
                k = k + 1;
            }
            Repr::Variant(s)
        }
    }
}

/// Whether a representation's chosen alternative, if any, sits at a depth a
/// machine word can count.
pub open spec fn repr_depth_fits(r: Repr) -> bool {
    match r {
        Repr::Product(_) => true,
        Repr::Variant(s) => s@.0 <= usize::MAX as nat,
    }
}

fn sum_value_decode(s: SumValue) -> (r: (usize, ProductRepr))
    requires
        s@.0 <= usize::MAX as nat,
    ensures
        r.0 as nat == s@.0,
        r.1@ == s@.1,
    decreases s,
{
    match s {
        SumValue::L(p) => (0, p),
        SumValue::R(t) => {
            let (d, p) = sum_value_decode(*t);
            (d + 1, p)
        }
    }
}

/// Converts a generic representation back to a value: the inverse of
/// `to_repr` on every representation whose alternative depth a machine word
/// can count, which holds of every representation `to_repr` produces.
pub fn from_repr(r: Repr) -> (v: Value)
    requires
        repr_depth_fits(r),
    ensures
        v@ == spec_from_repr(r@),
{
    match r {
        Repr::Product(p) => Value::Record(fields_value_of(p)),
        Repr::Variant(s) => {
            let (d, p) = sum_value_decode(s);
            Value::Choice(d, fields_value_of(p))
        }
    }
}

} // verus!
