// Shape, conversion, mock and position checks on the runtime equivalents
// of a few derived types.

use serde_generic::contract::derive_serde_generic;
use serde_generic::descriptor::DataDecl;
use serde_generic::descriptor::Descriptor;
use serde_generic::descriptor::FieldDecl;
use serde_generic::descriptor::FieldsDecl;
use serde_generic::descriptor::VariantDecl;
use serde_generic::directive::DirectiveArg;
use serde_generic::directive::RawDirective;
use serde_generic::hlist::HCons;
use serde_generic::hlist::HNil;
use serde_generic::hlist::HSum;
use serde_generic::hlist::HSumNil;
use serde_generic::hlist::NamedStruct;
use serde_generic::hlist::SerdeFieldAttr;
use serde_generic::hlist::Succ;
use serde_generic::hlist::Zero;
use serde_generic::position::mk_idx;
use serde_generic::repr::FieldsValue;
use serde_generic::repr::Leaf;
use serde_generic::repr::ProductRepr;
use serde_generic::repr::ProductValue;
use serde_generic::repr::Repr;
use serde_generic::repr::SumValue;
use serde_generic::repr::Value;
use serde_generic::repr::from_repr;
use serde_generic::repr::to_repr;
use serde_generic::shape::ProductChain;
use serde_generic::shape::ProductShape;
use serde_generic::shape::Shape;
use serde_generic::shape::SumChain;
use serde_generic::ty::TypeExpr;

fn s(x: &str) -> String {
    x.to_string()
}

fn plain(name: &str) -> TypeExpr {
    TypeExpr::Apply { name: s(name), args: vec![] }
}

fn field(name: &str, ty: TypeExpr) -> FieldDecl {
    FieldDecl { name: s(name), ty, dirs: vec![] }
}

fn chain(ts: Vec<TypeExpr>) -> ProductChain {
    let mut c = ProductChain::Empty;
    for t in ts.into_iter().rev() {
        c = ProductChain::Pair(t, Box::new(c));
    }
    c
}

fn sum(ps: Vec<ProductShape>) -> SumChain {
    let mut c = SumChain::EmptySum;
    for p in ps.into_iter().rev() {
        c = SumChain::Either(p, Box::new(c));
    }
    c
}

fn boo() -> Descriptor {
    Descriptor {
        name: s("Boo"),
        params: vec![s("X")],
        is_packed: false,
        dirs: vec![],
        data: DataDecl::Struct(FieldsDecl::Positional(vec![
            field("0", plain("u8")),
            field("1", plain("String")),
            field("2", TypeExpr::Param(0)),
        ])),
    }
}

fn xoo() -> Descriptor {
    Descriptor {
        name: s("Xoo"),
        params: vec![s("X"), s("Y")],
        is_packed: false,
        dirs: vec![RawDirective { name: s("rename_all"), arg: DirectiveArg::Str(s("camelCase")) }],
        data: DataDecl::Enum(vec![
            VariantDecl {
                name: s("Lek"),
                fields: FieldsDecl::Positional(vec![field("0", TypeExpr::Param(0))]),
                dirs: vec![],
            },
            VariantDecl { name: s("Pek"), fields: FieldsDecl::Unit, dirs: vec![] },
            VariantDecl {
                name: s("Kek"),
                fields: FieldsDecl::Named(vec![
                    field("fes_o", plain("String")),
                    field("les_i", TypeExpr::Param(1)),
                ]),
                dirs: vec![],
            },
        ]),
    }
}

fn yoo() -> Descriptor {
    Descriptor {
        name: s("Yoo"),
        params: vec![],
        is_packed: false,
        dirs: vec![],
        data: DataDecl::Struct(FieldsDecl::Unit),
    }
}

#[test]
fn types_derivations() {
    // Yoo: a unit record.
    let yoo = derive_serde_generic(&yoo()).unwrap();
    assert_eq!(yoo.shape, Shape::Product(ProductShape::UnitProduct));
    assert_eq!(yoo.mocked.shape, Shape::Product(ProductShape::UnitProduct));
    assert!(yoo.mocked.args.is_empty());
    assert!(yoo.params.is_empty());

    // Boo: a positional record over one parameter.
    let boo = derive_serde_generic(&boo()).unwrap();
    assert_eq!(
        boo.shape,
        Shape::Product(ProductShape::PositionalProduct(chain(vec![
            plain("u8"),
            plain("String"),
            TypeExpr::Param(0),
        ])))
    );
    assert_eq!(
        boo.mocked.shape,
        Shape::Product(ProductShape::PositionalProduct(chain(vec![
            plain("u8"),
            plain("String"),
            TypeExpr::Placeholder(0),
        ])))
    );
    assert_eq!(boo.mocked.args, vec![TypeExpr::Placeholder(0)]);
    assert_eq!(boo.params, vec![s("X")]);

    // Xoo: a variant type over two parameters.
    let xoo = derive_serde_generic(&xoo()).unwrap();
    assert_eq!(
        xoo.shape,
        Shape::Variant(sum(vec![
            ProductShape::PositionalProduct(chain(vec![TypeExpr::Param(0)])),
            ProductShape::UnitProduct,
            ProductShape::NamedProduct(chain(vec![plain("String"), TypeExpr::Param(1)])),
        ]))
    );
    assert_eq!(
        xoo.mocked.args,
        vec![TypeExpr::Placeholder(0), TypeExpr::Placeholder(1)]
    );
    assert_eq!(xoo.params, vec![s("X"), s("Y")]);
}

#[test]
fn unit_record_conversions_are_identity() {
    let r = to_repr(Value::Record(FieldsValue::Unit));
    assert_eq!(r, Repr::Product(ProductRepr::UnitProduct));
    assert_eq!(from_repr(r), Value::Record(FieldsValue::Unit));
}

#[test]
fn positional_record_shape_and_lookup() {
    let boo = derive_serde_generic(&boo()).unwrap();
    // The metadata at position 2 belongs to the parameter-typed field.
    let entry = boo.field_meta(2).unwrap();
    assert_eq!(entry.ty, TypeExpr::Param(0));
    // Markers count down from the field count: position 2 of 3 carries 1.
    assert_eq!(entry.marker, mk_idx(1));
    assert_eq!(boo.field_meta(0).unwrap().marker, mk_idx(3));
    assert!(boo.field_meta(3).is_none());

    // The value (1, "hi", X) folds into a pair chain in declared order.
    let v = Value::Record(FieldsValue::Positional(vec![
        Leaf::Byte(1),
        Leaf::Text(s("hi")),
        Leaf::Truth(true),
    ]));
    let r = to_repr(v);
    assert_eq!(
        r,
        Repr::Product(ProductRepr::PositionalProduct(ProductValue::Pair(
            Leaf::Byte(1),
            Box::new(ProductValue::Pair(
                Leaf::Text(s("hi")),
                Box::new(ProductValue::Pair(Leaf::Truth(true), Box::new(ProductValue::Empty))),
            )),
        )))
    );
    let v2 = from_repr(r);
    assert_eq!(
        v2,
        Value::Record(FieldsValue::Positional(vec![
            Leaf::Byte(1),
            Leaf::Text(s("hi")),
            Leaf::Truth(true),
        ]))
    );
}

#[test]
fn variant_conversions_round_trip() {
    // The second variant of Xoo has no fields; its representation sits one
    // nesting deep and comes back unchanged.
    let r = to_repr(Value::Choice(1, FieldsValue::Unit));
    assert_eq!(
        r,
        Repr::Variant(SumValue::R(Box::new(SumValue::L(ProductRepr::UnitProduct))))
    );
    assert_eq!(from_repr(r), Value::Choice(1, FieldsValue::Unit));

    // A variant with named fields keeps its payloads in declared order.
    let v = Value::Choice(2, FieldsValue::Named(vec![Leaf::Text(s("a")), Leaf::Word(7)]));
    let r = to_repr(v);
    let v2 = from_repr(r);
    assert_eq!(
        v2,
        Value::Choice(2, FieldsValue::Named(vec![Leaf::Text(s("a")), Leaf::Word(7)]))
    );
}

#[test]
fn variant_markers_count_down() {
    let xoo = derive_serde_generic(&xoo()).unwrap();
    assert_eq!(xoo.variant_meta(0).unwrap().marker, mk_idx(3));
    assert_eq!(xoo.variant_meta(1).unwrap().marker, mk_idx(2));
    assert_eq!(xoo.variant_meta(2).unwrap().marker, mk_idx(1));
    // Inside the third variant, the two fields carry markers 2 and 1.
    assert_eq!(xoo.variant_field_meta(2, 0).unwrap().marker, mk_idx(2));
    assert_eq!(xoo.variant_field_meta(2, 1).unwrap().marker, mk_idx(1));
    assert!(xoo.variant_field_meta(1, 0).is_none());
}

#[test]
fn rename_all_respells_variants_and_their_fields() {
    let xoo = derive_serde_generic(&xoo()).unwrap();
    assert_eq!(xoo.variant_meta(0).unwrap().attrs.name.serialize, "lek");
    assert_eq!(xoo.variant_meta(1).unwrap().attrs.name.serialize, "pek");
    assert_eq!(xoo.variant_meta(2).unwrap().attrs.name.serialize, "kek");
    assert_eq!(xoo.variant_field_meta(2, 0).unwrap().attrs.name.serialize, "fesO");
    assert_eq!(xoo.variant_field_meta(2, 1).unwrap().attrs.name.serialize, "lesI");
}

#[test]
fn hlist_values_compose() {
    let chain = HCons(1u8, HCons(true, HNil));
    assert_eq!(chain, HCons(1u8, HCons(true, HNil)));
    let first: HSum<u8, HSum<bool, HSumNil>> = HSum::L(7);
    assert!(matches!(first, HSum::L(7)));
    let second: HSum<u8, HSum<bool, HSumNil>> = HSum::R(HSum::L(true));
    assert!(matches!(second, HSum::R(HSum::L(true))));
    let wrapped = NamedStruct(chain);
    assert_eq!(wrapped.0.0, 1u8);
}

struct Rec;

impl SerdeFieldAttr<u8, Succ<Zero>> for Rec {
    fn field() -> serde_generic::meta::Field {
        serde_generic::meta::Field::init(&"speed".to_string())
    }
}

#[test]
fn field_attr_lookup_is_keyed_by_type_and_position() {
    let f = <Rec as SerdeFieldAttr<u8, Succ<Zero>>>::field();
    assert_eq!(f.name.serialize, "speed");
    assert!(!f.skip_serializing);
}

#[test]
fn mocked_type_of_two_parameters() {
    let d = Descriptor {
        name: s("Pair2"),
        params: vec![s("A"), s("B")],
        is_packed: false,
        dirs: vec![],
        data: DataDecl::Struct(FieldsDecl::Named(vec![
            field("left", TypeExpr::Param(0)),
            field("right", TypeExpr::Param(1)),
        ])),
    };
    let c = derive_serde_generic(&d).unwrap();
    assert_eq!(c.params.len(), 2);
    assert_eq!(c.mocked.args.len(), 2);
    assert_eq!(c.mocked.args[0], TypeExpr::Placeholder(0));
    assert_eq!(c.mocked.args[1], TypeExpr::Placeholder(1));
    assert_ne!(c.mocked.args[0], c.mocked.args[1]);
    assert_eq!(c.mocked.name, "Pair2");
}
