//! The generated contract of one type: its generic shape, its container
//! metadata, one metadata entry per field and per variant in declared order,
//! each entry carrying the position marker counted down from the item count,
//! the generic-parameter list, and the mocked form of the type. The whole
//! contract is produced at once: a type whose directives fail validation
//! gets every diagnostic reported and no contract at all.

use vstd::prelude::*;

use crate::attr::parse_container_dirs;
use crate::attr::parse_field_dirs;
use crate::attr::parse_variant_dirs;
use crate::attr::spec_container_fold;
use crate::attr::spec_diag;
use crate::attr::spec_field_fold;
use crate::attr::spec_field_inherit_default;
use crate::attr::spec_field_rename_by_rules;
use crate::attr::spec_variant_fold;
use crate::attr::spec_variant_rename_by_rules;
use crate::case::RenameRule;
use crate::descriptor::DataDecl;
use crate::descriptor::Descriptor;
use crate::descriptor::FieldDecl;
use crate::descriptor::FieldsDecl;
use crate::descriptor::SpecDataDecl;
use crate::descriptor::SpecFieldDecl;
use crate::descriptor::SpecFieldsDecl;
use crate::descriptor::SpecVariantDecl;
use crate::descriptor::VariantDecl;
use crate::descriptor::spec_fields_list;
use crate::directive::Diagnostic;
use crate::directive::DiagnosticKind;
use crate::directive::Site;
use crate::directive::SpecDiagnostic;
use crate::meta::Container;
use crate::meta::Field;
use crate::meta::SpecContainer;
use crate::meta::SpecDefault;
use crate::meta::SpecField;
use crate::meta::SpecVariant;
use crate::meta::Variant;
use crate::meta::spec_container_init;
use crate::meta::spec_field_init;
use crate::meta::spec_variant_init;
use crate::position::Idx;
use crate::position::mk_idx;
use crate::shape::ProductShape;
use crate::shape::Shape;
use crate::shape::SpecProductShape;
use crate::shape::SpecShape;
use crate::shape::SumChain;
use crate::shape::product_chain_of;
use crate::shape::sum_chain_of;
use crate::ty::SpecTypeExpr;
use crate::ty::TypeExpr;
use crate::ty::clone_string;
use crate::ty::clone_type;
use crate::ty::lemma_view_seq;
use crate::ty::lemma_view_seq_push;
use crate::ty::mk_type_var;
use crate::ty::spec_subst;
use crate::ty::subst_type;
use crate::ty::view_seq;
use crate::ty::view_type_args;

verus! {

broadcast use vstd::seq::group_seq_axioms, vstd::std_specs::vec::group_vec_axioms;

/// The declared field types of a field list, substituted for the mocked
/// form when `mock` is set.
pub open spec fn spec_types_of(fds: Seq<SpecFieldDecl>, mock: bool) -> Seq<SpecTypeExpr> {
    Seq::new(
        fds.len(),
        |i: int|
            if mock {
                spec_subst(fds[i].ty)
            } else {
                fds[i].ty
            },
    )
}

/// The wrapped product shape of one field list.
pub open spec fn spec_product_shape_of(fs: SpecFieldsDecl, mock: bool) -> SpecProductShape {
    match fs {
        SpecFieldsDecl::Named(fds) => SpecProductShape::NamedProduct(spec_types_of(fds, mock)),
        SpecFieldsDecl::Positional(fds) => SpecProductShape::PositionalProduct(
            spec_types_of(fds, mock),
        ),
        SpecFieldsDecl::Unit => SpecProductShape::UnitProduct,
    }
}

/// The generic shape of one declaration: a wrapped product for a record, a
/// sum of the variants' wrapped products for a variant type. A union has no
/// shape; derivation rejects it before any shape is exposed.
pub open spec fn spec_shape_of(data: SpecDataDecl, mock: bool) -> SpecShape {
    match data {
        SpecDataDecl::Struct(fs) => SpecShape::Product(spec_product_shape_of(fs, mock)),
        SpecDataDecl::Enum(vs) => SpecShape::Variant(
            Seq::new(vs.len(), |i: int| spec_product_shape_of(vs[i].fields, mock)),
        ),
        SpecDataDecl::Union => SpecShape::Product(SpecProductShape::UnitProduct),
    }
}

fn types_of(fds: &Vec<FieldDecl>, mock: bool) -> (ts: Vec<TypeExpr>)
    ensures
        view_type_args(ts@) == spec_types_of(view_seq(fds@), mock),
{
    let mut ts: Vec<TypeExpr> = Vec::new();
    let mut i: usize = 0;
    proof {
        lemma_view_seq(fds@);
    }
    while i < fds.len()
        invariant
            i <= fds.len(),
            forall|j: int| 0 <= j < fds@.len() ==> view_seq(fds@)[j] == #[trigger] fds@[j]@,
            view_seq(fds@).len() == fds@.len(),
            ts@.len() == i as nat,
            forall|j: int|
                0 <= j < i as int ==> #[trigger] ts@[j]@ == spec_types_of(view_seq(fds@), mock)[j],
        decreases fds.len() - i,
    {
        let t = if mock {
            subst_type(&fds[i].ty)
        } else {
            clone_type(&fds[i].ty)
        };
        ts.push(t);
        proof {
            assert(ts@[i as int] == t);
            assert(t@ == if mock { spec_subst(fds@[i as int].ty@) } else { fds@[i as int].ty@ });
            assert(view_seq(fds@)[i as int] == fds@[i as int]@);
            assert(fds@[i as int]@.ty == fds@[i as int].ty@);
            assert(spec_types_of(view_seq(fds@), mock)[i as int] == (if mock { spec_subst(view_seq(fds@)[i as int].ty) } else { view_seq(fds@)[i as int].ty }));
            assert(ts@[i as int]@ == spec_types_of(view_seq(fds@), mock)[i as int]);
        }
        i = i + 1;
    }
    proof {
        crate::ty::lemma_view_type_args(ts@);
        assert forall|j: int| 0 <= j < ts@.len() implies view_type_args(ts@)[j] == spec_types_of(
            view_seq(fds@),
            mock,
        )[j] by {
            assert(view_type_args(ts@)[j] == ts@[j]@);
        }
        assert(view_type_args(ts@) =~= spec_types_of(view_seq(fds@), mock));
    }
    ts
}

/// Builds the wrapped product shape of one field list.
pub fn product_shape_of(fs: &FieldsDecl, mock: bool) -> (p: ProductShape)
    ensures
        p@ == spec_product_shape_of(fs@, mock),
{
    match fs {
        FieldsDecl::Named(fds) => ProductShape::NamedProduct(product_chain_of(types_of(fds, mock))),
        FieldsDecl::Positional(fds) => ProductShape::PositionalProduct(
            product_chain_of(types_of(fds, mock)),
        ),
        FieldsDecl::Unit => ProductShape::UnitProduct,
    }
}

/// Builds the generic shape of one declaration.
pub fn shape_of(data: &DataDecl, mock: bool) -> (sh: Shape)
    ensures
        sh@ == spec_shape_of(data@, mock),
{
    match data {
        DataDecl::Struct(fs) => Shape::Product(product_shape_of(fs, mock)),
        DataDecl::Enum(vs) => {
            let mut ps: Vec<ProductShape> = Vec::new();
            let mut i: usize = 0;
            proof {
                lemma_view_seq(vs@);
            }
            while i < vs.len()
                invariant
                    i <= vs.len(),
                    forall|j: int| 0 <= j < vs@.len() ==> view_seq(vs@)[j] == #[trigger] vs@[j]@,
                    view_seq(vs@).len() == vs@.len(),
                    ps@.len() == i as nat,
                    forall|j: int|
                        0 <= j < i as int ==> #[trigger] ps@[j]@ == spec_product_shape_of(
                            view_seq(vs@)[j].fields,
                            mock,
                        ),
                decreases vs.len() - i,
            {
                let p = product_shape_of(&vs[i].fields, mock);
                ps.push(p);
                proof {
                    assert(ps@[i as int] == p);
                    assert(p@ == spec_product_shape_of(vs@[i as int].fields@, mock));
                    assert(view_seq(vs@)[i as int] == vs@[i as int]@);
                    assert(vs@[i as int]@.fields == vs@[i as int].fields@);
                    assert(ps@[i as int]@ == spec_product_shape_of(view_seq(vs@)[i as int].fields, mock));
                }
                i = i + 1;
            }
            let chain = sum_chain_of(ps);
            proof {
                lemma_view_seq(ps@);
                assert forall|j: int| 0 <= j < ps@.len() implies view_seq(ps@)[j] == Seq::new(
                    view_seq(vs@).len(),
                    |k: int| spec_product_shape_of(view_seq(vs@)[k].fields, mock),
                )[j] by {
                    assert(view_seq(ps@)[j] == ps@[j]@);
                }
                assert(view_seq(ps@) =~= Seq::new(
                    view_seq(vs@).len(),
                    |k: int| spec_product_shape_of(view_seq(vs@)[k].fields, mock),
                ));
            }
            Shape::Variant(chain)
        }
        DataDecl::Union => Shape::Product(ProductShape::UnitProduct),
    }
}

/// The number of items a wrapped product shape encodes.
pub open spec fn spec_product_arity(p: SpecProductShape) -> nat {
    match p {
        SpecProductShape::NamedProduct(l) => l.len(),
        SpecProductShape::PositionalProduct(l) => l.len(),
        SpecProductShape::UnitProduct => 0,
    }
}

/// Arity: the chain of a record's shape lists exactly one element per
/// declared field, and a variant type's shape lists exactly one wrapped
/// product per declared variant, each with one element per that variant's
/// field.
pub proof fn lemma_shape_arity(data: SpecDataDecl, mock: bool)
    ensures
        data matches SpecDataDecl::Struct(fs) ==> spec_shape_of(data, mock) matches
            SpecShape::Product(p) && spec_product_arity(p) == spec_fields_list(fs).len(),
        data matches SpecDataDecl::Enum(vs) ==> spec_shape_of(data, mock) matches
            SpecShape::Variant(l) && l.len() == vs.len() && forall|i: int|
            0 <= i < vs.len() ==> spec_product_arity(l[i]) == spec_fields_list(
                #[trigger] vs[i].fields,
            ).len(),
{
}

/// The metadata entry of one field: its position marker, its declared type
/// and its directives, parsed.
#[derive(Debug)]
pub struct FieldEntry {
    pub marker: Idx,
    pub ty: TypeExpr,
    pub attrs: Field,
}

pub struct SpecFieldEntry {
    pub marker: nat,
    pub ty: SpecTypeExpr,
    pub attrs: SpecField,
}

impl View for FieldEntry {
    type V = SpecFieldEntry;

    open spec fn view(&self) -> SpecFieldEntry {
        SpecFieldEntry { marker: self.marker@, ty: self.ty@, attrs: self.attrs@ }
    }
}

/// The metadata entry of one variant: its position marker, its directives
/// parsed, and one entry per field of its body.
#[derive(Debug)]
pub struct VariantEntry {
    pub marker: Idx,
    pub attrs: Variant,
    pub fields: Vec<FieldEntry>,
}

pub struct SpecVariantEntry {
    pub marker: nat,
    pub attrs: SpecVariant,
    pub fields: Seq<SpecFieldEntry>,
}

impl View for VariantEntry {
    type V = SpecVariantEntry;

    open spec fn view(&self) -> SpecVariantEntry {
        SpecVariantEntry {
            marker: self.marker@,
            attrs: self.attrs@,
            fields: view_seq(self.fields@),
        }
    }
}

/// The metadata entry of the field at position `i` of `n`, under the given
/// casing rule and container default. The marker counts down: the first
/// declared field carries the deepest index `n`, the last carries `1`. A
/// container marked transparent passes its single field through.
pub open spec fn spec_field_entry(
    fd: SpecFieldDecl,
    i: int,
    n: nat,
    vi: Option<usize>,
    rule: Option<RenameRule>,
    cdef: SpecDefault,
    transparent: bool,
) -> (SpecFieldEntry, Seq<SpecDiagnostic>) {
    let site = match vi {
        Option::None => Site::Field(i as usize),
        Option::Some(v) => Site::VariantField(v, i as usize),
    };
    let (f1, ds) = spec_field_fold(spec_field_init(fd.name), fd.dirs, site);
    let f2 = spec_field_inherit_default(f1, cdef);
    let f3 = spec_field_rename_by_rules(f2, rule);
    let f4 = if transparent && n == 1 && i == 0 {
        SpecField { transparent: true, ..f3 }
    } else {
        f3
    };
    (SpecFieldEntry { marker: (n - i) as nat, ty: fd.ty, attrs: f4 }, ds)
}

/// The metadata entries of the fields from position `i` on, with their
/// diagnostics in declared order.
pub open spec fn spec_field_entries(
    fds: Seq<SpecFieldDecl>,
    i: int,
    vi: Option<usize>,
    rule: Option<RenameRule>,
    cdef: SpecDefault,
    transparent: bool,
) -> (Seq<SpecFieldEntry>, Seq<SpecDiagnostic>)
    decreases fds.len() - i,
{
    if i < 0 || i >= fds.len() {
        (Seq::empty(), Seq::empty())
    } else {
        let (e, ds) = spec_field_entry(fds[i], i, fds.len(), vi, rule, cdef, transparent);
        let (rest_e, rest_d) = spec_field_entries(fds, i + 1, vi, rule, cdef, transparent);
        (seq![e] + rest_e, ds + rest_d)
    }
}

/// Parses the directives of every field of one list, first to last: one
/// entry per field, every diagnostic collected in order at the end of
/// `diags`.
pub fn for_fields(
    fds: &Vec<FieldDecl>,
    vi: Option<usize>,
    rule: Option<RenameRule>,
    cdef: &crate::meta::Default,
    transparent: bool,
    diags: &mut Vec<Diagnostic>,
) -> (es: Vec<FieldEntry>)
    ensures
        view_seq(es@) == spec_field_entries(view_seq(fds@), 0, vi, rule, cdef@, transparent).0,
        view_seq(final(diags)@) == view_seq(old(diags)@) + spec_field_entries(
            view_seq(fds@),
            0,
            vi,
            rule,
            cdef@,
            transparent,
        ).1,
{
    let ghost fdsv = view_seq(fds@);
    let ghost base = view_seq(diags@);
    let ghost full = spec_field_entries(fdsv, 0, vi, rule, cdef@, transparent);
    let n = fds.len();
    let mut es: Vec<FieldEntry> = Vec::new();
    let mut i: usize = 0;
    proof {
        lemma_view_seq(fds@);
        assert(view_seq(es@) =~= Seq::<SpecFieldEntry>::empty());
    }
    while i < n
        invariant
            i <= n,
            n == fds.len(),
            fdsv == view_seq(fds@),
            fdsv.len() == fds@.len(),
            forall|j: int| 0 <= j < fds@.len() ==> fdsv[j] == #[trigger] fds@[j]@,
            full == spec_field_entries(fdsv, 0, vi, rule, cdef@, transparent),
            base == view_seq(old(diags)@),
            full.0 == view_seq(es@) + spec_field_entries(
                fdsv,
                i as int,
                vi,
                rule,
                cdef@,
                transparent,
            ).0,
            base + full.1 == view_seq(diags@) + spec_field_entries(
                fdsv,
                i as int,
                vi,
                rule,
                cdef@,
                transparent,
            ).1,
        decreases n - i,
    {
        let fd = &fds[i];
        let marker = mk_idx(n - i);
        let site = match vi {
            Option::None => Site::Field(i),
            Option::Some(v) => Site::VariantField(v, i),
        };
        let f0 = Field::init(&fd.name);
        let mut f1 = parse_field_dirs(f0, &fd.dirs, site, diags);
        f1.inherit_default(cdef);
        f1.rename_by_rules(rule);
        if transparent && n == 1 && i == 0 {
            f1.transparent = true;
        }
        let entry = FieldEntry { marker: marker, ty: clone_type(&fd.ty), attrs: f1 };
        proof {
            let sfe = spec_field_entry(fdsv[i as int], i as int, fdsv.len(), vi, rule, cdef@, transparent);
            assert(fdsv[i as int] == fds@[i as int]@);
            assert(entry@.marker == sfe.0.marker);
            assert(entry@.ty == sfe.0.ty);
            assert(entry@.attrs == sfe.0.attrs);
            assert(entry@ == sfe.0);
        }
        let ghost prev_es = es@;
        es.push(entry);
        proof {
            lemma_view_seq_push(prev_es, entry);
            assert(full.0 =~= view_seq(es@) + spec_field_entries(
                fdsv,
                i as int + 1,
                vi,
                rule,
                cdef@,
                transparent,
            ).0);
            assert(base + full.1 =~= view_seq(diags@) + spec_field_entries(
                fdsv,
                i as int + 1,
                vi,
                rule,
                cdef@,
                transparent,
            ).1);
        }
        i = i + 1;
    }
    es
}

/// Parses one record's field list and builds its wrapped product shape: the
/// shape, the field entries, and every diagnostic appended to `diags`.
pub fn for_a_struct(
    fs: &FieldsDecl,
    transparent: bool,
    rule: Option<RenameRule>,
    cdef: &crate::meta::Default,
    vi: Option<usize>,
    diags: &mut Vec<Diagnostic>,
) -> (r: (ProductShape, Vec<FieldEntry>))
    ensures
        r.0@ == spec_product_shape_of(fs@, false),
        view_seq(r.1@) == spec_field_entries(
            spec_fields_list(fs@),
            0,
            vi,
            rule,
            cdef@,
            transparent,
        ).0,
        view_seq(final(diags)@) == view_seq(old(diags)@) + spec_field_entries(
            spec_fields_list(fs@),
            0,
            vi,
            rule,
            cdef@,
            transparent,
        ).1,
{
    match fs {
        FieldsDecl::Named(fds) => {
            let es = for_fields(fds, vi, rule, cdef, transparent, diags);
            let p = ProductShape::NamedProduct(product_chain_of(types_of(fds, false)));
            (p, es)
        }
        FieldsDecl::Positional(fds) => {
            let es = for_fields(fds, vi, rule, cdef, transparent, diags);
            let p = ProductShape::PositionalProduct(product_chain_of(types_of(fds, false)));
            (p, es)
        }
        FieldsDecl::Unit => {
            let es: Vec<FieldEntry> = Vec::new();
            proof {
                assert(view_seq(es@) =~= Seq::<SpecFieldEntry>::empty());
            }
            (ProductShape::UnitProduct, es)
        }
    }
}

/// The metadata entry of the variant at position `i` of `m`: its marker
/// counts down as a field's does, its name obeys the casing rule, and its
/// body's fields are parsed like a record's.
pub open spec fn spec_variant_entry(
    vd: SpecVariantDecl,
    i: int,
    m: nat,
    rule: Option<RenameRule>,
    cdef: SpecDefault,
) -> (SpecVariantEntry, Seq<SpecDiagnostic>) {
    let (v1, ds) = spec_variant_fold(spec_variant_init(vd.name), vd.dirs, Site::Variant(i as usize));
    let v2 = spec_variant_rename_by_rules(v1, rule);
    let (fes, fdiags) = spec_field_entries(
        spec_fields_list(vd.fields),
        0,
        Option::Some(i as usize),
        rule,
        cdef,
        false,
    );
    (SpecVariantEntry { marker: (m - i) as nat, attrs: v2, fields: fes }, ds + fdiags)
}

/// The metadata entries of the variants from position `i` on, with their
/// diagnostics in declared order.
pub open spec fn spec_variant_entries(
    vs: Seq<SpecVariantDecl>,
    i: int,
    rule: Option<RenameRule>,
    cdef: SpecDefault,
) -> (Seq<SpecVariantEntry>, Seq<SpecDiagnostic>)
    decreases vs.len() - i,
{
    if i < 0 || i >= vs.len() {
        (Seq::empty(), Seq::empty())
    } else {
        let (e, ds) = spec_variant_entry(vs[i], i, vs.len(), rule, cdef);
        let (rest_e, rest_d) = spec_variant_entries(vs, i + 1, rule, cdef);
        (seq![e] + rest_e, ds + rest_d)
    }
}

/// Parses every variant of a variant type and builds the sum chain of their
/// shapes: the chain, the variant entries, and every diagnostic appended to
/// `diags`.
pub fn for_an_enum(
    vs: &Vec<VariantDecl>,
    rule: Option<RenameRule>,
    cdef: &crate::meta::Default,
    diags: &mut Vec<Diagnostic>,
) -> (r: (SumChain, Vec<VariantEntry>))
    ensures
        r.0@ == Seq::new(
            view_seq(vs@).len(),
            |k: int| spec_product_shape_of(view_seq(vs@)[k].fields, false),
        ),
        view_seq(r.1@) == spec_variant_entries(view_seq(vs@), 0, rule, cdef@).0,
        view_seq(final(diags)@) == view_seq(old(diags)@) + spec_variant_entries(
            view_seq(vs@),
            0,
            rule,
            cdef@,
        ).1,
{
    let ghost vsv = view_seq(vs@);
    let ghost base = view_seq(diags@);
    let ghost full = spec_variant_entries(vsv, 0, rule, cdef@);
    let m = vs.len();
    let mut ps: Vec<ProductShape> = Vec::new();
    let mut ves: Vec<VariantEntry> = Vec::new();
    let mut i: usize = 0;
    proof {
        lemma_view_seq(vs@);
        assert(view_seq(ves@) =~= Seq::<SpecVariantEntry>::empty());
    }
    while i < m
        invariant
            i <= m,
            m == vs.len(),
            vsv == view_seq(vs@),
            vsv.len() == vs@.len(),
            forall|j: int| 0 <= j < vs@.len() ==> vsv[j] == #[trigger] vs@[j]@,
            full == spec_variant_entries(vsv, 0, rule, cdef@),
            base == view_seq(old(diags)@),
            ps@.len() == i as nat,
            forall|j: int|
                0 <= j < i as int ==> #[trigger] ps@[j]@ == spec_product_shape_of(
                    vsv[j].fields,
                    false,
                ),
            full.0 == view_seq(ves@) + spec_variant_entries(vsv, i as int, rule, cdef@).0,
            base + full.1 == view_seq(diags@) + spec_variant_entries(vsv, i as int, rule, cdef@).1,
        decreases m - i,
    {
        let vd = &vs[i];
        let marker = mk_idx(m - i);
        let v0 = Variant::init(&vd.name);
        let mut v1 = parse_variant_dirs(v0, &vd.dirs, Site::Variant(i), diags);
        v1.rename_by_rules(rule);
        let (pshape, fentries) = for_a_struct(
            &vd.fields,
            false,
            rule,
            cdef,
            Option::Some(i),
            diags,
        );
        ps.push(pshape);
        proof {
            assert(ps@[i as int] == pshape);
            assert(pshape@ == spec_product_shape_of(vd.fields@, false));
            assert(vsv[i as int] == vs@[i as int]@);
            assert(vs@[i as int]@.fields == vs@[i as int].fields@);
            assert(ps@[i as int]@ == spec_product_shape_of(vsv[i as int].fields, false));
        }
        let entry = VariantEntry { marker: marker, attrs: v1, fields: fentries };
        proof {
            let sve = spec_variant_entry(vsv[i as int], i as int, vsv.len(), rule, cdef@);
            assert(vsv[i as int] == vs@[i as int]@);
            assert(vs@[i as int]@.name == vs@[i as int].name@);
            assert(vs@[i as int]@.dirs == view_seq(vs@[i as int].dirs@));
            assert(vs@[i as int]@.fields == vs@[i as int].fields@);
            assert(entry@.marker == sve.0.marker);
            assert(entry@.attrs == sve.0.attrs);
            assert(entry@.fields == sve.0.fields);
            assert(entry@ == sve.0);
        }
        let ghost prev_ves = ves@;
        ves.push(entry);
        proof {
            lemma_view_seq_push(prev_ves, entry);
            assert(full.0 =~= view_seq(ves@) + spec_variant_entries(
                vsv,
                i as int + 1,
                rule,
                cdef@,
            ).0);
            assert(base + full.1 =~= view_seq(diags@) + spec_variant_entries(
                vsv,
                i as int + 1,
                rule,
                cdef@,
            ).1);
        }
        i = i + 1;
    }
    let chain = sum_chain_of(ps);
    proof {
        lemma_view_seq(ps@);
        assert forall|j: int| 0 <= j < ps@.len() implies view_seq(ps@)[j] == Seq::new(
            vsv.len(),
            |k: int| spec_product_shape_of(vsv[k].fields, false),
        )[j] by {
            assert(view_seq(ps@)[j] == ps@[j]@);
        }
        assert(view_seq(ps@) =~= Seq::new(
            vsv.len(),
            |k: int| spec_product_shape_of(vsv[k].fields, false),
        ));
    }
    (chain, ves)
}

/// The parameter-erased form of a type: its name, one position-tagged
/// placeholder per generic parameter, and its shape with every parameter
/// reference substituted by that parameter's placeholder.
#[derive(Debug)]
pub struct MockedType {
    pub name: String,
    pub args: Vec<TypeExpr>,
    pub shape: Shape,
}

pub struct SpecMockedType {
    pub name: Seq<char>,
    pub args: Seq<SpecTypeExpr>,
    pub shape: SpecShape,
}

impl View for MockedType {
    type V = SpecMockedType;

    open spec fn view(&self) -> SpecMockedType {
        SpecMockedType { name: self.name@, args: view_type_args(self.args@), shape: self.shape@ }
    }
}

/// The placeholder list of a type with `k` generic parameters: one
/// placeholder per parameter, tagged by its zero-based position.
pub open spec fn spec_mock_args(k: nat) -> Seq<SpecTypeExpr> {
    Seq::new(k, |i: int| SpecTypeExpr::Placeholder(i as nat))
}

/// Builds the placeholder list: exactly one distinct placeholder per
/// generic parameter, matched by position.
pub fn mock_args(k: usize) -> (args: Vec<TypeExpr>)
    ensures
        view_type_args(args@) == spec_mock_args(k as nat),
{
    let mut args: Vec<TypeExpr> = Vec::new();
    let mut i: usize = 0;
    while i < k
        invariant
            i <= k,
            args@.len() == i as nat,
            forall|j: int|
                0 <= j < i as int ==> #[trigger] args@[j]@ == SpecTypeExpr::Placeholder(j as nat),
        decreases k - i,
    {
        let t = mk_type_var(i);
        args.push(t);
        proof {
            assert(args@[i as int]@ == SpecTypeExpr::Placeholder(i as nat));
        }
        i = i + 1;
    }
    proof {
        crate::ty::lemma_view_type_args(args@);
        assert forall|j: int| 0 <= j < args@.len() implies view_type_args(args@)[j]
            == spec_mock_args(k as nat)[j] by {
            assert(view_type_args(args@)[j] == args@[j]@);
        }
        assert(view_type_args(args@) =~= spec_mock_args(k as nat));
    }
    args
}

/// Mock arity: a type with `k` generic parameters gets exactly `k`
/// placeholders, and the matching is a bijection by position — each
/// placeholder carries its own position, and distinct positions carry
/// distinct placeholders.
pub proof fn lemma_mock_arity(k: nat)
    ensures
        spec_mock_args(k).len() == k,
        forall|i: int| 0 <= i < k ==> spec_mock_args(k)[i] == SpecTypeExpr::Placeholder(i as nat),
        forall|i: int, j: int|
            0 <= i < k && 0 <= j < k && i != j ==> spec_mock_args(k)[i] != spec_mock_args(k)[j],
{
}

/// The generated contract of one type.
#[derive(Debug)]
pub struct Contract {
    pub shape: Shape,
    pub container: Container,
    /// One entry per field, in declared order; empty for a variant type.
    pub fields: Vec<FieldEntry>,
    /// One entry per variant, in declared order; empty for a record.
    pub variants: Vec<VariantEntry>,
    /// The generic parameter names, in declared order.
    pub params: Vec<String>,
    pub mocked: MockedType,
}

pub struct SpecContract {
    pub shape: SpecShape,
    pub container: SpecContainer,
    pub fields: Seq<SpecFieldEntry>,
    pub variants: Seq<SpecVariantEntry>,
    pub params: Seq<Seq<char>>,
    pub mocked: SpecMockedType,
}

impl View for Contract {
    type V = SpecContract;

    open spec fn view(&self) -> SpecContract {
        SpecContract {
            shape: self.shape@,
            container: self.container@,
            fields: view_seq(self.fields@),
            variants: view_seq(self.variants@),
            params: self.params.deep_view(),
            mocked: self.mocked@,
        }
    }
}

/// What deriving a contract from a descriptor yields: the contract, and
/// every diagnostic of the container and of each item, in order. The
/// contract is exposed only when the diagnostic list is empty.
pub open spec fn spec_derive(d: crate::descriptor::SpecDescriptor) -> (
    SpecContract,
    Seq<SpecDiagnostic>,
) {
    let is_enum = d.data is Enum;
    let (c, rule, cdiags) = spec_container_fold(
        spec_container_init(d.name, d.is_packed),
        Option::None,
        d.dirs,
        is_enum,
    );
    let (fents, vents, ddiags) = match d.data {
        SpecDataDecl::Struct(fs) => {
            let (es, ds) = spec_field_entries(
                spec_fields_list(fs),
                0,
                Option::None,
                rule,
                c.default,
                c.transparent,
            );
            (es, Seq::<SpecVariantEntry>::empty(), ds)
        }
        SpecDataDecl::Enum(vs) => {
            let (es, ds) = spec_variant_entries(vs, 0, rule, c.default);
            (Seq::<SpecFieldEntry>::empty(), es, ds)
        }
        SpecDataDecl::Union => (
            Seq::<SpecFieldEntry>::empty(),
            Seq::<SpecVariantEntry>::empty(),
            seq![spec_diag(DiagnosticKind::UnsupportedDataKind, Site::Container, "union"@)],
        ),
    };
    let contract = SpecContract {
        shape: spec_shape_of(d.data, false),
        container: c,
        fields: fents,
        variants: vents,
        params: d.params,
        mocked: SpecMockedType {
            name: d.name,
            args: spec_mock_args(d.params.len()),
            shape: spec_shape_of(d.data, true),
        },
    };
    (contract, cdiags + ddiags)
}

fn clone_strings(v: &Vec<String>) -> (r: Vec<String>)
    ensures
        r.deep_view() == v.deep_view(),
{
    let mut r: Vec<String> = Vec::new();
    let mut i: usize = 0;
    while i < v.len()
        invariant
            i <= v.len(),
            r@.len() == i as nat,
            forall|j: int| 0 <= j < i as int ==> #[trigger] r@[j]@ == v@[j]@,
        decreases v.len() - i,
    {
        let s = clone_string(&v[i]);
        r.push(s);
        i = i + 1;
    }
    proof {
        assert forall|j: int| 0 <= j < r@.len() implies r.deep_view()[j] == v.deep_view()[j] by {
            assert(r.deep_view()[j] == r@[j]@);
            assert(v.deep_view()[j] == v@[j]@);
        }
        assert(r.deep_view() =~= v.deep_view());
    }
    r
}

/// Derives the full contract of one type from its descriptor. Every
/// directive of the container, the fields and the variants is validated in
/// one pass; a union-shaped declaration is rejected outright. Exactly when
/// nothing fails, the contract is returned; otherwise every diagnostic
/// found is returned and no contract at all.
pub fn derive_serde_generic(d: &Descriptor) -> (r: Result<Contract, Vec<Diagnostic>>)
    ensures
        r is Ok <==> spec_derive(d@).1.len() == 0,
        r matches Ok(c) ==> c@ == spec_derive(d@).0,
        r matches Err(ds) ==> view_seq(ds@) == spec_derive(d@).1,
{
    let mut diags: Vec<Diagnostic> = Vec::new();
    let is_enum = match &d.data {
        DataDecl::Enum(_) => true,
        _ => false,
    };
    let c0 = Container::init(&d.name, d.is_packed);
    let (container, rule) = parse_container_dirs(c0, &d.dirs, is_enum, &mut diags);
    let ghost cdiags = view_seq(diags@);
    let mut fields: Vec<FieldEntry> = Vec::new();
    let mut variants: Vec<VariantEntry> = Vec::new();
    let shape: Shape;
    match &d.data {
        DataDecl::Struct(fs) => {
            let (ps, fe) = for_a_struct(
                fs,
                container.transparent,
                rule,
                &container.default,
                Option::None,
                &mut diags,
            );
            shape = Shape::Product(ps);
            fields = fe;
            proof {
                assert(view_seq(variants@) =~= Seq::<SpecVariantEntry>::empty());
            }
        }
        DataDecl::Enum(vs) => {
            let (chain, ve) = for_an_enum(vs, rule, &container.default, &mut diags);
            shape = Shape::Variant(chain);
            variants = ve;
            proof {
                assert(view_seq(fields@) =~= Seq::<SpecFieldEntry>::empty());
            }
        }
        DataDecl::Union => {
            let name = String::from_str("union");
            let g = Diagnostic {
                kind: DiagnosticKind::UnsupportedDataKind,
                site: Site::Container,
                directive: name,
            };
            let ghost prev = diags@;
            diags.push(g);
            shape = Shape::Product(ProductShape::UnitProduct);
            proof {
                lemma_view_seq_push(prev, g);
                reveal_strlit("union");
                assert(view_seq(fields@) =~= Seq::<SpecFieldEntry>::empty());
                assert(view_seq(variants@) =~= Seq::<SpecVariantEntry>::empty());
                assert(view_seq(diags@) =~= cdiags + seq![
                    spec_diag(DiagnosticKind::UnsupportedDataKind, Site::Container, "union"@),
                ]);
            }
        }
    }
    let mocked = MockedType {
        name: clone_string(&d.name),
        args: mock_args(d.params.len()),
        shape: shape_of(&d.data, true),
    };
    proof {
        assert(view_seq(diags@) == spec_derive(d@).1);
    }
    if diags.len() == 0 {
        let c = Contract {
            shape: shape,
            container: container,
            fields: fields,
            variants: variants,
            params: clone_strings(&d.params),
            mocked: mocked,
        };
        proof {
            lemma_view_seq(diags@);
            assert(c@ == spec_derive(d@).0);
        }
        Result::Ok(c)
    } else {
        proof {
            lemma_view_seq(diags@);
        }
        Result::Err(diags)
    }
}

/// Position injectivity: within one contract, no two distinct fields and
/// no two distinct variants carry the same position marker — the marker of
/// the item at position `i` of `n` counts to `n - i`.
pub proof fn lemma_position_injective(
    fds: Seq<SpecFieldDecl>,
    i: int,
    vi: Option<usize>,
    rule: Option<RenameRule>,
    cdef: SpecDefault,
    transparent: bool,
)
    requires
        0 <= i <= fds.len(),
    ensures
        spec_field_entries(fds, i, vi, rule, cdef, transparent).0.len() == fds.len() - i,
        forall|k: int|
            0 <= k < fds.len() - i ==> #[trigger] spec_field_entries(
                fds,
                i,
                vi,
                rule,
                cdef,
                transparent,
            ).0[k].marker == fds.len() - (i + k),
        forall|k: int, l: int|
            0 <= k < fds.len() - i && 0 <= l < fds.len() - i && k != l ==> spec_field_entries(
                fds,
                i,
                vi,
                rule,
                cdef,
                transparent,
            ).0[k].marker != spec_field_entries(fds, i, vi, rule, cdef, transparent).0[l].marker,
    decreases fds.len() - i,
{
    if i < fds.len() {
        lemma_position_injective(fds, i + 1, vi, rule, cdef, transparent);
        let cur = spec_field_entries(fds, i, vi, rule, cdef, transparent).0;
        let rest = spec_field_entries(fds, i + 1, vi, rule, cdef, transparent).0;
        assert forall|k: int| 0 <= k < fds.len() - i implies #[trigger] cur[k].marker == fds.len()
            - (i + k) by {
            if k > 0 {
                assert(cur[k] == rest[k - 1]);
            }
        }
    }
}

/// Position injectivity for variants: the marker of the variant at
/// position `i` of `m` counts to `m - i`, so distinct variants carry
/// distinct markers.
pub proof fn lemma_variant_position_injective(
    vs: Seq<SpecVariantDecl>,
    i: int,
    rule: Option<RenameRule>,
    cdef: SpecDefault,
)
    requires
        0 <= i <= vs.len(),
    ensures
        spec_variant_entries(vs, i, rule, cdef).0.len() == vs.len() - i,
        forall|k: int|
            0 <= k < vs.len() - i ==> #[trigger] spec_variant_entries(
                vs,
                i,
                rule,
                cdef,
            ).0[k].marker == vs.len() - (i + k),
        forall|k: int, l: int|
            0 <= k < vs.len() - i && 0 <= l < vs.len() - i && k != l ==> spec_variant_entries(
                vs,
                i,
                rule,
                cdef,
            ).0[k].marker != spec_variant_entries(vs, i, rule, cdef).0[l].marker,
    decreases vs.len() - i,
{
    if i < vs.len() {
        lemma_variant_position_injective(vs, i + 1, rule, cdef);
        let cur = spec_variant_entries(vs, i, rule, cdef).0;
        let rest = spec_variant_entries(vs, i + 1, rule, cdef).0;
        assert forall|k: int| 0 <= k < vs.len() - i implies #[trigger] cur[k].marker == vs.len()
            - (i + k) by {
            if k > 0 {
                assert(cur[k] == rest[k - 1]);
            }
        }
    }
}

impl Contract {
    /// The metadata entry of the field at the given declared position, if
    /// there is one.
    pub fn field_meta(&self, i: usize) -> (r: Option<&FieldEntry>)
        ensures
            r is Some <==> (i as nat) < self.fields@.len(),
            r matches Some(e) ==> *e == self.fields@[i as int],
    {
        if i < self.fields.len() {
            Option::Some(&self.fields[i])
        } else {
            Option::None
        }
    }

    /// The metadata entry of the variant at the given declared position,
    /// if there is one.
    pub fn variant_meta(&self, i: usize) -> (r: Option<&VariantEntry>)
        ensures
            r is Some <==> (i as nat) < self.variants@.len(),
            r matches Some(e) ==> *e == self.variants@[i as int],
    {
        if i < self.variants.len() {
            Option::Some(&self.variants[i])
        } else {
            Option::None
        }
    }

    /// The metadata entry of the field at position `fi` of the variant at
    /// position `vi`, if there is one.
    pub fn variant_field_meta(&self, vi: usize, fi: usize) -> (r: Option<&FieldEntry>)
        ensures
            r is Some <==> (vi as nat) < self.variants@.len() && (fi as nat)
                < self.variants@[vi as int].fields@.len(),
            r matches Some(e) ==> *e == self.variants@[vi as int].fields@[fi as int],
    {
        if vi < self.variants.len() {
            let v = &self.variants[vi];
            if fi < v.fields.len() {
                Option::Some(&v.fields[fi])
            } else {
                Option::None
            }
        } else {
            Option::None
        }
    }
}

} // verus!
