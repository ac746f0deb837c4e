//! The attribute parser: folds the directives declared on a container, a
//! field or a variant into the typed metadata records, left to right, one
//! diagnostic at most per directive and never stopping at the first. A
//! directive that fails leaves the metadata exactly as it was; a directive
//! that succeeds updates it as its family prescribes.

use vstd::prelude::*;

use crate::case::RenameRule;
use crate::case::name_eq;
use crate::case::field_rename;
use crate::case::variant_rename;
use crate::case::spec_field_rename;
use crate::case::spec_variant_rename;
use crate::case::spec_parse_rename_rule;
use crate::case::parse_rename_rule;
use crate::directive::Diagnostic;
use crate::directive::DiagnosticKind;
use crate::directive::DirectiveArg;
use crate::directive::RawDirective;
use crate::directive::Site;
use crate::directive::SpecDiagnostic;
use crate::directive::SpecDirectiveArg;
use crate::directive::SpecRawDirective;
use crate::meta::Container;
use crate::meta::Field;
use crate::meta::Identifier;
use crate::meta::SpecContainer;
use crate::meta::SpecDefault;
use crate::meta::SpecField;
use crate::meta::SpecMultiName;
use crate::meta::SpecTagType;
use crate::meta::SpecVariant;
use crate::meta::TagType;
use crate::meta::Variant;
use crate::ty::clone_string;
use crate::ty::view_seq;
use crate::ty::lemma_view_seq;
use crate::ty::lemma_view_seq_push;

verus! {

broadcast use vstd::seq::group_seq_axioms, vstd::std_specs::vec::group_vec_axioms, vstd::string::group_string_axioms;

/// A diagnostic of the given kind, at the given item, for the named
/// directive.
pub open spec fn spec_diag(kind: DiagnosticKind, site: Site, name: Seq<char>) -> SpecDiagnostic {
    SpecDiagnostic { kind: kind, site: site, directive: name }
}

fn mk_diag(kind: DiagnosticKind, site: Site, name: &String) -> (r: Diagnostic)
    ensures
        r@ == spec_diag(kind, site, name@),
{
    Diagnostic { kind: kind, site: site, directive: clone_string(name) }
}

/// Zero or one diagnostics, as a list.
pub open spec fn opt_seq(d: Option<SpecDiagnostic>) -> Seq<SpecDiagnostic> {
    match d {
        Option::Some(x) => seq![x],
        Option::None => Seq::empty(),
    }
}

/// The view of an optional diagnostic.
pub open spec fn view_opt_diag(o: Option<Diagnostic>) -> Option<SpecDiagnostic> {
    match o {
        Option::Some(d) => Option::Some(d@),
        Option::None => Option::None,
    }
}

/// A renamed pair of names: both directions become `v`, both flags are set,
/// aliases are kept.
pub open spec fn spec_rename_name(n: SpecMultiName, v: Seq<char>) -> SpecMultiName {
    SpecMultiName {
        serialize: v,
        serialize_renamed: true,
        deserialize: v,
        deserialize_renamed: true,
        deserialize_aliases: n.deserialize_aliases,
    }
}

/// What one directive makes of a field record: the updated record and at
/// most one diagnostic. A failing directive leaves the record unchanged.
pub open spec fn spec_field_step(f: SpecField, d: SpecRawDirective, site: Site) -> (
    SpecField,
    Option<SpecDiagnostic>,
) {
    if d.name == "rename"@ {
        match d.arg {
            SpecDirectiveArg::Str(v) => if f.name.serialize_renamed {
                (f, Option::Some(spec_diag(DiagnosticKind::ConflictingDirective, site, d.name)))
            } else {
                (SpecField { name: spec_rename_name(f.name, v), ..f }, Option::None)
            },
            SpecDirectiveArg::Flag => (
                f,
                Option::Some(spec_diag(DiagnosticKind::MalformedDirective, site, d.name)),
            ),
        }
    } else if d.name == "alias"@ {
        match d.arg {
            SpecDirectiveArg::Str(v) => (
                SpecField {
                    name: SpecMultiName {
                        deserialize_aliases: f.name.deserialize_aliases.push(v),
                        ..f.name
                    },
                    ..f
                },
                Option::None,
            ),
            SpecDirectiveArg::Flag => (
                f,
                Option::Some(spec_diag(DiagnosticKind::MalformedDirective, site, d.name)),
            ),
        }
    } else if d.name == "default"@ {
        if !(f.default is Absent) {
            (f, Option::Some(spec_diag(DiagnosticKind::ConflictingDirective, site, d.name)))
        } else {
            match d.arg {
                SpecDirectiveArg::Flag => (
                    SpecField { default: SpecDefault::Default, ..f },
                    Option::None,
                ),
                SpecDirectiveArg::Str(v) => (
                    SpecField { default: SpecDefault::Path(v), ..f },
                    Option::None,
                ),
            }
        }
    } else if d.name == "skip"@ {
        match d.arg {
            SpecDirectiveArg::Flag => if f.skip_serializing || f.skip_deserializing
                || f.serialize_with is Some || f.deserialize_with is Some
                || f.skip_serializing_if is Some {
                (f, Option::Some(spec_diag(DiagnosticKind::ConflictingDirective, site, d.name)))
            } else {
                (SpecField { skip_serializing: true, skip_deserializing: true, ..f }, Option::None)
            },
            SpecDirectiveArg::Str(_) => (
                f,
                Option::Some(spec_diag(DiagnosticKind::MalformedDirective, site, d.name)),
            ),
        }
    } else if d.name == "skip_serializing"@ {
        match d.arg {
            SpecDirectiveArg::Flag => if f.skip_serializing || f.serialize_with is Some
                || f.skip_serializing_if is Some {
                (f, Option::Some(spec_diag(DiagnosticKind::ConflictingDirective, site, d.name)))
            } else {
                (SpecField { skip_serializing: true, ..f }, Option::None)
            },
            SpecDirectiveArg::Str(_) => (
                f,
                Option::Some(spec_diag(DiagnosticKind::MalformedDirective, site, d.name)),
            ),
        }
    } else if d.name == "skip_deserializing"@ {
        match d.arg {
            SpecDirectiveArg::Flag => if f.skip_deserializing || f.deserialize_with is Some {
                (f, Option::Some(spec_diag(DiagnosticKind::ConflictingDirective, site, d.name)))
            } else {
                (SpecField { skip_deserializing: true, ..f }, Option::None)
            },
            SpecDirectiveArg::Str(_) => (
                f,
                Option::Some(spec_diag(DiagnosticKind::MalformedDirective, site, d.name)),
            ),
        }
    } else if d.name == "skip_serializing_if"@ {
        match d.arg {
            SpecDirectiveArg::Str(v) => if f.skip_serializing_if is Some || f.skip_serializing {
                (f, Option::Some(spec_diag(DiagnosticKind::ConflictingDirective, site, d.name)))
            } else {
                (SpecField { skip_serializing_if: Option::Some(v), ..f }, Option::None)
            },
            SpecDirectiveArg::Flag => (
                f,
                Option::Some(spec_diag(DiagnosticKind::MalformedDirective, site, d.name)),
            ),
        }
    } else if d.name == "serialize_with"@ {
        match d.arg {
            SpecDirectiveArg::Str(v) => if f.serialize_with is Some || f.skip_serializing {
                (f, Option::Some(spec_diag(DiagnosticKind::ConflictingDirective, site, d.name)))
            } else {
                (SpecField { serialize_with: Option::Some(v), ..f }, Option::None)
            },
            SpecDirectiveArg::Flag => (
                f,
                Option::Some(spec_diag(DiagnosticKind::MalformedDirective, site, d.name)),
            ),
        }
    } else if d.name == "deserialize_with"@ {
        match d.arg {
            SpecDirectiveArg::Str(v) => if f.deserialize_with is Some || f.skip_deserializing {
                (f, Option::Some(spec_diag(DiagnosticKind::ConflictingDirective, site, d.name)))
            } else {
                (SpecField { deserialize_with: Option::Some(v), ..f }, Option::None)
            },
            SpecDirectiveArg::Flag => (
                f,
                Option::Some(spec_diag(DiagnosticKind::MalformedDirective, site, d.name)),
            ),
        }
    } else if d.name == "getter"@ {
        match d.arg {
            SpecDirectiveArg::Str(v) => if f.getter is Some {
                (f, Option::Some(spec_diag(DiagnosticKind::ConflictingDirective, site, d.name)))
            } else {
                (SpecField { getter: Option::Some(v), ..f }, Option::None)
            },
            SpecDirectiveArg::Flag => (
                f,
                Option::Some(spec_diag(DiagnosticKind::MalformedDirective, site, d.name)),
            ),
        }
    } else if d.name == "flatten"@ {
        match d.arg {
            SpecDirectiveArg::Flag => if f.flatten {
                (f, Option::Some(spec_diag(DiagnosticKind::ConflictingDirective, site, d.name)))
            } else {
                (SpecField { flatten: true, ..f }, Option::None)
            },
            SpecDirectiveArg::Str(_) => (
                f,
                Option::Some(spec_diag(DiagnosticKind::MalformedDirective, site, d.name)),
            ),
        }
    } else {
        (f, Option::Some(spec_diag(DiagnosticKind::UnknownDirective, site, d.name)))
    }
}

/// What a directive list makes of a field record, left to right: the final
/// record and every diagnostic found, in directive order.
pub open spec fn spec_field_fold(f: SpecField, dirs: Seq<SpecRawDirective>, site: Site) -> (
    SpecField,
    Seq<SpecDiagnostic>,
)
    decreases dirs.len(),
{
    if dirs.len() == 0 {
        (f, Seq::empty())
    } else {
        let (f1, d) = spec_field_step(f, dirs[0], site);
        let (f2, rest) = spec_field_fold(f1, dirs.drop_first(), site);
        (f2, opt_seq(d) + rest)
    }
}

fn field_step(f: Field, d: &RawDirective, site: Site) -> (r: (Field, Option<Diagnostic>))
    ensures
        r.0@ == spec_field_step(f@, d@, site).0,
        view_opt_diag(r.1) == spec_field_step(f@, d@, site).1,
{
    let mut f = f;
    if name_eq(&d.name, "rename") {
        match &d.arg {
            DirectiveArg::Str(v) => {
                if f.name.serialize_renamed {
                    let g = mk_diag(DiagnosticKind::ConflictingDirective, site, &d.name);
                    (f, Option::Some(g))
                } else {
                    f.name.serialize = clone_string(v);
                    f.name.serialize_renamed = true;
                    f.name.deserialize = clone_string(v);
                    f.name.deserialize_renamed = true;
                    (f, Option::None)
                }
            }
            DirectiveArg::Flag => {
                let g = mk_diag(DiagnosticKind::MalformedDirective, site, &d.name);
                (f, Option::Some(g))
            }
        }
    } else if name_eq(&d.name, "alias") {
        match &d.arg {
            DirectiveArg::Str(v) => {
                let ghost old_aliases = f.name.deserialize_aliases.deep_view();
                f.name.deserialize_aliases.push(clone_string(v));
                proof {
                    assert(f.name.deserialize_aliases.deep_view() =~= old_aliases.push(v@));
                }
                (f, Option::None)
            }
            DirectiveArg::Flag => {
                let g = mk_diag(DiagnosticKind::MalformedDirective, site, &d.name);
                (f, Option::Some(g))
            }
        }
    } else if name_eq(&d.name, "default") {
        let conflict = match &f.default {
            crate::meta::Default::Absent => false,
            _ => true,
        };
        if conflict {
            let g = mk_diag(DiagnosticKind::ConflictingDirective, site, &d.name);
            (f, Option::Some(g))
        } else {
            match &d.arg {
                DirectiveArg::Flag => {
                    f.default = crate::meta::Default::Default;
                    (f, Option::None)
                }
                DirectiveArg::Str(v) => {
                    f.default = crate::meta::Default::Path(clone_string(v));
                    (f, Option::None)
                }
            }
        }
    } else if name_eq(&d.name, "skip") {
        match &d.arg {
            DirectiveArg::Flag => {
                if f.skip_serializing || f.skip_deserializing || f.serialize_with.is_some()
                    || f.deserialize_with.is_some() || f.skip_serializing_if.is_some() {
                    let g = mk_diag(DiagnosticKind::ConflictingDirective, site, &d.name);
                    (f, Option::Some(g))
                } else {
                    f.skip_serializing = true;
                    f.skip_deserializing = true;
                    (f, Option::None)
                }
            }
            DirectiveArg::Str(_) => {
                let g = mk_diag(DiagnosticKind::MalformedDirective, site, &d.name);
                (f, Option::Some(g))
            }
        }
    } else if name_eq(&d.name, "skip_serializing") {
        match &d.arg {
            DirectiveArg::Flag => {
                if f.skip_serializing || f.serialize_with.is_some()
                    || f.skip_serializing_if.is_some() {
                    let g = mk_diag(DiagnosticKind::ConflictingDirective, site, &d.name);
                    (f, Option::Some(g))
                } else {
                    f.skip_serializing = true;
                    (f, Option::None)
                }
            }
            DirectiveArg::Str(_) => {
                let g = mk_diag(DiagnosticKind::MalformedDirective, site, &d.name);
                (f, Option::Some(g))
            }
        }
    } else if name_eq(&d.name, "skip_deserializing") {
        match &d.arg {
            DirectiveArg::Flag => {
                if f.skip_deserializing || f.deserialize_with.is_some() {
                    let g = mk_diag(DiagnosticKind::ConflictingDirective, site, &d.name);
                    (f, Option::Some(g))
                } else {
                    f.skip_deserializing = true;
                    (f, Option::None)
                }
            }
            DirectiveArg::Str(_) => {
                let g = mk_diag(DiagnosticKind::MalformedDirective, site, &d.name);
                (f, Option::Some(g))
            }
        }
    } else if name_eq(&d.name, "skip_serializing_if") {
        match &d.arg {
            DirectiveArg::Str(v) => {
                if f.skip_serializing_if.is_some() || f.skip_serializing {
                    let g = mk_diag(DiagnosticKind::ConflictingDirective, site, &d.name);
                    (f, Option::Some(g))
                } else {
                    f.skip_serializing_if = Option::Some(clone_string(v));
                    (f, Option::None)
                }
            }
            DirectiveArg::Flag => {
                let g = mk_diag(DiagnosticKind::MalformedDirective, site, &d.name);
                (f, Option::Some(g))
            }
        }
    } else if name_eq(&d.name, "serialize_with") {
        match &d.arg {
            DirectiveArg::Str(v) => {
                if f.serialize_with.is_some() || f.skip_serializing {
                    let g = mk_diag(DiagnosticKind::ConflictingDirective, site, &d.name);
                    (f, Option::Some(g))
                } else {
                    f.serialize_with = Option::Some(clone_string(v));
                    (f, Option::None)
                }
            }
            DirectiveArg::Flag => {
                let g = mk_diag(DiagnosticKind::MalformedDirective, site, &d.name);
                (f, Option::Some(g))
            }
        }
    } else if name_eq(&d.name, "deserialize_with") {
        match &d.arg {
            DirectiveArg::Str(v) => {
                if f.deserialize_with.is_some() || f.skip_deserializing {
                    let g = mk_diag(DiagnosticKind::ConflictingDirective, site, &d.name);
                    (f, Option::Some(g))
                } else {
                    f.deserialize_with = Option::Some(clone_string(v));
                    (f, Option::None)
                }
            }
            DirectiveArg::Flag => {
                let g = mk_diag(DiagnosticKind::MalformedDirective, site, &d.name);
                (f, Option::Some(g))
            }
        }
    } else if name_eq(&d.name, "getter") {
        match &d.arg {
            DirectiveArg::Str(v) => {
                if f.getter.is_some() {
                    let g = mk_diag(DiagnosticKind::ConflictingDirective, site, &d.name);
                    (f, Option::Some(g))
                } else {
                    f.getter = Option::Some(clone_string(v));
                    (f, Option::None)
                }
            }
            DirectiveArg::Flag => {
                let g = mk_diag(DiagnosticKind::MalformedDirective, site, &d.name);
                (f, Option::Some(g))
            }
        }
    } else if name_eq(&d.name, "flatten") {
        match &d.arg {
            DirectiveArg::Flag => {
                if f.flatten {
                    let g = mk_diag(DiagnosticKind::ConflictingDirective, site, &d.name);
                    (f, Option::Some(g))
                } else {
                    f.flatten = true;
                    (f, Option::None)
                }
            }
            DirectiveArg::Str(_) => {
                let g = mk_diag(DiagnosticKind::MalformedDirective, site, &d.name);
                (f, Option::Some(g))
            }
        }
    } else {
        let g = mk_diag(DiagnosticKind::UnknownDirective, site, &d.name);
        (f, Option::Some(g))
    }
}

/// Folds every directive of one field into its record, collecting each
/// diagnostic in order at the end of `diags`.
pub fn parse_field_dirs(init: Field, dirs: &Vec<RawDirective>, site: Site, diags: &mut Vec<
    Diagnostic,
>) -> (r: Field)
    ensures
        r@ == spec_field_fold(init@, view_seq(dirs@), site).0,
        view_seq(final(diags)@) == view_seq(old(diags)@) + spec_field_fold(
            init@,
            view_seq(dirs@),
            site,
        ).1,
{
    let ghost dirsv = view_seq(dirs@);
    let ghost base = view_seq(diags@);
    let ghost full = spec_field_fold(init@, dirsv, site);
    let mut cur = init;
    let mut i: usize = 0;
    proof {
        lemma_view_seq(dirs@);
        assert(dirsv.subrange(0, dirsv.len() as int) =~= dirsv);
    }
    while i < dirs.len()
        invariant
            i <= dirs.len(),
            dirsv.len() == dirs@.len(),
            dirsv == view_seq(dirs@),
            forall|j: int| 0 <= j < dirs@.len() ==> dirsv[j] == #[trigger] dirs@[j]@,
            full == spec_field_fold(init@, dirsv, site),
            base == view_seq(old(diags)@),
            spec_field_fold(cur@, dirsv.subrange(i as int, dirsv.len() as int), site).0 == full.0,
            base + full.1 == view_seq(diags@) + spec_field_fold(
                cur@,
                dirsv.subrange(i as int, dirsv.len() as int),
                site,
            ).1,
        decreases dirs.len() - i,
    {
        let ghost rem = dirsv.subrange(i as int, dirsv.len() as int);
        proof {
            assert(rem[0] == dirsv[i as int]);
            assert(rem.drop_first() =~= dirsv.subrange(i as int + 1, dirsv.len() as int));
        }
        let (next, dg) = field_step(cur, &dirs[i], site);
        cur = next;
        let ghost prev = diags@;
        match dg {
            Option::Some(g) => {
                diags.push(g);
                proof {
                    lemma_view_seq_push(prev, g);
                }
            }
            Option::None => {
            }
        }
        proof {
            assert(base + full.1 =~= view_seq(diags@) + spec_field_fold(
                cur@,
                rem.drop_first(),
                site,
            ).1);
        }
        i = i + 1;
    }
    proof {
        assert(dirsv.subrange(dirsv.len() as int, dirsv.len() as int) =~= Seq::<
            SpecRawDirective,
        >::empty());
        assert(base + full.1 =~= view_seq(diags@));
    }
    cur
}

/// What one directive makes of a variant record: the updated record and at
/// most one diagnostic. A failing directive leaves the record unchanged.
pub open spec fn spec_variant_step(v: SpecVariant, d: SpecRawDirective, site: Site) -> (
    SpecVariant,
    Option<SpecDiagnostic>,
) {
    if d.name == "rename"@ {
        match d.arg {
            SpecDirectiveArg::Str(n) => if v.name.serialize_renamed {
                (v, Option::Some(spec_diag(DiagnosticKind::ConflictingDirective, site, d.name)))
            } else {
                (SpecVariant { name: spec_rename_name(v.name, n), ..v }, Option::None)
            },
            SpecDirectiveArg::Flag => (
                v,
                Option::Some(spec_diag(DiagnosticKind::MalformedDirective, site, d.name)),
            ),
        }
    } else if d.name == "alias"@ {
        match d.arg {
            SpecDirectiveArg::Str(n) => (
                SpecVariant {
                    name: SpecMultiName {
                        deserialize_aliases: v.name.deserialize_aliases.push(n),
                        ..v.name
                    },
                    ..v
                },
                Option::None,
            ),
            SpecDirectiveArg::Flag => (
                v,
                Option::Some(spec_diag(DiagnosticKind::MalformedDirective, site, d.name)),
            ),
        }
    } else if d.name == "skip"@ {
        match d.arg {
            SpecDirectiveArg::Flag => if v.skip_serializing || v.skip_deserializing
                || v.serialize_with is Some || v.deserialize_with is Some {
                (v, Option::Some(spec_diag(DiagnosticKind::ConflictingDirective, site, d.name)))
            } else {
                (
                    SpecVariant { skip_serializing: true, skip_deserializing: true, ..v },
                    Option::None,
                )
            },
            SpecDirectiveArg::Str(_) => (
                v,
                Option::Some(spec_diag(DiagnosticKind::MalformedDirective, site, d.name)),
            ),
        }
    } else if d.name == "skip_serializing"@ {
        match d.arg {
            SpecDirectiveArg::Flag => if v.skip_serializing || v.serialize_with is Some {
                (v, Option::Some(spec_diag(DiagnosticKind::ConflictingDirective, site, d.name)))
            } else {
                (SpecVariant { skip_serializing: true, ..v }, Option::None)
            },
            SpecDirectiveArg::Str(_) => (
                v,
                Option::Some(spec_diag(DiagnosticKind::MalformedDirective, site, d.name)),
            ),
        }
    } else if d.name == "skip_deserializing"@ {
        match d.arg {
            SpecDirectiveArg::Flag => if v.skip_deserializing || v.deserialize_with is Some {
                (v, Option::Some(spec_diag(DiagnosticKind::ConflictingDirective, site, d.name)))
            } else {
                (SpecVariant { skip_deserializing: true, ..v }, Option::None)
            },
            SpecDirectiveArg::Str(_) => (
                v,
                Option::Some(spec_diag(DiagnosticKind::MalformedDirective, site, d.name)),
            ),
        }
    } else if d.name == "serialize_with"@ {
        match d.arg {
            SpecDirectiveArg::Str(n) => if v.serialize_with is Some || v.skip_serializing {
                (v, Option::Some(spec_diag(DiagnosticKind::ConflictingDirective, site, d.name)))
            } else {
                (SpecVariant { serialize_with: Option::Some(n), ..v }, Option::None)
            },
            SpecDirectiveArg::Flag => (
                v,
                Option::Some(spec_diag(DiagnosticKind::MalformedDirective, site, d.name)),
            ),
        }
    } else if d.name == "deserialize_with"@ {
        match d.arg {
            SpecDirectiveArg::Str(n) => if v.deserialize_with is Some || v.skip_deserializing {
                (v, Option::Some(spec_diag(DiagnosticKind::ConflictingDirective, site, d.name)))
            } else {
                (SpecVariant { deserialize_with: Option::Some(n), ..v }, Option::None)
            },
            SpecDirectiveArg::Flag => (
                v,
                Option::Some(spec_diag(DiagnosticKind::MalformedDirective, site, d.name)),
            ),
        }
    } else if d.name == "other"@ {
        match d.arg {
            SpecDirectiveArg::Flag => if v.other {
                (v, Option::Some(spec_diag(DiagnosticKind::ConflictingDirective, site, d.name)))
            } else {
                (SpecVariant { other: true, ..v }, Option::None)
            },
            SpecDirectiveArg::Str(_) => (
                v,
                Option::Some(spec_diag(DiagnosticKind::MalformedDirective, site, d.name)),
            ),
        }
    } else if d.name == "untagged"@ {
        match d.arg {
            SpecDirectiveArg::Flag => if v.untagged {
                (v, Option::Some(spec_diag(DiagnosticKind::ConflictingDirective, site, d.name)))
            } else {
                (SpecVariant { untagged: true, ..v }, Option::None)
            },
            SpecDirectiveArg::Str(_) => (
                v,
                Option::Some(spec_diag(DiagnosticKind::MalformedDirective, site, d.name)),
            ),
        }
    } else {
        (v, Option::Some(spec_diag(DiagnosticKind::UnknownDirective, site, d.name)))
    }
}

/// What a directive list makes of a variant record, left to right.
pub open spec fn spec_variant_fold(v: SpecVariant, dirs: Seq<SpecRawDirective>, site: Site) -> (
    SpecVariant,
    Seq<SpecDiagnostic>,
)
    decreases dirs.len(),
{
    if dirs.len() == 0 {
        (v, Seq::empty())
    } else {
        let (v1, d) = spec_variant_step(v, dirs[0], site);
        let (v2, rest) = spec_variant_fold(v1, dirs.drop_first(), site);
        (v2, opt_seq(d) + rest)
    }
}

fn variant_step(v: Variant, d: &RawDirective, site: Site) -> (r: (Variant, Option<Diagnostic>))
    ensures
        r.0@ == spec_variant_step(v@, d@, site).0,
        view_opt_diag(r.1) == spec_variant_step(v@, d@, site).1,
{
    let mut v = v;
    if name_eq(&d.name, "rename") {
        match &d.arg {
            DirectiveArg::Str(n) => {
                if v.name.serialize_renamed {
                    let g = mk_diag(DiagnosticKind::ConflictingDirective, site, &d.name);
                    (v, Option::Some(g))
                } else {
                    v.name.serialize = clone_string(n);
                    v.name.serialize_renamed = true;
                    v.name.deserialize = clone_string(n);
                    v.name.deserialize_renamed = true;
                    (v, Option::None)
                }
            }
            DirectiveArg::Flag => {
                let g = mk_diag(DiagnosticKind::MalformedDirective, site, &d.name);
                (v, Option::Some(g))
            }
        }
    } else if name_eq(&d.name, "alias") {
        match &d.arg {
            DirectiveArg::Str(n) => {
                let ghost old_aliases = v.name.deserialize_aliases.deep_view();
                v.name.deserialize_aliases.push(clone_string(n));
                proof {
                    assert(v.name.deserialize_aliases.deep_view() =~= old_aliases.push(n@));
                }
                (v, Option::None)
            }
            DirectiveArg::Flag => {
                let g = mk_diag(DiagnosticKind::MalformedDirective, site, &d.name);
                (v, Option::Some(g))
            }
        }
    } else if name_eq(&d.name, "skip") {
        match &d.arg {
            DirectiveArg::Flag => {
                if v.skip_serializing || v.skip_deserializing || v.serialize_with.is_some()
                    || v.deserialize_with.is_some() {
                    let g = mk_diag(DiagnosticKind::ConflictingDirective, site, &d.name);
                    (v, Option::Some(g))
                } else {
                    v.skip_serializing = true;
                    v.skip_deserializing = true;
                    (v, Option::None)
                }
            }
            DirectiveArg::Str(_) => {
                let g = mk_diag(DiagnosticKind::MalformedDirective, site, &d.name);
                (v, Option::Some(g))
            }
        }
    } else if name_eq(&d.name, "skip_serializing") {
        match &d.arg {
            DirectiveArg::Flag => {
                if v.skip_serializing || v.serialize_with.is_some() {
                    let g = mk_diag(DiagnosticKind::ConflictingDirective, site, &d.name);
                    (v, Option::Some(g))
                } else {
                    v.skip_serializing = true;
                    (v, Option::None)
                }
            }
            DirectiveArg::Str(_) => {
                let g = mk_diag(DiagnosticKind::MalformedDirective, site, &d.name);
                (v, Option::Some(g))
            }
        }
    } else if name_eq(&d.name, "skip_deserializing") {
        match &d.arg {
            DirectiveArg::Flag => {
                if v.skip_deserializing || v.deserialize_with.is_some() {
                    let g = mk_diag(DiagnosticKind::ConflictingDirective, site, &d.name);
                    (v, Option::Some(g))
                } else {
                    v.skip_deserializing = true;
                    (v, Option::None)
                }
            }
            DirectiveArg::Str(_) => {
                let g = mk_diag(DiagnosticKind::MalformedDirective, site, &d.name);
                (v, Option::Some(g))
            }
        }
    } else if name_eq(&d.name, "serialize_with") {
        match &d.arg {
            DirectiveArg::Str(n) => {
                if v.serialize_with.is_some() || v.skip_serializing {
                    let g = mk_diag(DiagnosticKind::ConflictingDirective, site, &d.name);
                    (v, Option::Some(g))
                } else {
                    v.serialize_with = Option::Some(clone_string(n));
                    (v, Option::None)
                }
            }
            DirectiveArg::Flag => {
                let g = mk_diag(DiagnosticKind::MalformedDirective, site, &d.name);
                (v, Option::Some(g))
            }
        }
    } else if name_eq(&d.name, "deserialize_with") {
        match &d.arg {
            DirectiveArg::Str(n) => {
                if v.deserialize_with.is_some() || v.skip_deserializing {
                    let g = mk_diag(DiagnosticKind::ConflictingDirective, site, &d.name);
                    (v, Option::Some(g))
                } else {
                    v.deserialize_with = Option::Some(clone_string(n));
                    (v, Option::None)
                }
            }
            DirectiveArg::Flag => {
                let g = mk_diag(DiagnosticKind::MalformedDirective, site, &d.name);
                (v, Option::Some(g))
            }
        }
    } else if name_eq(&d.name, "other") {
        match &d.arg {
            DirectiveArg::Flag => {
                if v.other {
                    let g = mk_diag(DiagnosticKind::ConflictingDirective, site, &d.name);
                    (v, Option::Some(g))
                } else {
                    v.other = true;
                    (v, Option::None)
                }
            }
            DirectiveArg::Str(_) => {
                let g = mk_diag(DiagnosticKind::MalformedDirective, site, &d.name);
                (v, Option::Some(g))
            }
        }
    } else if name_eq(&d.name, "untagged") {
        match &d.arg {
            DirectiveArg::Flag => {
                if v.untagged {
                    let g = mk_diag(DiagnosticKind::ConflictingDirective, site, &d.name);
                    (v, Option::Some(g))
                } else {
                    v.untagged = true;
                    (v, Option::None)
                }
            }
            DirectiveArg::Str(_) => {
                let g = mk_diag(DiagnosticKind::MalformedDirective, site, &d.name);
                (v, Option::Some(g))
            }
        }
    } else {
        let g = mk_diag(DiagnosticKind::UnknownDirective, site, &d.name);
        (v, Option::Some(g))
    }
}

/// Folds every directive of one variant into its record, collecting each
/// diagnostic in order at the end of `diags`.
pub fn parse_variant_dirs(init: Variant, dirs: &Vec<RawDirective>, site: Site, diags: &mut Vec<
    Diagnostic,
>) -> (r: Variant)
    ensures
        r@ == spec_variant_fold(init@, view_seq(dirs@), site).0,
        view_seq(final(diags)@) == view_seq(old(diags)@) + spec_variant_fold(
            init@,
            view_seq(dirs@),
            site,
        ).1,
{
    let ghost dirsv = view_seq(dirs@);
    let ghost base = view_seq(diags@);
    let ghost full = spec_variant_fold(init@, dirsv, site);
    let mut cur = init;
    let mut i: usize = 0;
    proof {
        lemma_view_seq(dirs@);
        assert(dirsv.subrange(0, dirsv.len() as int) =~= dirsv);
    }
    while i < dirs.len()
        invariant
            i <= dirs.len(),
            dirsv.len() == dirs@.len(),
            dirsv == view_seq(dirs@),
            forall|j: int| 0 <= j < dirs@.len() ==> dirsv[j] == #[trigger] dirs@[j]@,
            full == spec_variant_fold(init@, dirsv, site),
            base == view_seq(old(diags)@),
            spec_variant_fold(cur@, dirsv.subrange(i as int, dirsv.len() as int), site).0
                == full.0,
            base + full.1 == view_seq(diags@) + spec_variant_fold(
                cur@,
                dirsv.subrange(i as int, dirsv.len() as int),
                site,
            ).1,
        decreases dirs.len() - i,
    {
        let ghost rem = dirsv.subrange(i as int, dirsv.len() as int);
        proof {
            assert(rem[0] == dirsv[i as int]);
            assert(rem.drop_first() =~= dirsv.subrange(i as int + 1, dirsv.len() as int));
        }
        let (next, dg) = variant_step(cur, &dirs[i], site);
        cur = next;
        let ghost prev = diags@;
        match dg {
            Option::Some(g) => {
                diags.push(g);
                proof {
                    lemma_view_seq_push(prev, g);
                }
            }
            Option::None => {
            }
        }
        proof {
            assert(base + full.1 =~= view_seq(diags@) + spec_variant_fold(
                cur@,
                rem.drop_first(),
                site,
            ).1);
        }
        i = i + 1;
    }
    proof {
        assert(dirsv.subrange(dirsv.len() as int, dirsv.len() as int) =~= Seq::<
            SpecRawDirective,
        >::empty());
        assert(base + full.1 =~= view_seq(diags@));
    }
    cur
}

/// What one directive makes of a container record and its casing rule. A
/// failing directive leaves both unchanged. Tagging directives apply to
/// variant types only; `content` must follow a `tag`.
pub open spec fn spec_container_step(
    c: SpecContainer,
    rule: Option<RenameRule>,
    d: SpecRawDirective,
    is_enum: bool,
) -> (SpecContainer, Option<RenameRule>, Option<SpecDiagnostic>) {
    let site = Site::Container;
    if d.name == "from"@ || d.name == "try_from"@ || d.name == "into"@ || d.name == "remote"@ {
        (
            c,
            rule,
            Option::Some(spec_diag(DiagnosticKind::UnsupportedContainerDirective, site, d.name)),
        )
    } else if d.name == "rename"@ {
        match d.arg {
            SpecDirectiveArg::Str(v) => if c.name.serialize_renamed {
                (
                    c,
                    rule,
                    Option::Some(spec_diag(DiagnosticKind::ConflictingDirective, site, d.name)),
                )
            } else {
                (SpecContainer { name: spec_rename_name(c.name, v), ..c }, rule, Option::None)
            },
            SpecDirectiveArg::Flag => (
                c,
                rule,
                Option::Some(spec_diag(DiagnosticKind::MalformedDirective, site, d.name)),
            ),
        }
    } else if d.name == "rename_all"@ {
        match d.arg {
            SpecDirectiveArg::Str(v) => {
                match spec_parse_rename_rule(v) {
                    Option::Some(r) => if rule is Some {
                        (
                            c,
                            rule,
                            Option::Some(
                                spec_diag(DiagnosticKind::ConflictingDirective, site, d.name),
                            ),
                        )
                    } else {
                        (c, Option::Some(r), Option::None)
                    },
                    Option::None => (
                        c,
                        rule,
                        Option::Some(spec_diag(DiagnosticKind::MalformedDirective, site, d.name)),
                    ),
                }
            }
            SpecDirectiveArg::Flag => (
                c,
                rule,
                Option::Some(spec_diag(DiagnosticKind::MalformedDirective, site, d.name)),
            ),
        }
    } else if d.name == "default"@ {
        if !(c.default is Absent) {
            (c, rule, Option::Some(spec_diag(DiagnosticKind::ConflictingDirective, site, d.name)))
        } else {
            match d.arg {
                SpecDirectiveArg::Flag => (
                    SpecContainer { default: SpecDefault::Default, ..c },
                    rule,
                    Option::None,
                ),
                SpecDirectiveArg::Str(v) => (
                    SpecContainer { default: SpecDefault::Path(v), ..c },
                    rule,
                    Option::None,
                ),
            }
        }
    } else if d.name == "transparent"@ {
        match d.arg {
            SpecDirectiveArg::Flag => if c.transparent {
                (
                    c,
                    rule,
                    Option::Some(spec_diag(DiagnosticKind::ConflictingDirective, site, d.name)),
                )
            } else {
                (SpecContainer { transparent: true, ..c }, rule, Option::None)
            },
            SpecDirectiveArg::Str(_) => (
                c,
                rule,
                Option::Some(spec_diag(DiagnosticKind::MalformedDirective, site, d.name)),
            ),
        }
    } else if d.name == "deny_unknown_fields"@ {
        match d.arg {
            SpecDirectiveArg::Flag => if c.deny_unknown_fields {
                (
                    c,
                    rule,
                    Option::Some(spec_diag(DiagnosticKind::ConflictingDirective, site, d.name)),
                )
            } else {
                (SpecContainer { deny_unknown_fields: true, ..c }, rule, Option::None)
            },
            SpecDirectiveArg::Str(_) => (
                c,
                rule,
                Option::Some(spec_diag(DiagnosticKind::MalformedDirective, site, d.name)),
            ),
        }
    } else if d.name == "tag"@ {
        match d.arg {
            SpecDirectiveArg::Str(v) => if !is_enum {
                (
                    c,
                    rule,
                    Option::Some(spec_diag(DiagnosticKind::MalformedDirective, site, d.name)),
                )
            } else if !(c.tag is External) {
                (
                    c,
                    rule,
                    Option::Some(spec_diag(DiagnosticKind::ConflictingDirective, site, d.name)),
                )
            } else {
                (SpecContainer { tag: SpecTagType::Internal { tag: v }, ..c }, rule, Option::None)
            },
            SpecDirectiveArg::Flag => (
                c,
                rule,
                Option::Some(spec_diag(DiagnosticKind::MalformedDirective, site, d.name)),
            ),
        }
    } else if d.name == "content"@ {
        match d.arg {
            SpecDirectiveArg::Str(v) => if !is_enum {
                (
                    c,
                    rule,
                    Option::Some(spec_diag(DiagnosticKind::MalformedDirective, site, d.name)),
                )
            } else {
                match c.tag {
                    SpecTagType::Internal { tag } => (
                        SpecContainer {
                            tag: SpecTagType::Adjacent { tag: tag, content: v },
                            ..c
                        },
                        rule,
                        Option::None,
                    ),
                    _ => (
                        c,
                        rule,
                        Option::Some(
                            spec_diag(DiagnosticKind::ConflictingDirective, site, d.name),
                        ),
                    ),
                }
            },
            SpecDirectiveArg::Flag => (
                c,
                rule,
                Option::Some(spec_diag(DiagnosticKind::MalformedDirective, site, d.name)),
            ),
        }
    } else if d.name == "untagged"@ {
        match d.arg {
            SpecDirectiveArg::Flag => if !is_enum {
                (
                    c,
                    rule,
                    Option::Some(spec_diag(DiagnosticKind::MalformedDirective, site, d.name)),
                )
            } else if !(c.tag is External) {
                (
                    c,
                    rule,
                    Option::Some(spec_diag(DiagnosticKind::ConflictingDirective, site, d.name)),
                )
            } else {
                (SpecContainer { tag: SpecTagType::Untagged, ..c }, rule, Option::None)
            },
            SpecDirectiveArg::Str(_) => (
                c,
                rule,
                Option::Some(spec_diag(DiagnosticKind::MalformedDirective, site, d.name)),
            ),
        }
    } else if d.name == "expecting"@ {
        match d.arg {
            SpecDirectiveArg::Str(v) => if c.expecting is Some {
                (
                    c,
                    rule,
                    Option::Some(spec_diag(DiagnosticKind::ConflictingDirective, site, d.name)),
                )
            } else {
                (SpecContainer { expecting: Option::Some(v), ..c }, rule, Option::None)
            },
            SpecDirectiveArg::Flag => (
                c,
                rule,
                Option::Some(spec_diag(DiagnosticKind::MalformedDirective, site, d.name)),
            ),
        }
    } else if d.name == "non_exhaustive"@ {
        match d.arg {
            SpecDirectiveArg::Flag => if c.non_exhaustive {
                (
                    c,
                    rule,
                    Option::Some(spec_diag(DiagnosticKind::ConflictingDirective, site, d.name)),
                )
            } else {
                (SpecContainer { non_exhaustive: true, ..c }, rule, Option::None)
            },
            SpecDirectiveArg::Str(_) => (
                c,
                rule,
                Option::Some(spec_diag(DiagnosticKind::MalformedDirective, site, d.name)),
            ),
        }
    } else if d.name == "field_identifier"@ {
        match d.arg {
            SpecDirectiveArg::Flag => if !is_enum {
                (
                    c,
                    rule,
                    Option::Some(spec_diag(DiagnosticKind::MalformedDirective, site, d.name)),
                )
            } else if !(c.identifier is No) {
                (
                    c,
                    rule,
                    Option::Some(spec_diag(DiagnosticKind::ConflictingDirective, site, d.name)),
                )
            } else {
                (SpecContainer { identifier: Identifier::Field, ..c }, rule, Option::None)
            },
            SpecDirectiveArg::Str(_) => (
                c,
                rule,
                Option::Some(spec_diag(DiagnosticKind::MalformedDirective, site, d.name)),
            ),
        }
    } else if d.name == "variant_identifier"@ {
        match d.arg {
            SpecDirectiveArg::Flag => if !is_enum {
                (
                    c,
                    rule,
                    Option::Some(spec_diag(DiagnosticKind::MalformedDirective, site, d.name)),
                )
            } else if !(c.identifier is No) {
                (
                    c,
                    rule,
                    Option::Some(spec_diag(DiagnosticKind::ConflictingDirective, site, d.name)),
                )
            } else {
                (SpecContainer { identifier: Identifier::Variant, ..c }, rule, Option::None)
            },
            SpecDirectiveArg::Str(_) => (
                c,
                rule,
                Option::Some(spec_diag(DiagnosticKind::MalformedDirective, site, d.name)),
            ),
        }
    } else {
        (c, rule, Option::Some(spec_diag(DiagnosticKind::UnknownDirective, site, d.name)))
    }
}

/// What a directive list makes of a container record, left to right.
pub open spec fn spec_container_fold(
    c: SpecContainer,
    rule: Option<RenameRule>,
    dirs: Seq<SpecRawDirective>,
    is_enum: bool,
) -> (SpecContainer, Option<RenameRule>, Seq<SpecDiagnostic>)
    decreases dirs.len(),
{
    if dirs.len() == 0 {
        (c, rule, Seq::empty())
    } else {
        let (c1, r1, d) = spec_container_step(c, rule, dirs[0], is_enum);
        let (c2, r2, rest) = spec_container_fold(c1, r1, dirs.drop_first(), is_enum);
        (c2, r2, opt_seq(d) + rest)
    }
}

fn container_step(c: Container, rule: Option<RenameRule>, d: &RawDirective, is_enum: bool) -> (r:
    (Container, Option<RenameRule>, Option<Diagnostic>))
    ensures
        r.0@ == spec_container_step(c@, rule, d@, is_enum).0,
        r.1 == spec_container_step(c@, rule, d@, is_enum).1,
        view_opt_diag(r.2) == spec_container_step(c@, rule, d@, is_enum).2,
{
    let site = Site::Container;
    let mut c = c;
    if name_eq(&d.name, "from") || name_eq(&d.name, "try_from") || name_eq(&d.name, "into")
        || name_eq(&d.name, "remote") {
        let g = mk_diag(DiagnosticKind::UnsupportedContainerDirective, site, &d.name);
        (c, rule, Option::Some(g))
    } else if name_eq(&d.name, "rename") {
        match &d.arg {
            DirectiveArg::Str(v) => {
                if c.name.serialize_renamed {
                    let g = mk_diag(DiagnosticKind::ConflictingDirective, site, &d.name);
                    (c, rule, Option::Some(g))
                } else {
                    c.name.serialize = clone_string(v);
                    c.name.serialize_renamed = true;
                    c.name.deserialize = clone_string(v);
                    c.name.deserialize_renamed = true;
                    (c, rule, Option::None)
                }
            }
            DirectiveArg::Flag => {
                let g = mk_diag(DiagnosticKind::MalformedDirective, site, &d.name);
                (c, rule, Option::Some(g))
            }
        }
    } else if name_eq(&d.name, "rename_all") {
        match &d.arg {
            DirectiveArg::Str(v) => {
                match parse_rename_rule(v) {
                    Option::Some(r) => {
                        if rule.is_some() {
                            let g = mk_diag(DiagnosticKind::ConflictingDirective, site, &d.name);
                            (c, rule, Option::Some(g))
                        } else {
                            (c, Option::Some(r), Option::None)
                        }
                    }
                    Option::None => {
                        let g = mk_diag(DiagnosticKind::MalformedDirective, site, &d.name);
                        (c, rule, Option::Some(g))
                    }
                }
            }
            DirectiveArg::Flag => {
                let g = mk_diag(DiagnosticKind::MalformedDirective, site, &d.name);
                (c, rule, Option::Some(g))
            }
        }
    } else if name_eq(&d.name, "default") {
        let conflict = match &c.default {
            crate::meta::Default::Absent => false,
            _ => true,
        };
        if conflict {
            let g = mk_diag(DiagnosticKind::ConflictingDirective, site, &d.name);
            (c, rule, Option::Some(g))
        } else {
            match &d.arg {
                DirectiveArg::Flag => {
                    c.default = crate::meta::Default::Default;
                    (c, rule, Option::None)
                }
                DirectiveArg::Str(v) => {
                    c.default = crate::meta::Default::Path(clone_string(v));
                    (c, rule, Option::None)
                }
            }
        }
    } else if name_eq(&d.name, "transparent") {
        match &d.arg {
            DirectiveArg::Flag => {
                if c.transparent {
                    let g = mk_diag(DiagnosticKind::ConflictingDirective, site, &d.name);
                    (c, rule, Option::Some(g))
                } else {
                    c.transparent = true;
                    (c, rule, Option::None)
                }
            }
            DirectiveArg::Str(_) => {
                let g = mk_diag(DiagnosticKind::MalformedDirective, site, &d.name);
                (c, rule, Option::Some(g))
            }
        }
    } else if name_eq(&d.name, "deny_unknown_fields") {
        match &d.arg {
            DirectiveArg::Flag => {
                if c.deny_unknown_fields {
                    let g = mk_diag(DiagnosticKind::ConflictingDirective, site, &d.name);
                    (c, rule, Option::Some(g))
                } else {
                    c.deny_unknown_fields = true;
                    (c, rule, Option::None)
                }
            }
            DirectiveArg::Str(_) => {
                let g = mk_diag(DiagnosticKind::MalformedDirective, site, &d.name);
                (c, rule, Option::Some(g))
            }
        }
    } else if name_eq(&d.name, "tag") {
        match &d.arg {
            DirectiveArg::Str(v) => {
                if !is_enum {
                    let g = mk_diag(DiagnosticKind::MalformedDirective, site, &d.name);
                    (c, rule, Option::Some(g))
                } else {
                    let external = match &c.tag {
                        TagType::External => true,
                        _ => false,
                    };
                    if !external {
                        let g = mk_diag(DiagnosticKind::ConflictingDirective, site, &d.name);
                        (c, rule, Option::Some(g))
                    } else {
                        c.tag = TagType::Internal { tag: clone_string(v) };
                        (c, rule, Option::None)
                    }
                }
            }
            DirectiveArg::Flag => {
                let g = mk_diag(DiagnosticKind::MalformedDirective, site, &d.name);
                (c, rule, Option::Some(g))
            }
        }
    } else if name_eq(&d.name, "content") {
        match &d.arg {
            DirectiveArg::Str(v) => {
                if !is_enum {
                    let g = mk_diag(DiagnosticKind::MalformedDirective, site, &d.name);
                    (c, rule, Option::Some(g))
                } else {
                    let internal_tag = match &c.tag {
                        TagType::Internal { tag } => Option::Some(clone_string(tag)),
                        _ => Option::None,
                    };
                    match internal_tag {
                        Option::Some(t) => {
                            c.tag = TagType::Adjacent { tag: t, content: clone_string(v) };
                            (c, rule, Option::None)
                        }
                        Option::None => {
                            let g = mk_diag(DiagnosticKind::ConflictingDirective, site, &d.name);
                            (c, rule, Option::Some(g))
                        }
                    }
                }
            }
            DirectiveArg::Flag => {
                let g = mk_diag(DiagnosticKind::MalformedDirective, site, &d.name);
                (c, rule, Option::Some(g))
            }
        }
    } else if name_eq(&d.name, "untagged") {
        match &d.arg {
            DirectiveArg::Flag => {
                if !is_enum {
                    let g = mk_diag(DiagnosticKind::MalformedDirective, site, &d.name);
                    (c, rule, Option::Some(g))
                } else {
                    let external = match &c.tag {
                        TagType::External => true,
                        _ => false,
                    };
                    if !external {
                        let g = mk_diag(DiagnosticKind::ConflictingDirective, site, &d.name);
                        (c, rule, Option::Some(g))
                    } else {
                        c.tag = TagType::Untagged;
                        (c, rule, Option::None)
                    }
                }
            }
            DirectiveArg::Str(_) => {
                let g = mk_diag(DiagnosticKind::MalformedDirective, site, &d.name);
                (c, rule, Option::Some(g))
            }
        }
    } else if name_eq(&d.name, "expecting") {
        match &d.arg {
            DirectiveArg::Str(v) => {
                if c.expecting.is_some() {
                    let g = mk_diag(DiagnosticKind::ConflictingDirective, site, &d.name);
                    (c, rule, Option::Some(g))
                } else {
                    c.expecting = Option::Some(clone_string(v));
                    (c, rule, Option::None)
                }
            }
            DirectiveArg::Flag => {
                let g = mk_diag(DiagnosticKind::MalformedDirective, site, &d.name);
                (c, rule, Option::Some(g))
            }
        }
    } else if name_eq(&d.name, "non_exhaustive") {
        match &d.arg {
            DirectiveArg::Flag => {
                if c.non_exhaustive {
                    let g = mk_diag(DiagnosticKind::ConflictingDirective, site, &d.name);
                    (c, rule, Option::Some(g))
                } else {
                    c.non_exhaustive = true;
                    (c, rule, Option::None)
                }
            }
            DirectiveArg::Str(_) => {
                let g = mk_diag(DiagnosticKind::MalformedDirective, site, &d.name);
                (c, rule, Option::Some(g))
            }
        }
    } else if name_eq(&d.name, "field_identifier") {
        match &d.arg {
            DirectiveArg::Flag => {
                if !is_enum {
                    let g = mk_diag(DiagnosticKind::MalformedDirective, site, &d.name);
                    (c, rule, Option::Some(g))
                } else {
                    let no = match &c.identifier {
                        Identifier::No => true,
                        _ => false,
                    };
                    if !no {
                        let g = mk_diag(DiagnosticKind::ConflictingDirective, site, &d.name);
                        (c, rule, Option::Some(g))
                    } else {
                        c.identifier = Identifier::Field;
                        (c, rule, Option::None)
                    }
                }
            }
            DirectiveArg::Str(_) => {
                let g = mk_diag(DiagnosticKind::MalformedDirective, site, &d.name);
                (c, rule, Option::Some(g))
            }
        }
    } else if name_eq(&d.name, "variant_identifier") {
        match &d.arg {
            DirectiveArg::Flag => {
                if !is_enum {
                    let g = mk_diag(DiagnosticKind::MalformedDirective, site, &d.name);
                    (c, rule, Option::Some(g))
                } else {
                    let no = match &c.identifier {
                        Identifier::No => true,
                        _ => false,
                    };
                    if !no {
                        let g = mk_diag(DiagnosticKind::ConflictingDirective, site, &d.name);
                        (c, rule, Option::Some(g))
                    } else {
                        c.identifier = Identifier::Variant;
                        (c, rule, Option::None)
                    }
                }
            }
            DirectiveArg::Str(_) => {
                let g = mk_diag(DiagnosticKind::MalformedDirective, site, &d.name);
                (c, rule, Option::Some(g))
            }
        }
    } else {
        let g = mk_diag(DiagnosticKind::UnknownDirective, site, &d.name);
        (c, rule, Option::Some(g))
    }
}

/// Folds every directive of the container into its record and casing rule,
/// collecting each diagnostic in order at the end of `diags`.
pub fn parse_container_dirs(
    init: Container,
    dirs: &Vec<RawDirective>,
    is_enum: bool,
    diags: &mut Vec<Diagnostic>,
) -> (r: (Container, Option<RenameRule>))
    ensures
        r.0@ == spec_container_fold(init@, Option::None, view_seq(dirs@), is_enum).0,
        r.1 == spec_container_fold(init@, Option::None, view_seq(dirs@), is_enum).1,
        view_seq(final(diags)@) == view_seq(old(diags)@) + spec_container_fold(
            init@,
            Option::None,
            view_seq(dirs@),
            is_enum,
        ).2,
{
    let ghost dirsv = view_seq(dirs@);
    let ghost base = view_seq(diags@);
    let ghost full = spec_container_fold(init@, Option::None, dirsv, is_enum);
    let mut cur = init;
    let mut rule: Option<RenameRule> = Option::None;
    let mut i: usize = 0;
    proof {
        lemma_view_seq(dirs@);
        assert(dirsv.subrange(0, dirsv.len() as int) =~= dirsv);
    }
    while i < dirs.len()
        invariant
            i <= dirs.len(),
            dirsv.len() == dirs@.len(),
            dirsv == view_seq(dirs@),
            forall|j: int| 0 <= j < dirs@.len() ==> dirsv[j] == #[trigger] dirs@[j]@,
            full == spec_container_fold(init@, Option::None, dirsv, is_enum),
            base == view_seq(old(diags)@),
            spec_container_fold(
                cur@,
                rule,
                dirsv.subrange(i as int, dirsv.len() as int),
                is_enum,
            ).0 == full.0,
            spec_container_fold(
                cur@,
                rule,
                dirsv.subrange(i as int, dirsv.len() as int),
                is_enum,
            ).1 == full.1,
            base + full.2 == view_seq(diags@) + spec_container_fold(
                cur@,
                rule,
                dirsv.subrange(i as int, dirsv.len() as int),
                is_enum,
            ).2,
        decreases dirs.len() - i,
    {
        let ghost rem = dirsv.subrange(i as int, dirsv.len() as int);
        proof {
            assert(rem[0] == dirsv[i as int]);
            assert(rem.drop_first() =~= dirsv.subrange(i as int + 1, dirsv.len() as int));
        }
        let (next, next_rule, dg) = container_step(cur, rule, &dirs[i], is_enum);
        cur = next;
        rule = next_rule;
        let ghost prev = diags@;
        match dg {
            Option::Some(g) => {
                diags.push(g);
                proof {
                    lemma_view_seq_push(prev, g);
                }
            }
            Option::None => {
            }
        }
        proof {
            assert(base + full.2 =~= view_seq(diags@) + spec_container_fold(
                cur@,
                rule,
                rem.drop_first(),
                is_enum,
            ).2);
        }
        i = i + 1;
    }
    proof {
        assert(dirsv.subrange(dirsv.len() as int, dirsv.len() as int) =~= Seq::<
            SpecRawDirective,
        >::empty());
        assert(base + full.2 =~= view_seq(diags@));
    }
    (cur, rule)
}

/// How a container casing rule lands on a field: a name a `rename`
/// directive set is kept, an unrenamed name is respelled by the rule.
pub open spec fn spec_field_rename_by_rules(f: SpecField, rule: Option<RenameRule>) -> SpecField {
    match rule {
        Option::None => f,
        Option::Some(r) => SpecField {
            name: SpecMultiName {
                serialize: if f.name.serialize_renamed {
                    f.name.serialize
                } else {
                    spec_field_rename(r, f.name.serialize)
                },
                deserialize: if f.name.deserialize_renamed {
                    f.name.deserialize
                } else {
                    spec_field_rename(r, f.name.deserialize)
                },
                ..f.name
            },
            ..f
        },
    }
}

/// How a container casing rule lands on a variant: a name a `rename`
/// directive set is kept, an unrenamed name is respelled by the rule.
pub open spec fn spec_variant_rename_by_rules(v: SpecVariant, rule: Option<RenameRule>) -> SpecVariant {
    match rule {
        Option::None => v,
        Option::Some(r) => SpecVariant {
            name: SpecMultiName {
                serialize: if v.name.serialize_renamed {
                    v.name.serialize
                } else {
                    spec_variant_rename(r, v.name.serialize)
                },
                deserialize: if v.name.deserialize_renamed {
                    v.name.deserialize
                } else {
                    spec_variant_rename(r, v.name.deserialize)
                },
                ..v.name
            },
            ..v
        },
    }
}

impl Field {
    /// Applies the container's casing rule to this field's unrenamed names.
    pub fn rename_by_rules(&mut self, rule: Option<RenameRule>)
        ensures
            final(self)@ == spec_field_rename_by_rules(old(self)@, rule),
    {
        match rule {
            Option::None => {
            }
            Option::Some(r) => {
                if !self.name.serialize_renamed {
                    self.name.serialize = field_rename(r, &self.name.serialize);
                }
                if !self.name.deserialize_renamed {
                    self.name.deserialize = field_rename(r, &self.name.deserialize);
                }
            }
        }
    }
}

impl Variant {
    /// Applies the container's casing rule to this variant's unrenamed
    /// names.
    pub fn rename_by_rules(&mut self, rule: Option<RenameRule>)
        ensures
            final(self)@ == spec_variant_rename_by_rules(old(self)@, rule),
    {
        match rule {
            Option::None => {
            }
            Option::Some(r) => {
                if !self.name.serialize_renamed {
                    self.name.serialize = variant_rename(r, &self.name.serialize);
                }
                if !self.name.deserialize_renamed {
                    self.name.deserialize = variant_rename(r, &self.name.deserialize);
                }
            }
        }
    }
}

/// Whether a field directive is invalid on its own: an unknown name, or a
/// value of the wrong shape. Such a directive fails whatever stands around
/// it.
pub open spec fn spec_field_dir_invalid(d: SpecRawDirective) -> bool {
    if d.name == "rename"@ {
        d.arg is Flag
    } else if d.name == "alias"@ {
        d.arg is Flag
    } else if d.name == "default"@ {
        false
    } else if d.name == "skip"@ {
        d.arg is Str
    } else if d.name == "skip_serializing"@ {
        d.arg is Str
    } else if d.name == "skip_deserializing"@ {
        d.arg is Str
    } else if d.name == "skip_serializing_if"@ {
        d.arg is Flag
    } else if d.name == "serialize_with"@ {
        d.arg is Flag
    } else if d.name == "deserialize_with"@ {
        d.arg is Flag
    } else if d.name == "getter"@ {
        d.arg is Flag
    } else if d.name == "flatten"@ {
        d.arg is Str
    } else {
        true
    }
}

/// Directive batching on one field: when every directive in the list is
/// invalid on its own, the fold reports exactly one diagnostic per
/// directive — none is swallowed by an earlier failure.
pub proof fn lemma_field_batching(f: SpecField, dirs: Seq<SpecRawDirective>, site: Site)
    requires
        forall|i: int| 0 <= i < dirs.len() ==> spec_field_dir_invalid(#[trigger] dirs[i]),
    ensures
        spec_field_fold(f, dirs, site).1.len() == dirs.len(),
    decreases dirs.len(),
{
    if dirs.len() > 0 {
        let (f1, d) = spec_field_step(f, dirs[0], site);
        assert(d is Some);
        lemma_field_batching(f1, dirs.drop_first(), site);
    }
}

/// Whether a variant directive is invalid on its own.
pub open spec fn spec_variant_dir_invalid(d: SpecRawDirective) -> bool {
    if d.name == "rename"@ {
        d.arg is Flag
    } else if d.name == "alias"@ {
        d.arg is Flag
    } else if d.name == "skip"@ {
        d.arg is Str
    } else if d.name == "skip_serializing"@ {
        d.arg is Str
    } else if d.name == "skip_deserializing"@ {
        d.arg is Str
    } else if d.name == "serialize_with"@ {
        d.arg is Flag
    } else if d.name == "deserialize_with"@ {
        d.arg is Flag
    } else if d.name == "other"@ {
        d.arg is Str
    } else if d.name == "untagged"@ {
        d.arg is Str
    } else {
        true
    }
}

/// Directive batching on one variant.
pub proof fn lemma_variant_batching(v: SpecVariant, dirs: Seq<SpecRawDirective>, site: Site)
    requires
        forall|i: int| 0 <= i < dirs.len() ==> spec_variant_dir_invalid(#[trigger] dirs[i]),
    ensures
        spec_variant_fold(v, dirs, site).1.len() == dirs.len(),
    decreases dirs.len(),
{
    if dirs.len() > 0 {
        let (v1, d) = spec_variant_step(v, dirs[0], site);
        assert(d is Some);
        lemma_variant_batching(v1, dirs.drop_first(), site);
    }
}

/// Whether a container directive is invalid on its own, for a container of
/// the given kind: unsupported outright, unknown, of the wrong shape, or a
/// tagging directive on a type that is not a variant type.
pub open spec fn spec_container_dir_invalid(d: SpecRawDirective, is_enum: bool) -> bool {
    if d.name == "from"@ || d.name == "try_from"@ || d.name == "into"@ || d.name == "remote"@ {
        true
    } else if d.name == "rename"@ {
        d.arg is Flag
    } else if d.name == "rename_all"@ {
        d.arg is Flag
    } else if d.name == "default"@ {
        false
    } else if d.name == "transparent"@ {
        d.arg is Str
    } else if d.name == "deny_unknown_fields"@ {
        d.arg is Str
    } else if d.name == "tag"@ {
        d.arg is Flag || !is_enum
    } else if d.name == "content"@ {
        d.arg is Flag || !is_enum
    } else if d.name == "untagged"@ {
        d.arg is Str || !is_enum
    } else if d.name == "expecting"@ {
        d.arg is Flag
    } else if d.name == "non_exhaustive"@ {
        d.arg is Str
    } else if d.name == "field_identifier"@ {
        d.arg is Str || !is_enum
    } else if d.name == "variant_identifier"@ {
        d.arg is Str || !is_enum
    } else {
        true
    }
}

/// Directive batching on the container.
pub proof fn lemma_container_batching(
    c: SpecContainer,
    rule: Option<RenameRule>,
    dirs: Seq<SpecRawDirective>,
    is_enum: bool,
)
    requires
        forall|i: int|
            0 <= i < dirs.len() ==> spec_container_dir_invalid(#[trigger] dirs[i], is_enum),
    ensures
        spec_container_fold(c, rule, dirs, is_enum).2.len() == dirs.len(),
    decreases dirs.len(),
{
    if dirs.len() > 0 {
        let (c1, r1, d) = spec_container_step(c, rule, dirs[0], is_enum);
        assert(d is Some);
        lemma_container_batching(c1, r1, dirs.drop_first(), is_enum);
    }
}

/// Tagging consistency, one step: on a record, no directive moves the
/// tagging style or the identifier role — the directives that could are
/// rejected there.
pub proof fn lemma_container_step_record(
    c: SpecContainer,
    rule: Option<RenameRule>,
    d: SpecRawDirective,
)
    ensures
        spec_container_step(c, rule, d, false).0.tag == c.tag,
        spec_container_step(c, rule, d, false).0.identifier == c.identifier,
{
}

/// Tagging consistency: a record's container keeps external tagging and no
/// identifier role, whatever directives are declared on it. Internal,
/// adjacent and untagged styles exist only on variant types, and a single
/// tagging style holds at a time: the style is one value.
pub proof fn lemma_container_record_tagging(
    c: SpecContainer,
    rule: Option<RenameRule>,
    dirs: Seq<SpecRawDirective>,
)
    ensures
        spec_container_fold(c, rule, dirs, false).0.tag == c.tag,
        spec_container_fold(c, rule, dirs, false).0.identifier == c.identifier,
    decreases dirs.len(),
{
    if dirs.len() > 0 {
        let (c1, r1, d) = spec_container_step(c, rule, dirs[0], false);
        lemma_container_step_record(c, rule, dirs[0]);
        lemma_container_record_tagging(c1, r1, dirs.drop_first());
    }
}

/// A per-item rename wins over the container rule: on a renamed name the
/// rule changes nothing, whichever rule it is.
pub proof fn lemma_rename_override_wins(f: SpecField, v: SpecVariant, rule: Option<RenameRule>)
    ensures
        f.name.serialize_renamed ==> spec_field_rename_by_rules(f, rule).name.serialize
            == f.name.serialize,
        f.name.deserialize_renamed ==> spec_field_rename_by_rules(f, rule).name.deserialize
            == f.name.deserialize,
        v.name.serialize_renamed ==> spec_variant_rename_by_rules(v, rule).name.serialize
            == v.name.serialize,
        v.name.deserialize_renamed ==> spec_variant_rename_by_rules(v, rule).name.deserialize
            == v.name.deserialize,
{
}

/// How a container default lands on a field: a field with no default of its
/// own takes the standard default when the container declares one.
pub open spec fn spec_field_inherit_default(f: SpecField, cd: SpecDefault) -> SpecField {
    if f.default is Absent && !(cd is Absent) {
        SpecField { default: SpecDefault::Default, ..f }
    } else {
        f
    }
}

impl Field {
    /// Lets this field inherit the container's default policy.
    pub fn inherit_default(&mut self, cd: &crate::meta::Default)
        ensures
            final(self)@ == spec_field_inherit_default(old(self)@, cd@),
    {
        let absent_own = match &self.default {
            crate::meta::Default::Absent => true,
            _ => false,
        };
        let absent_cd = match cd {
            crate::meta::Default::Absent => true,
            _ => false,
        };
        if absent_own && !absent_cd {
            self.default = crate::meta::Default::Default;
        }
    }
}

} // verus!
