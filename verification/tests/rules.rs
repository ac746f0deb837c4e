// Casing rules and directive validation: exact respellings, one
// diagnostic per failing directive, and each failure kind on an input that
// produces it.

use serde_generic::case::RenameRule;
use serde_generic::case::field_rename;
use serde_generic::case::parse_rename_rule;
use serde_generic::case::variant_rename;
use serde_generic::contract::derive_serde_generic;
use serde_generic::descriptor::DataDecl;
use serde_generic::descriptor::Descriptor;
use serde_generic::descriptor::FieldDecl;
use serde_generic::descriptor::FieldsDecl;
use serde_generic::directive::DiagnosticKind;
use serde_generic::directive::DirectiveArg;
use serde_generic::directive::RawDirective;
use serde_generic::directive::Site;

fn s(x: &str) -> String {
    x.to_string()
}

fn plain(name: &str) -> serde_generic::ty::TypeExpr {
    serde_generic::ty::TypeExpr::Apply { name: s(name), args: vec![] }
}

fn flag(name: &str) -> RawDirective {
    RawDirective { name: s(name), arg: DirectiveArg::Flag }
}

fn with_str(name: &str, value: &str) -> RawDirective {
    RawDirective { name: s(name), arg: DirectiveArg::Str(s(value)) }
}

fn one_field_struct(field_dirs: Vec<RawDirective>, container_dirs: Vec<RawDirective>) -> Descriptor {
    Descriptor {
        name: s("Rec"),
        params: vec![],
        is_packed: false,
        dirs: container_dirs,
        data: DataDecl::Struct(FieldsDecl::Named(vec![FieldDecl {
            name: s("max_speed"),
            ty: plain("u8"),
            dirs: field_dirs,
        }])),
    }
}

#[test]
fn field_rules_respell_snake_case_names() {
    let name = s("max_speed");
    assert_eq!(field_rename(RenameRule::LowerCase, &name), "max_speed");
    assert_eq!(field_rename(RenameRule::SnakeCase, &name), "max_speed");
    assert_eq!(field_rename(RenameRule::UpperCase, &name), "MAX_SPEED");
    assert_eq!(field_rename(RenameRule::ScreamingSnakeCase, &name), "MAX_SPEED");
    assert_eq!(field_rename(RenameRule::PascalCase, &name), "MaxSpeed");
    assert_eq!(field_rename(RenameRule::CamelCase, &name), "maxSpeed");
    assert_eq!(field_rename(RenameRule::KebabCase, &name), "max-speed");
    assert_eq!(field_rename(RenameRule::ScreamingKebabCase, &name), "MAX-SPEED");
}

#[test]
fn variant_rules_respell_pascal_case_names() {
    let name = s("MaxSpeed");
    assert_eq!(variant_rename(RenameRule::PascalCase, &name), "MaxSpeed");
    assert_eq!(variant_rename(RenameRule::LowerCase, &name), "maxspeed");
    assert_eq!(variant_rename(RenameRule::UpperCase, &name), "MAXSPEED");
    assert_eq!(variant_rename(RenameRule::CamelCase, &name), "maxSpeed");
    assert_eq!(variant_rename(RenameRule::SnakeCase, &name), "max_speed");
    assert_eq!(variant_rename(RenameRule::ScreamingSnakeCase, &name), "MAX_SPEED");
    assert_eq!(variant_rename(RenameRule::KebabCase, &name), "max-speed");
    assert_eq!(variant_rename(RenameRule::ScreamingKebabCase, &name), "MAX-SPEED");
}

#[test]
fn names_outside_ascii_pass_through_unchanged() {
    let name = s("gr\u{f6}sse_feld");
    assert_eq!(field_rename(RenameRule::UpperCase, &name), "gr\u{f6}sse_feld");
    assert_eq!(variant_rename(RenameRule::SnakeCase, &name), "gr\u{f6}sse_feld");
}

#[test]
fn rule_names_parse_and_others_do_not() {
    assert_eq!(parse_rename_rule(&s("camelCase")), Some(RenameRule::CamelCase));
    assert_eq!(parse_rename_rule(&s("SCREAMING-KEBAB-CASE")), Some(RenameRule::ScreamingKebabCase));
    assert_eq!(parse_rename_rule(&s("camelcase")), None);
}

#[test]
fn three_invalid_directives_give_three_diagnostics() {
    let d = one_field_struct(
        vec![
            flag("zzz"),
            with_str("flatten", "x"),
            flag("rename"),
        ],
        vec![],
    );
    let errs = derive_serde_generic(&d).unwrap_err();
    assert_eq!(errs.len(), 3);
    assert_eq!(errs[0].kind, DiagnosticKind::UnknownDirective);
    assert_eq!(errs[0].directive, "zzz");
    assert_eq!(errs[1].kind, DiagnosticKind::MalformedDirective);
    assert_eq!(errs[2].kind, DiagnosticKind::MalformedDirective);
    for e in &errs {
        assert_eq!(e.site, Site::Field(0));
    }
}

#[test]
fn skip_serializing_conflicts_with_a_serialize_hook() {
    let d = one_field_struct(vec![flag("skip_serializing"), with_str("serialize_with", "ser")], vec![]);
    let errs = derive_serde_generic(&d).unwrap_err();
    assert_eq!(errs.len(), 1);
    assert_eq!(errs[0].kind, DiagnosticKind::ConflictingDirective);
    assert_eq!(errs[0].directive, "serialize_with");
    assert_eq!(errs[0].site, Site::Field(0));

    // The failure is local to that type: an untouched type still derives.
    let ok = one_field_struct(vec![], vec![]);
    assert!(derive_serde_generic(&ok).is_ok());
}

#[test]
fn unsupported_container_directives_are_rejected() {
    let d = one_field_struct(vec![], vec![with_str("remote", "other::Type")]);
    let errs = derive_serde_generic(&d).unwrap_err();
    assert_eq!(errs.len(), 1);
    assert_eq!(errs[0].kind, DiagnosticKind::UnsupportedContainerDirective);
    assert_eq!(errs[0].site, Site::Container);
}

#[test]
fn unions_are_rejected() {
    let d = Descriptor {
        name: s("U"),
        params: vec![],
        is_packed: false,
        dirs: vec![],
        data: DataDecl::Union,
    };
    let errs = derive_serde_generic(&d).unwrap_err();
    assert_eq!(errs.len(), 1);
    assert_eq!(errs[0].kind, DiagnosticKind::UnsupportedDataKind);
}

#[test]
fn tagging_directives_apply_to_variant_types_only() {
    let d = one_field_struct(vec![], vec![with_str("tag", "kind")]);
    let errs = derive_serde_generic(&d).unwrap_err();
    assert_eq!(errs.len(), 1);
    assert_eq!(errs[0].kind, DiagnosticKind::MalformedDirective);
    assert_eq!(errs[0].directive, "tag");
}

#[test]
fn duplicate_renames_conflict() {
    let d = one_field_struct(vec![with_str("rename", "a"), with_str("rename", "b")], vec![]);
    let errs = derive_serde_generic(&d).unwrap_err();
    assert_eq!(errs.len(), 1);
    assert_eq!(errs[0].kind, DiagnosticKind::ConflictingDirective);
}

#[test]
fn metadata_reflects_the_directives() {
    let d = one_field_struct(
        vec![
            with_str("rename", "velocity"),
            with_str("alias", "speed"),
            with_str("default", "zero"),
        ],
        vec![flag("deny_unknown_fields")],
    );
    let c = derive_serde_generic(&d).unwrap();
    assert!(c.container.deny_unknown_fields);
    let f = &c.field_meta(0).unwrap().attrs;
    assert_eq!(f.name.serialize, "velocity");
    assert_eq!(f.name.deserialize, "velocity");
    assert!(f.name.serialize_renamed);
    assert_eq!(f.name.deserialize_aliases, vec![s("speed")]);
    assert!(matches!(&f.default, serde_generic::meta::Default::Path(p) if p == "zero"));
}

#[test]
fn per_field_rename_wins_over_the_container_rule() {
    let d = one_field_struct(
        vec![with_str("rename", "kept_as_is")],
        vec![with_str("rename_all", "UPPERCASE")],
    );
    let c = derive_serde_generic(&d).unwrap();
    assert_eq!(c.field_meta(0).unwrap().attrs.name.serialize, "kept_as_is");
}

#[test]
fn adjacent_tagging_needs_tag_then_content() {
    let mk = |dirs: Vec<RawDirective>| Descriptor {
        name: s("E"),
        params: vec![],
        is_packed: false,
        dirs,
        data: DataDecl::Enum(vec![]),
    };
    let c = derive_serde_generic(&mk(vec![with_str("tag", "t"), with_str("content", "c")])).unwrap();
    assert_eq!(
        c.container.tag,
        serde_generic::meta::TagType::Adjacent { tag: s("t"), content: s("c") }
    );
    let c = derive_serde_generic(&mk(vec![with_str("tag", "t")])).unwrap();
    assert_eq!(c.container.tag, serde_generic::meta::TagType::Internal { tag: s("t") });
    let c = derive_serde_generic(&mk(vec![flag("untagged")])).unwrap();
    assert_eq!(c.container.tag, serde_generic::meta::TagType::Untagged);
    let errs = derive_serde_generic(&mk(vec![with_str("content", "c")])).unwrap_err();
    assert_eq!(errs[0].kind, DiagnosticKind::ConflictingDirective);
}
