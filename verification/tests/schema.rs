// A small schema generator built on the generated contract, used to check
// that the contract carries everything a downstream consumer needs: names,
// parameter lists, field metadata and the mocked form.

use std::collections::HashMap;
use std::collections::HashSet;

use serde_generic::contract::Contract;
use serde_generic::contract::derive_serde_generic;
use serde_generic::descriptor::DataDecl;
use serde_generic::descriptor::Descriptor;
use serde_generic::descriptor::FieldDecl;
use serde_generic::descriptor::FieldsDecl;
use serde_generic::directive::DirectiveArg;
use serde_generic::directive::RawDirective;
use serde_generic::ty::TypeExpr;

fn s(x: &str) -> String {
    x.to_string()
}

fn apply(name: &str, args: Vec<TypeExpr>) -> TypeExpr {
    TypeExpr::Apply { name: s(name), args }
}

fn plain(name: &str) -> TypeExpr {
    apply(name, vec![])
}

fn dir_str(name: &str, value: &str) -> RawDirective {
    RawDirective { name: s(name), arg: DirectiveArg::Str(s(value)) }
}

fn named_field(name: &str, ty: TypeExpr, dirs: Vec<RawDirective>) -> FieldDecl {
    FieldDecl { name: s(name), ty, dirs }
}

fn descriptor(name: &str, params: Vec<&str>, fields: Vec<FieldDecl>) -> Descriptor {
    Descriptor {
        name: s(name),
        params: params.into_iter().map(s).collect(),
        is_packed: false,
        dirs: vec![],
        data: DataDecl::Struct(FieldsDecl::Named(fields)),
    }
}

fn registry() -> HashMap<String, Contract> {
    let foo = descriptor(
        "Foo",
        vec!["X", "Y"],
        vec![
            named_field(
                "foo",
                plain("String"),
                vec![
                    dir_str("skip_serializing_if", "String::is_empty"),
                    dir_str("default", "String::new"),
                ],
            ),
            named_field("boo", plain("u8"), vec![]),
            named_field("xoo", TypeExpr::Param(0), vec![]),
            named_field("coo", apply("Coo", vec![TypeExpr::Param(1)]), vec![]),
        ],
    );
    let joo = descriptor("Joo", vec!["X"], vec![named_field("joo", TypeExpr::Param(0), vec![])]);
    let coo = descriptor("Coo", vec!["X"], vec![named_field("coo", TypeExpr::Param(0), vec![])]);

    let mut reg = HashMap::new();
    for d in [foo, joo, coo] {
        let name = d.name.clone();
        let contract = derive_serde_generic(&d).expect("descriptor should validate");
        reg.insert(name, contract);
    }
    reg
}

// The schema name of one type: base types have fixed names, a registered
// type renders as its serialize name applied to its arguments, and a
// placeholder renders as its position.
fn schema(ty: &TypeExpr, reg: &HashMap<String, Contract>) -> String {
    match ty {
        TypeExpr::Param(i) => format!("X{i}"),
        TypeExpr::Placeholder(i) => format!("X{i}"),
        TypeExpr::Apply { name, args } => {
            if name == "u8" {
                s("byte")
            } else if name == "String" {
                s("str")
            } else {
                let contract = reg.get(name).expect("type not registered");
                let rendered: Vec<String> = args.iter().map(|a| schema(a, reg)).collect();
                format!("{}<{}>", contract.container.name.serialize, rendered.join(","))
            }
        }
    }
}

// The definition of one registered type, over its mocked parameters.
fn def_of(contract: &Contract, reg: &HashMap<String, Contract>) -> String {
    let params: Vec<String> = (0..contract.params.len()).map(|i| format!("X{i}")).collect();
    let body: Vec<String> = contract
        .fields
        .iter()
        .map(|f| format!("{}:{}", f.attrs.name.serialize, schema(&f.ty, reg)))
        .collect();
    format!(
        "{}<{}>={{{}}}",
        contract.container.name.serialize,
        params.join(","),
        body.join(",")
    )
}

// Collects the definitions a type's schema depends on: its own, those of
// the registered types among its field types, and those of its arguments.
fn defs(ty: &TypeExpr, reg: &HashMap<String, Contract>, out: &mut HashSet<String>) {
    if let TypeExpr::Apply { name, args } = ty {
        if let Some(contract) = reg.get(name) {
            out.insert(def_of(contract, reg));
            for f in &contract.fields {
                defs(&f.ty, reg, out);
            }
            for a in args {
                defs(a, reg, out);
            }
        }
    }
}

#[test]
fn test_schema_gen() {
    let reg = registry();
    let subject = apply("Foo", vec![plain("u8"), apply("Joo", vec![plain("String")])]);
    assert_eq!(schema(&subject, &reg), "Foo<byte,Joo<str>>");
    let mut collected = HashSet::new();
    defs(&subject, &reg, &mut collected);
    assert_eq!(
        collected,
        [
            "Foo<X0,X1>={foo:str,boo:byte,xoo:X0,coo:Coo<X1>}",
            "Joo<X0>={joo:X0}",
            "Coo<X0>={coo:X0}",
        ]
        .into_iter()
        .map(String::from)
        .collect::<HashSet<_>>()
    );
}
