//! The directive language as it reaches the parser: each directive is a
//! name with either no value or one string value, attached to the container,
//! a field or a variant. Validation failures are collected as diagnostics,
//! each naming its kind, the item it sits on and the directive that caused
//! it.

use vstd::prelude::*;

verus! {

/// The value a directive carries.
#[derive(Debug, PartialEq, Eq)]
pub enum DirectiveArg {
    /// The directive stands alone.
    Flag,
    /// The directive is given one string value.
    Str(String),
}

pub enum SpecDirectiveArg {
    Flag,
    Str(Seq<char>),
}

impl View for DirectiveArg {
    type V = SpecDirectiveArg;

    open spec fn view(&self) -> SpecDirectiveArg {
        match self {
            DirectiveArg::Flag => SpecDirectiveArg::Flag,
            DirectiveArg::Str(s) => SpecDirectiveArg::Str(s@),
        }
    }
}

/// One directive as declared: its name and its value.
#[derive(Debug, PartialEq, Eq)]
pub struct RawDirective {
    pub name: String,
    pub arg: DirectiveArg,
}

pub struct SpecRawDirective {
    pub name: Seq<char>,
    pub arg: SpecDirectiveArg,
}

impl View for RawDirective {
    type V = SpecRawDirective;

    open spec fn view(&self) -> SpecRawDirective {
        SpecRawDirective { name: self.name@, arg: self.arg@ }
    }
}

/// Why a directive set was rejected.
#[derive(Debug, Clone, Copy, PartialEq, Eq, Structural)]
pub enum DiagnosticKind {
    /// A container directive this layer refuses outright: a type-source,
    /// type-target, fallible-conversion or remote-type redirection.
    UnsupportedContainerDirective,
    /// The type is neither a record nor a variant type.
    UnsupportedDataKind,
    /// The directive's value has the wrong shape for its name, or the
    /// directive does not apply to this kind of item.
    MalformedDirective,
    /// The directive contradicts another directive on the same item, or
    /// repeats one.
    ConflictingDirective,
    /// The directive's name is not recognized at this position.
    UnknownDirective,
}

/// The item a diagnostic points at.
#[derive(Debug, Clone, Copy, PartialEq, Eq, Structural)]
pub enum Site {
    /// The container itself.
    Container,
    /// The field at the given declared position.
    Field(usize),
    /// The variant at the given declared position.
    Variant(usize),
    /// The field at the second position inside the variant at the first.
    VariantField(usize, usize),
}

/// One validation failure: what went wrong, where, and on which directive.
#[derive(Debug, PartialEq, Eq)]
pub struct Diagnostic {
    pub kind: DiagnosticKind,
    pub site: Site,
    pub directive: String,
}

pub struct SpecDiagnostic {
    pub kind: DiagnosticKind,
    pub site: Site,
    pub directive: Seq<char>,
}

impl View for Diagnostic {
    type V = SpecDiagnostic;

    open spec fn view(&self) -> SpecDiagnostic {
        SpecDiagnostic { kind: self.kind, site: self.site, directive: self.directive@ }
    }
}

} // verus!
