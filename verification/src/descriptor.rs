//! Descriptors: the declared layout of one composite type as it reaches
//! this layer, before any validation. A descriptor lists the generic
//! parameters, the directives on the container, and the ordered fields or
//! variants with their types and directives. Field and variant order is the
//! declared source order and is kept everywhere downstream.

use vstd::prelude::*;

use crate::directive::RawDirective;
use crate::directive::SpecRawDirective;
use crate::ty::SpecTypeExpr;
use crate::ty::TypeExpr;
use crate::ty::view_seq;

verus! {

/// One declared field: its name, its type and its directives. A positional
/// field's name is its decimal position, as serialization writes it.
#[derive(Debug)]
pub struct FieldDecl {
    pub name: String,
    pub ty: TypeExpr,
    pub dirs: Vec<RawDirective>,
}

pub struct SpecFieldDecl {
    pub name: Seq<char>,
    pub ty: SpecTypeExpr,
    pub dirs: Seq<SpecRawDirective>,
}

impl View for FieldDecl {
    type V = SpecFieldDecl;

    open spec fn view(&self) -> SpecFieldDecl {
        SpecFieldDecl { name: self.name@, ty: self.ty@, dirs: view_seq(self.dirs@) }
    }
}

/// The declared field list of a record or of one variant's body.
#[derive(Debug)]
pub enum FieldsDecl {
    /// Fields with names.
    Named(Vec<FieldDecl>),
    /// Fields by position.
    Positional(Vec<FieldDecl>),
    /// No fields.
    Unit,
}

pub enum SpecFieldsDecl {
    Named(Seq<SpecFieldDecl>),
    Positional(Seq<SpecFieldDecl>),
    Unit,
}

impl View for FieldsDecl {
    type V = SpecFieldsDecl;

    open spec fn view(&self) -> SpecFieldsDecl {
        match self {
            FieldsDecl::Named(fs) => SpecFieldsDecl::Named(view_seq(fs@)),
            FieldsDecl::Positional(fs) => SpecFieldsDecl::Positional(view_seq(fs@)),
            FieldsDecl::Unit => SpecFieldsDecl::Unit,
        }
    }
}

/// The declared fields of one list, in order.
pub open spec fn spec_fields_list(fs: SpecFieldsDecl) -> Seq<SpecFieldDecl> {
    match fs {
        SpecFieldsDecl::Named(l) => l,
        SpecFieldsDecl::Positional(l) => l,
        SpecFieldsDecl::Unit => Seq::empty(),
    }
}

/// One declared variant: its name, its body and its directives.
#[derive(Debug)]
pub struct VariantDecl {
    pub name: String,
    pub fields: FieldsDecl,
    pub dirs: Vec<RawDirective>,
}

pub struct SpecVariantDecl {
    pub name: Seq<char>,
    pub fields: SpecFieldsDecl,
    pub dirs: Seq<SpecRawDirective>,
}

impl View for VariantDecl {
    type V = SpecVariantDecl;

    open spec fn view(&self) -> SpecVariantDecl {
        SpecVariantDecl { name: self.name@, fields: self.fields@, dirs: view_seq(self.dirs@) }
    }
}

/// What kind of composite the declaration is.
#[derive(Debug)]
pub enum DataDecl {
    /// A record: one field list.
    Struct(FieldsDecl),
    /// A variant type: an ordered variant list.
    Enum(Vec<VariantDecl>),
    /// A union-shaped declaration; categorically rejected.
    Union,
}

pub enum SpecDataDecl {
    Struct(SpecFieldsDecl),
    Enum(Seq<SpecVariantDecl>),
    Union,
}

impl View for DataDecl {
    type V = SpecDataDecl;

    open spec fn view(&self) -> SpecDataDecl {
        match self {
            DataDecl::Struct(fs) => SpecDataDecl::Struct(fs@),
            DataDecl::Enum(vs) => SpecDataDecl::Enum(view_seq(vs@)),
            DataDecl::Union => SpecDataDecl::Union,
        }
    }
}

/// The declared shape of one composite type.
#[derive(Debug)]
pub struct Descriptor {
    pub name: String,
    /// The generic parameter names, in declared order.
    pub params: Vec<String>,
    /// Whether the type's layout is packed.
    pub is_packed: bool,
    /// The directives on the container itself.
    pub dirs: Vec<RawDirective>,
    pub data: DataDecl,
}

pub struct SpecDescriptor {
    pub name: Seq<char>,
    pub params: Seq<Seq<char>>,
    pub is_packed: bool,
    pub dirs: Seq<SpecRawDirective>,
    pub data: SpecDataDecl,
}

impl View for Descriptor {
    type V = SpecDescriptor;

    open spec fn view(&self) -> SpecDescriptor {
        SpecDescriptor {
            name: self.name@,
            params: self.params.deep_view(),
            is_packed: self.is_packed,
            dirs: view_seq(self.dirs@),
            data: self.data@,
        }
    }
}

} // verus!
