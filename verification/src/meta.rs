//! Typed metadata records for serialization directives: the per-container,
//! per-field and per-variant information that the attribute parser produces
//! and the generated contract exposes.

use vstd::prelude::*;

verus! {

/// A serialization name.
pub type Name = String;

/// The serialize and deserialize names of one item, with flags recording
/// whether each was overridden by a directive, and extra accepted
/// deserialize names.
#[derive(Debug)]
pub struct MultiName {
    pub serialize: Name,
    pub serialize_renamed: bool,
    pub deserialize: Name,
    pub deserialize_renamed: bool,
    pub deserialize_aliases: Vec<Name>,
}

pub struct SpecMultiName {
    pub serialize: Seq<char>,
    pub serialize_renamed: bool,
    pub deserialize: Seq<char>,
    pub deserialize_renamed: bool,
    pub deserialize_aliases: Seq<Seq<char>>,
}

impl View for MultiName {
    type V = SpecMultiName;

    open spec fn view(&self) -> SpecMultiName {
        SpecMultiName {
            serialize: self.serialize@,
            serialize_renamed: self.serialize_renamed,
            deserialize: self.deserialize@,
            deserialize_renamed: self.deserialize_renamed,
            deserialize_aliases: self.deserialize_aliases.deep_view(),
        }
    }
}

/// A fresh name record for an item declared under `name`: both directions
/// use the declared name, nothing is renamed and no alias is recorded.
pub open spec fn spec_multi_name_init(name: Seq<char>) -> SpecMultiName {
    SpecMultiName {
        serialize: name,
        serialize_renamed: false,
        deserialize: name,
        deserialize_renamed: false,
        deserialize_aliases: Seq::empty(),
    }
}

impl MultiName {
    /// The name record every item starts from: its declared name, unrenamed.
    pub fn init(name: &String) -> (r: MultiName)
        ensures
            r@ == spec_multi_name_init(name@),
    {
        let r = MultiName {
            serialize: name.clone(),
            serialize_renamed: false,
            deserialize: name.clone(),
            deserialize_renamed: false,
            deserialize_aliases: Vec::new(),
        };
        proof {
            assert(r@.deserialize_aliases =~= Seq::<Seq<char>>::empty());
        }
        r
    }
}

/// How a missing value for an item is filled in.
#[derive(Debug)]
pub enum Default {
    /// The item has no default and must always be given.
    Absent,
    /// The default comes from the standard default value of the type.
    Default,
    /// The default comes from the named function.
    Path(Name),
}

pub enum SpecDefault {
    Absent,
    Default,
    Path(Seq<char>),
}

impl View for Default {
    type V = SpecDefault;

    open spec fn view(&self) -> SpecDefault {
        match self {
            Default::Absent => SpecDefault::Absent,
            Default::Default => SpecDefault::Default,
            Default::Path(p) => SpecDefault::Path(p@),
        }
    }
}

/// How a variant's identity is written next to its data.
#[derive(Debug, Clone, PartialEq)]
pub enum TagType {
    /// The default style: the variant name wraps the content.
    External,
    /// The variant name is stored in the named tag field, inline with the
    /// content.
    Internal { tag: Name },
    /// The variant name and the content are stored in two named fields.
    Adjacent { tag: Name, content: Name },
    /// No tag at all.
    Untagged,
}

pub enum SpecTagType {
    External,
    Internal { tag: Seq<char> },
    Adjacent { tag: Seq<char>, content: Seq<char> },
    Untagged,
}

impl View for TagType {
    type V = SpecTagType;

    open spec fn view(&self) -> SpecTagType {
        match self {
            TagType::External => SpecTagType::External,
            TagType::Internal { tag } => SpecTagType::Internal { tag: tag@ },
            TagType::Adjacent { tag, content } => SpecTagType::Adjacent {
                tag: tag@,
                content: content@,
            },
            TagType::Untagged => SpecTagType::Untagged,
        }
    }
}

/// Whether a variant type stands for the field names or the variant names of
/// another type.
#[derive(Debug, Clone, Copy, PartialEq, Eq, Structural)]
pub enum Identifier {
    /// It does not.
    No,
    /// Its variants name the fields of another type.
    Field,
    /// Its variants name the variants of another type.
    Variant,
}

/// Serialization directives for one field.
#[derive(Debug)]
pub struct Field {
    pub name: MultiName,
    pub skip_serializing: bool,
    pub skip_deserializing: bool,
    pub skip_serializing_if: Option<Name>,
    pub default: Default,
    pub serialize_with: Option<Name>,
    pub deserialize_with: Option<Name>,
    pub getter: Option<Name>,
    pub flatten: bool,
    pub transparent: bool,
}

pub struct SpecField {
    pub name: SpecMultiName,
    pub skip_serializing: bool,
    pub skip_deserializing: bool,
    pub skip_serializing_if: Option<Seq<char>>,
    pub default: SpecDefault,
    pub serialize_with: Option<Seq<char>>,
    pub deserialize_with: Option<Seq<char>>,
    pub getter: Option<Seq<char>>,
    pub flatten: bool,
    pub transparent: bool,
}

impl View for Field {
    type V = SpecField;

    open spec fn view(&self) -> SpecField {
        SpecField {
            name: self.name@,
            skip_serializing: self.skip_serializing,
            skip_deserializing: self.skip_deserializing,
            skip_serializing_if: self.skip_serializing_if.deep_view(),
            default: self.default@,
            serialize_with: self.serialize_with.deep_view(),
            deserialize_with: self.deserialize_with.deep_view(),
            getter: self.getter.deep_view(),
            flatten: self.flatten,
            transparent: self.transparent,
        }
    }
}

/// The field record every field starts from: the declared name and no
/// directive applied.
pub open spec fn spec_field_init(name: Seq<char>) -> SpecField {
    SpecField {
        name: spec_multi_name_init(name),
        skip_serializing: false,
        skip_deserializing: false,
        skip_serializing_if: Option::None,
        default: SpecDefault::Absent,
        serialize_with: Option::None,
        deserialize_with: Option::None,
        getter: Option::None,
        flatten: false,
        transparent: false,
    }
}

impl Field {
    pub fn init(name: &String) -> (r: Field)
        ensures
            r@ == spec_field_init(name@),
    {
        Field {
            name: MultiName::init(name),
            skip_serializing: false,
            skip_deserializing: false,
            skip_serializing_if: Option::None,
            default: Default::Absent,
            serialize_with: Option::None,
            deserialize_with: Option::None,
            getter: Option::None,
            flatten: false,
            transparent: false,
        }
    }
}

/// Serialization directives for one variant.
#[derive(Debug)]
pub struct Variant {
    pub name: MultiName,
    pub skip_deserializing: bool,
    pub skip_serializing: bool,
    pub other: bool,
    pub serialize_with: Option<Name>,
    pub deserialize_with: Option<Name>,
    pub untagged: bool,
}

pub struct SpecVariant {
    pub name: SpecMultiName,
    pub skip_deserializing: bool,
    pub skip_serializing: bool,
    pub other: bool,
    pub serialize_with: Option<Seq<char>>,
    pub deserialize_with: Option<Seq<char>>,
    pub untagged: bool,
}

impl View for Variant {
    type V = SpecVariant;

    open spec fn view(&self) -> SpecVariant {
        SpecVariant {
            name: self.name@,
            skip_deserializing: self.skip_deserializing,
            skip_serializing: self.skip_serializing,
            other: self.other,
            serialize_with: self.serialize_with.deep_view(),
            deserialize_with: self.deserialize_with.deep_view(),
            untagged: self.untagged,
        }
    }
}

/// The variant record every variant starts from: the declared name and no
/// directive applied.
pub open spec fn spec_variant_init(name: Seq<char>) -> SpecVariant {
    SpecVariant {
        name: spec_multi_name_init(name),
        skip_deserializing: false,
        skip_serializing: false,
        other: false,
        serialize_with: Option::None,
        deserialize_with: Option::None,
        untagged: false,
    }
}

impl Variant {
    pub fn init(name: &String) -> (r: Variant)
        ensures
            r@ == spec_variant_init(name@),
    {
        Variant {
            name: MultiName::init(name),
            skip_deserializing: false,
            skip_serializing: false,
            other: false,
            serialize_with: Option::None,
            deserialize_with: Option::None,
            untagged: false,
        }
    }
}

/// Serialization directives for a whole type.
#[derive(Debug)]
pub struct Container {
    pub name: MultiName,
    pub transparent: bool,
    pub deny_unknown_fields: bool,
    pub default: Default,
    pub tag: TagType,
    pub identifier: Identifier,
    pub is_packed: bool,
    /// Diagnostic text offered when a value of the type cannot be read back.
    pub expecting: Option<Name>,
    pub non_exhaustive: bool,
}

pub struct SpecContainer {
    pub name: SpecMultiName,
    pub transparent: bool,
    pub deny_unknown_fields: bool,
    pub default: SpecDefault,
    pub tag: SpecTagType,
    pub identifier: Identifier,
    pub is_packed: bool,
    pub expecting: Option<Seq<char>>,
    pub non_exhaustive: bool,
}

impl View for Container {
    type V = SpecContainer;

    open spec fn view(&self) -> SpecContainer {
        SpecContainer {
            name: self.name@,
            transparent: self.transparent,
            deny_unknown_fields: self.deny_unknown_fields,
            default: self.default@,
            tag: self.tag@,
            identifier: self.identifier,
            is_packed: self.is_packed,
            expecting: self.expecting.deep_view(),
            non_exhaustive: self.non_exhaustive,
        }
    }
}

/// The container record every type starts from: the declared name, external
/// tagging, no identifier role and no flag set.
pub open spec fn spec_container_init(name: Seq<char>, is_packed: bool) -> SpecContainer {
    SpecContainer {
        name: spec_multi_name_init(name),
        transparent: false,
        deny_unknown_fields: false,
        default: SpecDefault::Absent,
        tag: SpecTagType::External,
        identifier: Identifier::No,
        is_packed: is_packed,
        expecting: Option::None,
        non_exhaustive: false,
    }
}

impl Container {
    pub fn init(name: &String, is_packed: bool) -> (r: Container)
        ensures
            r@ == spec_container_init(name@, is_packed),
    {
        Container {
            name: MultiName::init(name),
            transparent: false,
            deny_unknown_fields: false,
            default: Default::Absent,
            tag: TagType::External,
            identifier: Identifier::No,
            is_packed: is_packed,
            expecting: Option::None,
            non_exhaustive: false,
        }
    }
}

} // verus!
