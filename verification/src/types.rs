//! The entity model of the IR: nodes, their fields and variants, and the
//! recursive type language that field and payload types are written in.

use crate::features::Features;
use std::collections::BTreeMap;
use vstd::prelude::*;

verus! {

/// The root value of one generation run: every declared node, in declaration
/// order, plus the mapping from raw token spelling to canonical token-type
/// name (keys unique) that resolves [`Type::Token`] references.
pub struct Definitions {
    /// The declared nodes, in declaration order.
    pub types: Vec<Node>,
    /// Raw token text, mapped to the canonical token-type identifier.
    pub tokens: BTreeMap<String, String>,
}

/// One declared AST type: a struct or an enum. Every node carries an
/// identifier and the feature set under which it exists.
///
/// Serializes as a tagged union whose lower-cased discriminator is given by
/// [`Node::tag`].
#[derive(Debug)]
pub enum Node {
    /// A declaration with named fields.
    Struct(Struct),
    /// A declaration with variants.
    Enum(Enum),
}

impl Node {
    /// The identifier of the declaration, whichever shape it has.
    pub open spec fn spec_ident(&self) -> Seq<char> {
        match self {
            Node::Struct(i) => i.spec_ident(),
            Node::Enum(i) => i.spec_ident(),
        }
    }

    /// The feature set of the declaration, whichever shape it has.
    pub open spec fn spec_features(&self) -> Seq<Seq<char>> {
        match self {
            Node::Struct(i) => i.spec_features(),
            Node::Enum(i) => i.spec_features(),
        }
    }

    /// The lower-cased discriminator under which this node serializes.
    pub open spec fn spec_tag(&self) -> Seq<char> {
        match self {
            Node::Struct(_) => "struct"@,
            Node::Enum(_) => "enum"@,
        }
    }

    /// The identifier of the declaration.
    pub fn ident(&self) -> (name: &str)
        ensures
            name@ == self.spec_ident(),
    {
        match self {
            Node::Struct(i) => i.ident.as_str(),
            Node::Enum(i) => i.ident.as_str(),
        }
    }

    /// The feature set of the declaration.
    pub fn features(&self) -> (features: &Features)
        ensures
            features@ == self.spec_features(),
    {
        match self {
            Node::Struct(i) => &i.features,
            Node::Enum(i) => &i.features,
        }
    }

    /// The lower-cased discriminator under which this node serializes.
    pub fn tag(&self) -> (tag: &str)
        ensures
            tag@ == self.spec_tag(),
    {
        match self {
            Node::Struct(_) => "struct",
            Node::Enum(_) => "enum",
        }
    }
}

/// A declared struct: identifier, feature set, ordered fields, and a flag
/// marking whether every field is publicly visible.
#[derive(Debug)]
pub struct Struct {
    ident: String,
    features: Features,
    fields: Vec<Field>,
    all_fields_pub: bool,
}

impl Struct {
    /// The struct's identifier.
    pub closed spec fn spec_ident(&self) -> Seq<char> {
        self.ident@
    }

    /// The struct's feature set.
    pub closed spec fn spec_features(&self) -> Seq<Seq<char>> {
        self.features@
    }

    /// The struct's fields, in declaration order.
    pub closed spec fn spec_fields(&self) -> Seq<Field> {
        self.fields@
    }

    /// Whether every field is publicly visible.
    pub closed spec fn spec_all_fields_pub(&self) -> bool {
        self.all_fields_pub
    }

    /// Builds a struct declaration from exactly these four values; there is
    /// no partial or incremental construction, and no validation: uniqueness
    /// of identifiers is the caller's responsibility.
    pub fn new(ident: String, features: Features, fields: Vec<Field>, all_fields_pub: bool) -> (
        item: Struct)
        ensures
            item.spec_ident() == ident@,
            item.spec_features() == features@,
            item.spec_fields() == fields@,
            item.spec_all_fields_pub() == all_fields_pub,
    {
        Struct { ident, features, fields, all_fields_pub }
    }

    /// The struct's feature set.
    pub fn features(&self) -> (features: &Features)
        ensures
            features@ == self.spec_features(),
    {
        &self.features
    }

    /// Read-only view of the fields, in their original order.
    pub fn fields(&self) -> (fields: &[Field])
        ensures
            fields@ == self.spec_fields(),
    {
        self.fields.as_slice()
    }

    /// Whether every field is publicly visible (affects emitted visibility;
    /// not represented per field).
    pub fn all_fields_pub(&self) -> (all_pub: bool)
        ensures
            all_pub == self.spec_all_fields_pub(),
    {
        self.all_fields_pub
    }
}

/// A declared enum: identifier, feature set, and ordered variants.
#[derive(Debug)]
pub struct Enum {
    ident: String,
    features: Features,
    variants: Vec<Variant>,
}

impl Enum {
    /// The enum's identifier.
    pub closed spec fn spec_ident(&self) -> Seq<char> {
        self.ident@
    }

    /// The enum's feature set.
    pub closed spec fn spec_features(&self) -> Seq<Seq<char>> {
        self.features@
    }

    /// The enum's variants, in declaration order.
    pub closed spec fn spec_variants(&self) -> Seq<Variant> {
        self.variants@
    }

    /// Builds an enum declaration from exactly these three values, with no
    /// validation of identifier uniqueness.
    pub fn new(ident: String, features: Features, variants: Vec<Variant>) -> (item: Enum)
        ensures
            item.spec_ident() == ident@,
            item.spec_features() == features@,
            item.spec_variants() == variants@,
    {
        Enum { ident, features, variants }
    }

    /// Read-only view of the variants, in their original order.
    pub fn variants(&self) -> (variants: &[Variant])
        ensures
            variants@ == self.spec_variants(),
    {
        self.variants.as_slice()
    }
}

/// One variant of a declared enum: an identifier (unique within the enum)
/// and the ordered tuple-style payload types; an empty payload sequence is a
/// unit variant.
#[derive(Debug)]
pub struct Variant {
    ident: String,
    fields: Vec<Type>,
}

impl Variant {
    /// The variant's identifier.
    pub closed spec fn spec_ident(&self) -> Seq<char> {
        self.ident@
    }

    /// The variant's payload types, in order.
    pub closed spec fn spec_fields(&self) -> Seq<Type> {
        self.fields@
    }

    /// Builds a variant from its identifier and payload types.
    pub fn new(ident: String, fields: Vec<Type>) -> (variant: Variant)
        ensures
            variant.spec_ident() == ident@,
            variant.spec_fields() == fields@,
    {
        Variant { ident, fields }
    }

    /// The variant's identifier.
    pub fn ident(&self) -> (name: &str)
        ensures
            name@ == self.spec_ident(),
    {
        self.ident.as_str()
    }

    /// Read-only view of the payload types, in their original order.
    pub fn fields(&self) -> (fields: &[Type])
        ensures
            fields@ == self.spec_fields(),
    {
        self.fields.as_slice()
    }
}

/// One named field of a declared struct: an identifier (unique within the
/// struct) and one type. The type serializes under the key `type`, matching
/// the external schema's naming.
#[derive(Debug)]
pub struct Field {
    ident: String,
    ty: Type,
}

impl Field {
    /// The field's identifier.
    pub closed spec fn spec_ident(&self) -> Seq<char> {
        self.ident@
    }

    /// The field's type.
    pub closed spec fn spec_ty(&self) -> Type {
        self.ty
    }

    /// Builds a field from its identifier and type, taking ownership of the
    /// type.
    pub fn new(ident: String, ty: Type) -> (field: Field)
        ensures
            field.spec_ident() == ident@,
            field.spec_ty() == ty,
    {
        Field { ident, ty }
    }

    /// The field's identifier.
    pub fn ident(&self) -> (name: &str)
        ensures
            name@ == self.spec_ident(),
    {
        self.ident.as_str()
    }

    /// The field's type.
    pub fn ty(&self) -> (ty: &Type)
        ensures
            *ty == self.spec_ty(),
    {
        &self.ty
    }
}

/// The type of a field or of a variant payload: a closed recursive union.
///
/// Its serialized form is a tagged union whose lower-cased discriminator per
/// variant is given by [`Type::tag`].
#[derive(Debug)]
pub enum Type {
    /// Reference to another node defined in this same IR; the name must match
    /// some node identifier in the same `Definitions` (a referential
    /// invariant checked by consumers, not by this type).
    Item(String),
    /// A standard-library type identified by name, opaque to this IR.
    Std(String),
    /// A type external to both this IR and the standard library, opaque.
    Ext(String),
    /// A single lexical token type.
    Token(String),
    /// A token delimiter/group marker.
    Group(String),
    /// A delimited, separator-interleaved list.
    Punctuated(Punctuated),
    /// An optional value of the inner type.
    Option(Box<Type>),
    /// A boxed value of the inner type.
    Box(Box<Type>),
    /// A homogeneous list of the inner type.
    Vec(Box<Type>),
    /// A fixed-arity heterogeneous grouping.
    Tuple(Vec<Type>),
}

impl Type {
    /// The lower-cased discriminator under which this variant serializes.
    pub open spec fn spec_tag(&self) -> Seq<char> {
        match self {
            Type::Item(_) => "item"@,
            Type::Std(_) => "std"@,
            Type::Ext(_) => "ext"@,
            Type::Token(_) => "token"@,
            Type::Group(_) => "group"@,
            Type::Punctuated(_) => "punctuated"@,
            Type::Option(_) => "option"@,
            Type::Box(_) => "box"@,
            Type::Vec(_) => "vec"@,
            Type::Tuple(_) => "tuple"@,
        }
    }

    /// The lower-cased discriminator under which this variant serializes.
    pub fn tag(&self) -> (tag: &str)
        ensures
            tag@ == self.spec_tag(),
    {
        match self {
            Type::Item(_) => "item",
            Type::Std(_) => "std",
            Type::Ext(_) => "ext",
            Type::Token(_) => "token",
            Type::Group(_) => "group",
            Type::Punctuated(_) => "punctuated",
            Type::Option(_) => "option",
            Type::Box(_) => "box",
            Type::Vec(_) => "vec",
            Type::Tuple(_) => "tuple",
        }
    }
}

/// A delimited list: an element type interleaved with a separator token.
#[derive(Debug)]
pub struct Punctuated {
    element: Box<Type>,
    punct: String,
}

impl Punctuated {
    /// The element type of the list.
    pub closed spec fn spec_element(&self) -> Type {
        *self.element
    }

    /// The separator token written between elements.
    pub closed spec fn spec_punct(&self) -> Seq<char> {
        self.punct@
    }

    /// Builds a delimited list type, taking ownership of the element type.
    pub fn new(element: Type, punct: String) -> (list: Punctuated)
        ensures
            list.spec_element() == element,
            list.spec_punct() == punct@,
    {
        Punctuated { element: Box::new(element), punct }
    }

    /// Read access to the element type.
    pub fn element(&self) -> (element: &Type)
        ensures
            *element == self.spec_element(),
    {
        &self.element
    }

    /// Read access to the separator token.
    pub fn punct(&self) -> (punct: &str)
        ensures
            punct@ == self.spec_punct(),
    {
        self.punct.as_str()
    }
}

} // verus!
