//! The description of a type declaration that accessors are asked for.

use vstd::prelude::*;

verus! {

/// An attribute attached to a field.
#[derive(Debug, Clone, PartialEq, Eq)]
pub struct Attribute {
    /// The attribute's path, where it is a single identifier.
    pub ident: Option<String>,
    /// The attribute's tokens after the path, as text.
    pub tokens: String,
}

/// What an [`Attribute`] holds, as sequences of characters.
pub struct AttributeModel {
    pub ident: Option<Seq<char>>,
    pub tokens: Seq<char>,
}

impl View for Attribute {
    type V = AttributeModel;

    open spec fn view(&self) -> AttributeModel {
        AttributeModel {
            ident: match self.ident {
                Some(s) => Some(s@),
                None => None,
            },
            tokens: self.tokens@,
        }
    }
}

/// A named field of a record.
#[derive(Debug, Clone, PartialEq, Eq)]
pub struct Field {
    /// The field's identifier.
    pub name: String,
    /// The field's declared type, as written.
    pub ty: String,
    /// The attributes attached to the field, in order.
    pub attrs: Vec<Attribute>,
}

/// What a [`Field`] holds, as sequences.
pub struct FieldModel {
    pub name: Seq<char>,
    pub ty: Seq<char>,
    pub attrs: Seq<AttributeModel>,
}

/// The attributes of a list, each by its view.
pub open spec fn attrs_view(v: Seq<Attribute>) -> Seq<AttributeModel> {
    Seq::new(v.len(), |i: int| v[i]@)
}

impl View for Field {
    type V = FieldModel;

    open spec fn view(&self) -> FieldModel {
        FieldModel { name: self.name@, ty: self.ty@, attrs: attrs_view(self.attrs@) }
    }
}

/// The shape of a type declaration.
#[derive(Debug, Clone, PartialEq, Eq)]
pub enum Shape {
    /// A record with named fields, in declaration order.
    Named(Vec<Field>),
    /// A record with positional fields.
    Tuple,
    /// A record without a field list.
    Unit,
    /// A sum type.
    Enum,
    /// A union.
    Union,
}

/// What a [`Shape`] holds, as sequences.
pub enum ShapeModel {
    Named(Seq<FieldModel>),
    Tuple,
    Unit,
    Enum,
    Union,
}

/// The fields of a list, each by its view.
pub open spec fn fields_view(v: Seq<Field>) -> Seq<FieldModel> {
    Seq::new(v.len(), |i: int| v[i]@)
}

impl View for Shape {
    type V = ShapeModel;

    open spec fn view(&self) -> ShapeModel {
        match self {
            Shape::Named(fields) => ShapeModel::Named(fields_view(fields@)),
            Shape::Tuple => ShapeModel::Tuple,
            Shape::Unit => ShapeModel::Unit,
            Shape::Enum => ShapeModel::Enum,
            Shape::Union => ShapeModel::Union,
        }
    }
}

/// A type declaration: its name and its shape.
#[derive(Debug, Clone, PartialEq, Eq)]
pub struct Declaration {
    pub ident: String,
    pub shape: Shape,
}

/// What a [`Declaration`] holds, as sequences.
pub struct DeclarationModel {
    pub ident: Seq<char>,
    pub shape: ShapeModel,
}

impl View for Declaration {
    type V = DeclarationModel;

    open spec fn view(&self) -> DeclarationModel {
        DeclarationModel { ident: self.ident@, shape: self.shape@ }
    }
}

/// Why no accessors are generated for a declaration.
#[derive(Debug, Clone, Copy, PartialEq, Eq)]
pub enum ConstructError {
    /// The declaration is not a record with at least one named field.
    NotSupport,
}

impl ConstructError {
    /// The diagnostic that reports this error.
    pub fn message(&self) -> (r: String)
        ensures
            r@ == "Not Support"@,
    {
        String::from_str("Not Support")
    }
}

/// Whether accessors can be generated for `d`: it is a record with named
/// fields, and has at least one.
pub open spec fn supported(d: DeclarationModel) -> bool {
    d.shape is Named && d.shape->Named_0.len() > 0
}

/// Hands out the named fields of a supported declaration, and refuses any
/// other.
pub fn named_fields(d: &Declaration) -> (r: Result<&Vec<Field>, ConstructError>)
    ensures
        r is Ok == supported(d@),
        r is Ok ==> d.shape == Shape::Named(*r->Ok_0),
        r is Err ==> r->Err_0 == ConstructError::NotSupport,
{
    match &d.shape {
        Shape::Named(fields) => {
            if fields.len() > 0 {
                Ok(fields)
            } else {
                Err(ConstructError::NotSupport)
            }
        },
        _ => Err(ConstructError::NotSupport),
    }
}

} // verus!
