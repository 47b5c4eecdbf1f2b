use vstd::prelude::*;

use crate::syntax::{Ty, TypeExpr};

verus! {

/// One named field of the input record: `name: declared_type`.
#[derive(Debug, PartialEq, Eq)]
pub struct SourceField {
    pub name: String,
    pub declared_type: TypeExpr,
}

/// The field list of a struct definition.
pub enum Fields {
    /// `struct S { a: A, b: B }`
    Named(Vec<SourceField>),
    /// `struct S(A, B);`
    Unnamed(Vec<TypeExpr>),
    /// `struct S;`
    Unit,
}

/// The body of an item that the generator is applied to.
pub enum Data {
    Struct(Fields),
    Enum,
    Union,
}

/// Structural description of the item that the builder is derived for.
pub struct DeriveInput {
    pub ident: String,
    /// Whether the item declares lifetime, type or const parameters.
    pub has_generics: bool,
    pub data: Data,
}

/// The ways in which an input is not a plain record with named fields.
#[derive(PartialEq, Eq, Structural, Clone, Copy, Debug)]
pub enum UnsupportedShape {
    TupleStruct,
    UnitStruct,
    Enum,
    Union,
    Generic,
}

/// Mathematical model of a field.
pub struct FieldV {
    pub name: Seq<char>,
    pub ty: Ty,
}

impl SourceField {
    pub open spec fn view(&self) -> FieldV {
        FieldV { name: self.name@, ty: self.declared_type@ }
    }
}

pub open spec fn fields_view(s: Seq<SourceField>) -> Seq<FieldV> {
    s.map_values(|f: SourceField| f@)
}

impl DeriveInput {
    /// Why the input cannot be given a builder, if it cannot.
    pub open spec fn shape_error(&self) -> Option<UnsupportedShape> {
        match self.data {
            Data::Enum => Some(UnsupportedShape::Enum),
            Data::Union => Some(UnsupportedShape::Union),
            Data::Struct(Fields::Unnamed(_)) => Some(UnsupportedShape::TupleStruct),
            Data::Struct(Fields::Unit) => Some(UnsupportedShape::UnitStruct),
            Data::Struct(Fields::Named(_)) => if self.has_generics {
                Some(UnsupportedShape::Generic)
            } else {
                None
            },
        }
    }

    /// The named fields of a struct, in declaration order (empty for other shapes).
    pub open spec fn named_fields(&self) -> Seq<FieldV> {
        match self.data {
            Data::Struct(Fields::Named(v)) => fields_view(v@),
            _ => Seq::empty(),
        }
    }
}

/// Isolates the ordered named fields of a plain, non-generic struct and
/// refuses every other shape.
pub fn extract_fields(input: &DeriveInput) -> (r: Result<&Vec<SourceField>, UnsupportedShape>)
    ensures
        match input.shape_error() {
            Some(e) => r == Err::<&Vec<SourceField>, UnsupportedShape>(e),
            None => r is Ok && fields_view(r->Ok_0@) == input.named_fields(),
        },
{
    match &input.data {
        Data::Enum => Err(UnsupportedShape::Enum),
        Data::Union => Err(UnsupportedShape::Union),
        Data::Struct(Fields::Unnamed(_)) => Err(UnsupportedShape::TupleStruct),
        Data::Struct(Fields::Unit) => Err(UnsupportedShape::UnitStruct),
        Data::Struct(Fields::Named(v)) => {
            if input.has_generics {
                Err(UnsupportedShape::Generic)
            } else {
                Ok(v)
            }
        },
    }
}

} // verus!
