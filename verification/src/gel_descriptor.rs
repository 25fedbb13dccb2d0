use vstd::prelude::*;

use crate::descriptor::{
    ArrayTypeDescriptor, BaseScalarTypeDescriptor, InputShapeElement, MultiRangeTypeDescriptor,
    NamedTupleTypeDescriptor, RangeTypeDescriptor, SetDescriptor, ShapeElement,
    TupleTypeDescriptor, TypeAnnotationDescriptor, TypePos, TypedescError,
};

verus! {

/// An object shape, as the gel protocol describes it.
#[derive(Debug)]
pub struct GelObjectShapeDescriptor {
    pub id: u128,
    pub elements: Vec<ShapeElement>,
}

/// A scalar type, with its schema name and the position of its base type.
#[derive(Debug)]
pub struct GelScalarTypeDescriptor {
    pub id: u128,
    pub base_type_pos: Option<TypePos>,
    pub name: Option<String>,
}

/// An enumeration, with its schema name.
#[derive(Debug)]
pub struct GelEnumerationTypeDescriptor {
    pub id: u128,
    pub members: Vec<String>,
    pub name: Option<String>,
}

/// The input shape of a query's arguments.
#[derive(Debug)]
pub struct GelInputShapeTypeDescriptor {
    pub id: u128,
    pub elements: Vec<InputShapeElement>,
}

/// A schema object type, a compound type or an SQL row, which the generator
/// does not support.
#[derive(Debug)]
pub struct OtherTypeDescriptor {
    pub id: u128,
}

/// One block of a type description in the gel protocol.
#[derive(Debug)]
pub enum GelDescriptor {
    SetOf(SetDescriptor),
    ObjectShape(GelObjectShapeDescriptor),
    BaseScalar(BaseScalarTypeDescriptor),
    Scalar(GelScalarTypeDescriptor),
    Tuple(TupleTypeDescriptor),
    NamedTuple(NamedTupleTypeDescriptor),
    Array(ArrayTypeDescriptor),
    Enumeration(GelEnumerationTypeDescriptor),
    InputShape(GelInputShapeTypeDescriptor),
    Range(RangeTypeDescriptor),
    MultiRange(MultiRangeTypeDescriptor),
    Object(OtherTypeDescriptor),
    Compound(OtherTypeDescriptor),
    SQLRow(OtherTypeDescriptor),
    TypeAnnotation(TypeAnnotationDescriptor),
}

/// A type description in the gel protocol: its blocks and the position of
/// its root type, if any.
pub struct GelTypedesc {
    array: Vec<GelDescriptor>,
    root_pos: Option<TypePos>,
}

impl View for GelTypedesc {
    type V = Seq<GelDescriptor>;

    closed spec fn view(&self) -> Seq<GelDescriptor> {
        self.array@
    }
}

impl GelTypedesc {
    /// The root position, as the type description records it.
    pub closed spec fn spec_root_pos(&self) -> Option<TypePos> {
        self.root_pos
    }

    /// Builds a type description from its blocks and its root's position.
    pub fn new(array: Vec<GelDescriptor>, root_pos: Option<TypePos>) -> (r: GelTypedesc)
        ensures
            r@ == array@,
            r.spec_root_pos() == root_pos,
    {
        GelTypedesc { array, root_pos }
    }

    /// The position of the root type, if any.
    pub fn root_pos(&self) -> (r: Option<TypePos>)
        ensures
            r == self.spec_root_pos(),
    {
        self.root_pos
    }

    /// All blocks, in order.
    pub fn descriptors(&self) -> (r: &Vec<GelDescriptor>)
        ensures
            r@ == self@,
    {
        &self.array
    }

    /// The block at `type_pos`, or an error when there is none.
    pub fn get(&self, type_pos: TypePos) -> (r: Result<&GelDescriptor, TypedescError>)
        ensures
            (type_pos.0 < self@.len()) == (r is Ok),
            r matches Ok(d) ==> *d == self@[type_pos.0 as int],
            r matches Err(e) ==> e == (TypedescError::UnexpectedTypePos { position: type_pos.0 }),
    {
        if (type_pos.0 as usize) < self.array.len() {
            Ok(&self.array[type_pos.0 as usize])
        } else {
            Err(TypedescError::UnexpectedTypePos { position: type_pos.0 })
        }
    }
}

} // verus!
