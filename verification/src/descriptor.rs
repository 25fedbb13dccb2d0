use vstd::prelude::*;

use crate::cardinality::Cardinality;

verus! {

/// The position of a descriptor in the list that a [`Typedesc`] holds.
#[derive(Clone, Copy, Debug, PartialEq, Eq, Structural)]
pub struct TypePos(pub u16);

/// A field of an object or input shape.
#[derive(Debug)]
pub struct ShapeElement {
    pub flag_implicit: bool,
    pub flag_link_property: bool,
    pub flag_link: bool,
    pub cardinality: Option<Cardinality>,
    pub name: String,
    pub type_pos: TypePos,
}

/// A field of an input shape, as the gel protocol describes it.
#[derive(Debug)]
pub struct InputShapeElement {
    pub cardinality: Option<Cardinality>,
    pub name: String,
    pub type_pos: TypePos,
}

/// A field of a named tuple.
#[derive(Debug)]
pub struct TupleElement {
    pub name: String,
    pub type_pos: TypePos,
}

#[derive(Debug)]
pub struct SetDescriptor {
    pub id: u128,
    pub type_pos: TypePos,
}

#[derive(Debug)]
pub struct ObjectShapeDescriptor {
    pub id: u128,
    pub elements: Vec<ShapeElement>,
}

#[derive(Debug)]
pub struct InputShapeTypeDescriptor {
    pub id: u128,
    pub elements: Vec<ShapeElement>,
}

#[derive(Debug)]
pub struct BaseScalarTypeDescriptor {
    pub id: u128,
}

#[derive(Debug)]
pub struct ScalarTypeDescriptor {
    pub id: u128,
    pub base_type_pos: TypePos,
}

#[derive(Debug)]
pub struct TupleTypeDescriptor {
    pub id: u128,
    pub element_types: Vec<TypePos>,
}

#[derive(Debug)]
pub struct NamedTupleTypeDescriptor {
    pub id: u128,
    pub elements: Vec<TupleElement>,
}

#[derive(Debug)]
pub struct ArrayTypeDescriptor {
    pub id: u128,
    pub type_pos: TypePos,
    pub dimensions: Vec<Option<u32>>,
}

#[derive(Debug)]
pub struct RangeTypeDescriptor {
    pub id: u128,
    pub type_pos: TypePos,
}

#[derive(Debug)]
pub struct MultiRangeTypeDescriptor {
    pub id: u128,
    pub type_pos: TypePos,
}

#[derive(Debug)]
pub struct EnumerationTypeDescriptor {
    pub id: u128,
    pub members: Vec<String>,
}

#[derive(Debug)]
pub struct TypeAnnotationDescriptor {
    pub annotated_type: u8,
    pub id: u128,
    pub annotation: String,
}

/// One block of a type description: a type, which may name other blocks by
/// their position.
#[derive(Debug)]
pub enum Descriptor {
    SetOf(SetDescriptor),
    ObjectShape(ObjectShapeDescriptor),
    BaseScalar(BaseScalarTypeDescriptor),
    Scalar(ScalarTypeDescriptor),
    Tuple(TupleTypeDescriptor),
    NamedTuple(NamedTupleTypeDescriptor),
    Array(ArrayTypeDescriptor),
    Enumeration(EnumerationTypeDescriptor),
    InputShape(InputShapeTypeDescriptor),
    Range(RangeTypeDescriptor),
    MultiRange(MultiRangeTypeDescriptor),
    TypeAnnotation(TypeAnnotationDescriptor),
}

/// The type description of a query's input or output: a list of blocks and
/// the position of the root type, if there is one.
pub struct Typedesc {
    array: Vec<Descriptor>,
    root_id: u128,
    root_pos: Option<TypePos>,
}

/// A position that names no block of a type description.
#[derive(Clone, Copy, Debug, PartialEq, Eq, Structural)]
pub enum TypedescError {
    UnexpectedTypePos { position: u16 },
}

impl View for Typedesc {
    type V = Seq<Descriptor>;

    closed spec fn view(&self) -> Seq<Descriptor> {
        self.array@
    }
}

impl Typedesc {
    /// The root position, as the type description records it.
    pub closed spec fn spec_root_pos(&self) -> Option<TypePos> {
        self.root_pos
    }

    /// The root type identifier.
    pub closed spec fn spec_root_id(&self) -> u128 {
        self.root_id
    }

    /// Builds a type description from its blocks, the identifier of its root
    /// type and the root's position.
    pub fn new(array: Vec<Descriptor>, root_id: u128, root_pos: Option<TypePos>) -> (r: Typedesc)
        ensures
            r@ == array@,
            r.spec_root_pos() == root_pos,
            r.spec_root_id() == root_id,
    {
        Typedesc { array, root_id, root_pos }
    }

    /// A type description with no blocks and no root.
    pub fn nothing() -> (r: Typedesc)
        ensures
            r@ == Seq::<Descriptor>::empty(),
            r.spec_root_pos() is None,
            r.spec_root_id() == 0,
    {
        Typedesc { array: Vec::new(), root_id: 0, root_pos: None }
    }

    /// The identifier of the root type.
    pub fn id(&self) -> (r: u128)
        ensures
            r == self.spec_root_id(),
    {
        self.root_id
    }

    /// The position of the root type, if any.
    pub fn root_pos(&self) -> (r: Option<TypePos>)
        ensures
            r == self.spec_root_pos(),
    {
        self.root_pos
    }

    /// All blocks, in order.
    pub fn descriptors(&self) -> (r: &Vec<Descriptor>)
        ensures
            r@ == self@,
    {
        &self.array
    }

    /// The block at `type_pos`, or an error when there is none.
    pub fn get(&self, type_pos: TypePos) -> (r: Result<&Descriptor, TypedescError>)
        ensures
            (type_pos.0 < self@.len()) == (r is Ok),
            r matches Ok(d) ==> *d == self@[type_pos.0 as int],
            r matches Err(e) ==> e == (TypedescError::UnexpectedTypePos { position: type_pos.0 }),
    {
        if (type_pos.0 as usize) < self.array.len() {
            Ok(&self.array[type_pos.0 as usize])
        } else {
            Err(TypedescError::UnexpectedTypePos { position: type_pos.0 })
        }
    }

    /// The root block, when the root position names one.
    pub fn root(&self) -> (r: Option<&Descriptor>)
        ensures
            match r {
                Some(d) => root_of(self@, self.spec_root_pos()) == Some(*d),
                None => root_of(self@, self.spec_root_pos()) is None,
            },
    {
        match self.root_pos {
            Some(pos) => {
                if (pos.0 as usize) < self.array.len() {
                    Some(&self.array[pos.0 as usize])
                } else {
                    None
                }
            },
            None => None,
        }
    }
}

/// The block that the root position names, if any.
pub open spec fn root_of(ds: Seq<Descriptor>, root_pos: Option<TypePos>) -> Option<Descriptor> {
    match root_pos {
        Some(p) => if p.0 < ds.len() {
            Some(ds[p.0 as int])
        } else {
            None
        },
        None => None,
    }
}

} // verus!
