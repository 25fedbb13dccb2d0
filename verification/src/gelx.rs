use vstd::prelude::*;

use crate::cardinality::Cardinality;
use crate::descriptor::{InputShapeElement, ShapeElement, TupleElement, TypePos};
use crate::text::{concat2, concat3, opt_view};

verus! {

// Rust types and codec paths for the known scalar types, as the gel flavour of
// the generator writes them. Type expressions are kept as Rust source text;
// `exports` is the path of the module that re-exports the client crates.

/// The Rust type for a known scalar type.
pub open spec fn token_name(id: u128, exports: Seq<char>) -> Option<Seq<char>> {
    match id {
        0x100 => Some(exports + "::uuid::Uuid"@), // STD_UUID
        0x101 => Some("String"@), // STD_STR
        0x102 => Some(exports + "::bytes::Bytes"@), // STD_BYTES
        0x103 => Some("i16"@), // STD_INT16
        0x104 => Some("i32"@), // STD_INT32
        0x105 => Some("i64"@), // STD_INT64
        0x106 => Some("f32"@), // STD_FLOAT32
        0x107 => Some("f64"@), // STD_FLOAT64
        0x108 => Some(exports + "::DecimalAlias"@), // STD_DECIMAL
        0x109 => Some("bool"@), // STD_BOOL
        0x10a | 0x1000002 => Some(exports + "::DateTimeAlias"@), // STD_DATETIME, STD_PG_TIMESTAMPTZ
        0x10b | 0x1000003 => Some(exports + "::LocalDatetimeAlias"@), // CAL_LOCAL_DATETIME, STD_PG_TIMESTAMP
        0x10c | 0x1000004 => Some(exports + "::LocalDateAlias"@), // CAL_LOCAL_DATE, STD_PG_DATE
        0x10d => Some(exports + "::LocalTimeAlias"@), // CAL_LOCAL_TIME
        0x10e => Some(exports + "::gel_protocol::model::Duration"@), // STD_DURATION
        0x111 => Some(exports + "::gel_protocol::model::RelativeDuration"@), // CAL_RELATIVE_DURATION
        0x112 => Some(exports + "::gel_protocol::model::DateDuration"@), // CAL_DATE_DURATION
        0x10f | 0x1000001 => Some(exports + "::gel_protocol::model::Json"@), // STD_JSON, STD_PG_JSON
        0x110 => Some(exports + "::BigIntAlias"@), // STD_BIGINT
        0x130 => Some(exports + "::gel_protocol::model::ConfigMemory"@), // CFG_MEMORY
        0x9565dd88_04f5_11ee_a691_0b6ebe179825 => Some(exports + "::gel_protocol::model::Vector"@), // PGVECTOR_VECTOR
        0x44c901c0_d922_4894_83c8_061bd05e4840 => Some(exports + "::Geometry"@), // POSTGIS_GEOMETRY
        0x4d738878_3a5f_4821_ab76_9d8e7d6b32c4 => Some(exports + "::Geography"@), // POSTGIS_GEOGRAPHY
        _ => None,
    }
}

/// The name of the codec constant of a known scalar type.
pub open spec fn codec_constant(id: u128) -> Option<Seq<char>> {
    match id {
        0x100 => Some("STD_UUID"@), // STD_UUID
        0x101 => Some("STD_STR"@), // STD_STR
        0x102 => Some("STD_BYTES"@), // STD_BYTES
        0x103 => Some("STD_INT16"@), // STD_INT16
        0x104 => Some("STD_INT32"@), // STD_INT32
        0x105 => Some("STD_INT64"@), // STD_INT64
        0x106 => Some("STD_FLOAT32"@), // STD_FLOAT32
        0x107 => Some("STD_FLOAT64"@), // STD_FLOAT64
        0x108 => Some("STD_DECIMAL"@), // STD_DECIMAL
        0x109 => Some("STD_BOOL"@), // STD_BOOL
        0x10a | 0x1000002 => Some("STD_DATETIME"@), // STD_DATETIME, STD_PG_TIMESTAMPTZ
        0x10b | 0x1000003 => Some("CAL_LOCAL_DATETIME"@), // CAL_LOCAL_DATETIME, STD_PG_TIMESTAMP
        0x10c | 0x1000004 => Some("CAL_LOCAL_DATE"@), // CAL_LOCAL_DATE, STD_PG_DATE
        0x10d => Some("CAL_LOCAL_TIME"@), // CAL_LOCAL_TIME
        0x10e => Some("STD_DURATION"@), // STD_DURATION
        0x111 => Some("CAL_RELATIVE_DURATION"@), // CAL_RELATIVE_DURATION
        0x112 => Some("CAL_DATE_DURATION"@), // CAL_DATE_DURATION
        0x10f | 0x1000001 => Some("STD_JSON"@), // STD_JSON, STD_PG_JSON
        0x110 => Some("STD_BIGINT"@), // STD_BIGINT
        0x130 => Some("CFG_MEMORY"@), // CFG_MEMORY
        0x9565dd88_04f5_11ee_a691_0b6ebe179825 => Some("PGVECTOR_VECTOR"@), // PGVECTOR_VECTOR
        0x44c901c0_d922_4894_83c8_061bd05e4840 => Some("POSTGIS_GEOMETRY"@), // POSTGIS_GEOMETRY
        0x4d738878_3a5f_4821_ab76_9d8e7d6b32c4 => Some("POSTGIS_GEOGRAPHY"@), // POSTGIS_GEOGRAPHY
        _ => None,
    }
}

/// The path of the codec constant for a known scalar type.
pub open spec fn import_path(id: u128, exports: Seq<char>) -> Option<Seq<char>> {
    match codec_constant(id) {
        Some(c) => Some(exports + "::gel_protocol::codec::"@ + c),
        None => None,
    }
}

/// The Rust type for a known scalar type, or `None` for any other identifier.
pub fn maybe_uuid_to_token_name(uuid: &u128, exports_ident: &str) -> (r: Option<String>)
    ensures
        opt_view(r) == token_name(*uuid, exports_ident@),
{
    match *uuid {
        0x100 => Some(concat2(exports_ident, "::uuid::Uuid")), // STD_UUID
        0x101 => Some(String::from_str("String")), // STD_STR
        0x102 => Some(concat2(exports_ident, "::bytes::Bytes")), // STD_BYTES
        0x103 => Some(String::from_str("i16")), // STD_INT16
        0x104 => Some(String::from_str("i32")), // STD_INT32
        0x105 => Some(String::from_str("i64")), // STD_INT64
        0x106 => Some(String::from_str("f32")), // STD_FLOAT32
        0x107 => Some(String::from_str("f64")), // STD_FLOAT64
        0x108 => Some(concat2(exports_ident, "::DecimalAlias")), // STD_DECIMAL
        0x109 => Some(String::from_str("bool")), // STD_BOOL
        0x10a | 0x1000002 => Some(concat2(exports_ident, "::DateTimeAlias")), // STD_DATETIME, STD_PG_TIMESTAMPTZ
        0x10b | 0x1000003 => Some(concat2(exports_ident, "::LocalDatetimeAlias")), // CAL_LOCAL_DATETIME, STD_PG_TIMESTAMP
        0x10c | 0x1000004 => Some(concat2(exports_ident, "::LocalDateAlias")), // CAL_LOCAL_DATE, STD_PG_DATE
        0x10d => Some(concat2(exports_ident, "::LocalTimeAlias")), // CAL_LOCAL_TIME
        0x10e => Some(concat2(exports_ident, "::gel_protocol::model::Duration")), // STD_DURATION
        0x111 => Some(concat2(exports_ident, "::gel_protocol::model::RelativeDuration")), // CAL_RELATIVE_DURATION
        0x112 => Some(concat2(exports_ident, "::gel_protocol::model::DateDuration")), // CAL_DATE_DURATION
        0x10f | 0x1000001 => Some(concat2(exports_ident, "::gel_protocol::model::Json")), // STD_JSON, STD_PG_JSON
        0x110 => Some(concat2(exports_ident, "::BigIntAlias")), // STD_BIGINT
        0x130 => Some(concat2(exports_ident, "::gel_protocol::model::ConfigMemory")), // CFG_MEMORY
        0x9565dd88_04f5_11ee_a691_0b6ebe179825 => Some(concat2(exports_ident, "::gel_protocol::model::Vector")), // PGVECTOR_VECTOR
        0x44c901c0_d922_4894_83c8_061bd05e4840 => Some(concat2(exports_ident, "::Geometry")), // POSTGIS_GEOMETRY
        0x4d738878_3a5f_4821_ab76_9d8e7d6b32c4 => Some(concat2(exports_ident, "::Geography")), // POSTGIS_GEOGRAPHY
        _ => None,
    }
}

/// The path of the codec constant for a known scalar type, or `None` for any
/// other identifier.
pub fn maybe_uuid_to_import(uuid: &u128, exports_ident: &str) -> (r: Option<String>)
    ensures
        opt_view(r) == import_path(*uuid, exports_ident@),
{
    match *uuid {
        0x100 => Some(concat3(exports_ident, "::gel_protocol::codec::", "STD_UUID")), // STD_UUID
        0x101 => Some(concat3(exports_ident, "::gel_protocol::codec::", "STD_STR")), // STD_STR
        0x102 => Some(concat3(exports_ident, "::gel_protocol::codec::", "STD_BYTES")), // STD_BYTES
        0x103 => Some(concat3(exports_ident, "::gel_protocol::codec::", "STD_INT16")), // STD_INT16
        0x104 => Some(concat3(exports_ident, "::gel_protocol::codec::", "STD_INT32")), // STD_INT32
        0x105 => Some(concat3(exports_ident, "::gel_protocol::codec::", "STD_INT64")), // STD_INT64
        0x106 => Some(concat3(exports_ident, "::gel_protocol::codec::", "STD_FLOAT32")), // STD_FLOAT32
        0x107 => Some(concat3(exports_ident, "::gel_protocol::codec::", "STD_FLOAT64")), // STD_FLOAT64
        0x108 => Some(concat3(exports_ident, "::gel_protocol::codec::", "STD_DECIMAL")), // STD_DECIMAL
        0x109 => Some(concat3(exports_ident, "::gel_protocol::codec::", "STD_BOOL")), // STD_BOOL
        0x10a | 0x1000002 => Some(concat3(exports_ident, "::gel_protocol::codec::", "STD_DATETIME")), // STD_DATETIME, STD_PG_TIMESTAMPTZ
        0x10b | 0x1000003 => Some(concat3(exports_ident, "::gel_protocol::codec::", "CAL_LOCAL_DATETIME")), // CAL_LOCAL_DATETIME, STD_PG_TIMESTAMP
        0x10c | 0x1000004 => Some(concat3(exports_ident, "::gel_protocol::codec::", "CAL_LOCAL_DATE")), // CAL_LOCAL_DATE, STD_PG_DATE
        0x10d => Some(concat3(exports_ident, "::gel_protocol::codec::", "CAL_LOCAL_TIME")), // CAL_LOCAL_TIME
        0x10e => Some(concat3(exports_ident, "::gel_protocol::codec::", "STD_DURATION")), // STD_DURATION
        0x111 => Some(concat3(exports_ident, "::gel_protocol::codec::", "CAL_RELATIVE_DURATION")), // CAL_RELATIVE_DURATION
        0x112 => Some(concat3(exports_ident, "::gel_protocol::codec::", "CAL_DATE_DURATION")), // CAL_DATE_DURATION
        0x10f | 0x1000001 => Some(concat3(exports_ident, "::gel_protocol::codec::", "STD_JSON")), // STD_JSON, STD_PG_JSON
        0x110 => Some(concat3(exports_ident, "::gel_protocol::codec::", "STD_BIGINT")), // STD_BIGINT
        0x130 => Some(concat3(exports_ident, "::gel_protocol::codec::", "CFG_MEMORY")), // CFG_MEMORY
        0x9565dd88_04f5_11ee_a691_0b6ebe179825 => Some(concat3(exports_ident, "::gel_protocol::codec::", "PGVECTOR_VECTOR")), // PGVECTOR_VECTOR
        0x44c901c0_d922_4894_83c8_061bd05e4840 => Some(concat3(exports_ident, "::gel_protocol::codec::", "POSTGIS_GEOMETRY")), // POSTGIS_GEOMETRY
        0x4d738878_3a5f_4821_ab76_9d8e7d6b32c4 => Some(concat3(exports_ident, "::gel_protocol::codec::", "POSTGIS_GEOGRAPHY")), // POSTGIS_GEOGRAPHY
        _ => None,
    }
}


/// Each known scalar type has both a Rust type and a codec constant, and no
/// other identifier has either.
pub proof fn lemma_token_name_iff_import(id: u128, exports: Seq<char>)
    ensures
        (token_name(id, exports) is Some) == (import_path(id, exports) is Some),
{
}

/// Which optional conversions the generated code makes: to `bigdecimal`, to
/// `num-bigint` and to `chrono` types.
#[derive(Clone, Copy, Debug, PartialEq, Eq, Structural)]
pub struct ConversionFeatures {
    pub with_bigdecimal: bool,
    pub with_bigint: bool,
    pub with_chrono: bool,
}

/// Whether a value of the scalar type converts into its Rust type for sure,
/// or may fail (converting from the given model type).
#[derive(Debug)]
pub enum ConvertionKind {
    Infailable,
    Fallible { target_token: String },
}

impl Default for ConvertionKind {
    fn default() -> (r: Self)
        ensures
            r is Infailable,
    {
        ConvertionKind::Infailable
    }
}

/// The model type that a scalar converts from when its conversion may fail,
/// given the enabled conversions; `None` when it cannot fail.
pub open spec fn fallible_target(id: u128, exports: Seq<char>, features: ConversionFeatures) -> Option<
    Seq<char>,
> {
    if id == 0x108 && features.with_bigdecimal {
        Some(exports + "::gel_protocol::model::Decimal"@)
    } else if id == 0x110 && features.with_bigint {
        Some(exports + "::gel_protocol::model::BigInt"@)
    } else if (id == 0x10a || id == 0x1000002) && features.with_chrono {
        Some(exports + "::gel_protocol::model::DateTime"@)
    } else if (id == 0x10b || id == 0x1000003) && features.with_chrono {
        Some(exports + "::gel_protocol::model::LocalDatetime"@)
    } else if (id == 0x10c || id == 0x1000004) && features.with_chrono {
        Some(exports + "::gel_protocol::model::LocalDate"@)
    } else if id == 0x10d {
        Some(exports + "::gel_protocol::model::LocalTime"@)
    } else {
        None
    }
}

/// The conversion target that a kind records, if any.
pub open spec fn conversion_target(kind: ConvertionKind) -> Option<Seq<char>> {
    match kind {
        ConvertionKind::Infailable => None,
        ConvertionKind::Fallible { target_token } => Some(target_token@),
    }
}

/// The Rust type of a scalar, the codec constant to import for it, and how
/// values convert into it.
#[derive(Debug)]
pub struct MappedRustType {
    pub token: String,
    pub import: Option<String>,
    pub convertion_kind: ConvertionKind,
}

/// The mapping of a known scalar type.
pub open spec fn mapped_as(m: MappedRustType, id: u128, exports: Seq<char>, features: ConversionFeatures) -> bool {
    &&& token_name(id, exports) == Some(m.token@)
    &&& opt_view(m.import) == import_path(id, exports)
    &&& conversion_target(m.convertion_kind) == fallible_target(id, exports, features)
}

impl MappedRustType {
    /// The mapping of a known scalar type, or `None` for any other identifier.
    pub fn new(uuid: &u128, exports_ident: &str, features: ConversionFeatures) -> (r: Option<
        MappedRustType,
    >)
        ensures
            (r is Some) == (token_name(*uuid, exports_ident@) is Some),
            r matches Some(m) ==> mapped_as(m, *uuid, exports_ident@, features),
    {
        let token_name = match maybe_uuid_to_token_name(uuid, exports_ident) {
            Some(t) => t,
            None => return None,
        };
        let import = maybe_uuid_to_import(uuid, exports_ident);
        let is_fallible = match *uuid {
            0x108 if features.with_bigdecimal => ConvertionKind::Fallible {
                target_token: concat2(exports_ident, "::gel_protocol::model::Decimal"),
            },
            0x110 if features.with_bigint => ConvertionKind::Fallible {
                target_token: concat2(exports_ident, "::gel_protocol::model::BigInt"),
            },
            0x10a if features.with_chrono => ConvertionKind::Fallible {
                target_token: concat2(exports_ident, "::gel_protocol::model::DateTime"),
            },
            0x1000002 if features.with_chrono => ConvertionKind::Fallible {
                target_token: concat2(exports_ident, "::gel_protocol::model::DateTime"),
            },
            0x10b if features.with_chrono => ConvertionKind::Fallible {
                target_token: concat2(exports_ident, "::gel_protocol::model::LocalDatetime"),
            },
            0x1000003 if features.with_chrono => ConvertionKind::Fallible {
                target_token: concat2(exports_ident, "::gel_protocol::model::LocalDatetime"),
            },
            0x10c if features.with_chrono => ConvertionKind::Fallible {
                target_token: concat2(exports_ident, "::gel_protocol::model::LocalDate"),
            },
            0x1000004 if features.with_chrono => ConvertionKind::Fallible {
                target_token: concat2(exports_ident, "::gel_protocol::model::LocalDate"),
            },
            0x10d => ConvertionKind::Fallible {
                target_token: concat2(exports_ident, "::gel_protocol::model::LocalTime"),
            },
            _ => ConvertionKind::Infailable,
        };
        Some(MappedRustType { token: token_name, import, convertion_kind: is_fallible })
    }
}

/// The type a value that no known scalar type describes falls back to.
pub open spec fn fallback_token(exports: Seq<char>) -> Seq<char> {
    exports + "::gel_protocol::value::Value"@
}

/// The mapping of a scalar type: that of a known one, otherwise the dynamic
/// value type with nothing to import and an infallible conversion.
pub fn uuid_to_token_name(uuid: &u128, exports_ident: &str, features: ConversionFeatures) -> (r:
    MappedRustType)
    ensures
        token_name(*uuid, exports_ident@) is Some ==> mapped_as(r, *uuid, exports_ident@, features),
        token_name(*uuid, exports_ident@) is None ==> r.token@ == fallback_token(exports_ident@)
            && r.import is None && r.convertion_kind is Infailable,
{
    match MappedRustType::new(uuid, exports_ident, features) {
        Some(m) => m,
        None => MappedRustType {
            token: concat2(exports_ident, "::gel_protocol::value::Value"),
            import: None,
            convertion_kind: ConvertionKind::Infailable,
        },
    }
}

/// The Rust type for a value of the given cardinality: `()` for no result,
/// `Option<..>` for at most one, `Vec<..>` for many, the type itself for one
/// (or when the cardinality is not known).
pub open spec fn cardinality_type(cardinality: Option<Cardinality>, token: Seq<char>) -> Seq<char> {
    match cardinality {
        None => token,
        Some(Cardinality::NoResult) => "()"@,
        Some(Cardinality::AtMostOne) => "Option<"@ + token + ">"@,
        Some(Cardinality::One) => token,
        Some(Cardinality::Many) | Some(Cardinality::AtLeastOne) => "Vec<"@ + token + ">"@,
    }
}

/// Wraps a type according to the cardinality of its values.
pub fn wrap_token_with_cardinality(cardinality: Option<Cardinality>, token: String) -> (r: String)
    ensures
        r@ == cardinality_type(cardinality, token@),
{
    match cardinality {
        None => token,
        Some(c) => match c {
            Cardinality::NoResult => String::from_str("()"),
            Cardinality::AtMostOne => concat3("Option<", token.as_str(), ">"),
            Cardinality::One => token,
            Cardinality::Many | Cardinality::AtLeastOne => concat3("Vec<", token.as_str(), ">"),
        },
    }
}

/// A field of a struct to generate, in the gel flavour: from an output shape,
/// an input shape or a named tuple.
pub enum StructElement<'a> {
    Shape(&'a ShapeElement),
    InputShape(&'a InputShapeElement),
    Tuple(&'a TupleElement),
}

/// The field's name.
pub open spec fn element_name(e: StructElement<'_>) -> Seq<char> {
    match e {
        StructElement::Shape(s) => s.name@,
        StructElement::InputShape(s) => s.name@,
        StructElement::Tuple(t) => t.name@,
    }
}

/// The position of the field's type.
pub open spec fn element_pos(e: StructElement<'_>) -> TypePos {
    match e {
        StructElement::Shape(s) => s.type_pos,
        StructElement::InputShape(s) => s.type_pos,
        StructElement::Tuple(t) => t.type_pos,
    }
}

/// The field's cardinality; `NoResult` where none is recorded.
pub open spec fn element_cardinality(e: StructElement<'_>) -> Cardinality {
    match e {
        StructElement::Shape(s) => match s.cardinality {
            Some(c) => c,
            None => Cardinality::NoResult,
        },
        StructElement::InputShape(s) => match s.cardinality {
            Some(c) => c,
            None => Cardinality::NoResult,
        },
        StructElement::Tuple(_) => Cardinality::NoResult,
    }
}

/// The text of an optional type: empty when there is none.
pub open spec fn opt_text(token: Option<String>) -> Seq<char> {
    match token {
        Some(t) => t@,
        None => Seq::empty(),
    }
}

impl<'a> StructElement<'a> {
    /// One element per field of an output shape, in order.
    pub fn from_shape(elements: &'a [ShapeElement]) -> (r: Vec<StructElement<'a>>)
        ensures
            r@.len() == elements@.len(),
            forall|i: int| 0 <= i < r@.len() ==> r@[i] == StructElement::Shape(&elements@[i]),
    {
        let mut r: Vec<StructElement<'a>> = Vec::new();
        let mut i: usize = 0;
        while i < elements.len()
            invariant
                0 <= i <= elements@.len(),
                r@.len() == i,
                forall|k: int| 0 <= k < i ==> r@[k] == StructElement::Shape(&elements@[k]),
            decreases elements@.len() - i,
        {
            r.push(StructElement::Shape(&elements[i]));
            i = i + 1;
        }
        r
    }

    /// One element per field of an input shape, in order.
    pub fn from_input_shape(elements: &'a [InputShapeElement]) -> (r: Vec<StructElement<'a>>)
        ensures
            r@.len() == elements@.len(),
            forall|i: int| 0 <= i < r@.len() ==> r@[i] == StructElement::InputShape(&elements@[i]),
    {
        let mut r: Vec<StructElement<'a>> = Vec::new();
        let mut i: usize = 0;
        while i < elements.len()
            invariant
                0 <= i <= elements@.len(),
                r@.len() == i,
                forall|k: int| 0 <= k < i ==> r@[k] == StructElement::InputShape(&elements@[k]),
            decreases elements@.len() - i,
        {
            r.push(StructElement::InputShape(&elements[i]));
            i = i + 1;
        }
        r
    }

    /// One element per field of a named tuple, in order.
    pub fn from_named_tuple(elements: &'a [TupleElement]) -> (r: Vec<StructElement<'a>>)
        ensures
            r@.len() == elements@.len(),
            forall|i: int| 0 <= i < r@.len() ==> r@[i] == StructElement::Tuple(&elements@[i]),
    {
        let mut r: Vec<StructElement<'a>> = Vec::new();
        let mut i: usize = 0;
        while i < elements.len()
            invariant
                0 <= i <= elements@.len(),
                r@.len() == i,
                forall|k: int| 0 <= k < i ==> r@[k] == StructElement::Tuple(&elements@[k]),
            decreases elements@.len() - i,
        {
            r.push(StructElement::Tuple(&elements[i]));
            i = i + 1;
        }
        r
    }

    /// The field's name.
    pub fn name(&self) -> (r: String)
        ensures
            r@ == element_name(*self),
    {
        match self {
            StructElement::Shape(shape) => shape.name.clone(),
            StructElement::InputShape(input_shape) => input_shape.name.clone(),
            StructElement::Tuple(tuple) => tuple.name.clone(),
        }
    }

    /// The position of the field's type.
    pub fn type_pos(&self) -> (r: TypePos)
        ensures
            r == element_pos(*self),
    {
        match self {
            StructElement::Shape(shape) => shape.type_pos,
            StructElement::InputShape(input_shape) => input_shape.type_pos,
            StructElement::Tuple(tuple) => tuple.type_pos,
        }
    }

    /// The field's type: `Option<..>` around the given one for an optional
    /// field, the given one otherwise (empty when there is none).
    pub fn wrap(&self, token: &Option<String>) -> (r: String)
        ensures
            r@ == if element_cardinality(*self) == Cardinality::AtMostOne {
                "Option<"@ + opt_text(*token) + ">"@
            } else {
                opt_text(*token)
            },
    {
        let inner = match token {
            Some(t) => t.clone(),
            None => String::new(),
        };
        if let Cardinality::AtMostOne = self.cardinality() {
            concat3("Option<", inner.as_str(), ">")
        } else {
            inner
        }
    }

    /// The field's cardinality; `NoResult` where none is recorded.
    pub fn cardinality(&self) -> (r: Cardinality)
        ensures
            r == element_cardinality(*self),
    {
        match self {
            StructElement::Shape(shape) => match shape.cardinality {
                Some(c) => c,
                None => Cardinality::NoResult,
            },
            StructElement::InputShape(input_shape) => match input_shape.cardinality {
                Some(c) => c,
                None => Cardinality::NoResult,
            },
            StructElement::Tuple(_) => Cardinality::NoResult,
        }
    }
}

} // verus!
