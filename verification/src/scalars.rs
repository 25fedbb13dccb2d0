use vstd::prelude::*;

verus! {

// Identifiers of the scalar types that the server knows by a fixed id.
pub const STD_UUID: u128 = 0x100;
pub const STD_STR: u128 = 0x101;
pub const STD_BYTES: u128 = 0x102;
pub const STD_INT16: u128 = 0x103;
pub const STD_INT32: u128 = 0x104;
pub const STD_INT64: u128 = 0x105;
pub const STD_FLOAT32: u128 = 0x106;
pub const STD_FLOAT64: u128 = 0x107;
pub const STD_DECIMAL: u128 = 0x108;
pub const STD_BOOL: u128 = 0x109;
pub const STD_DATETIME: u128 = 0x10a;
pub const CAL_LOCAL_DATETIME: u128 = 0x10b;
pub const CAL_LOCAL_DATE: u128 = 0x10c;
pub const CAL_LOCAL_TIME: u128 = 0x10d;
pub const STD_DURATION: u128 = 0x10e;
pub const STD_JSON: u128 = 0x10f;
pub const STD_BIGINT: u128 = 0x110;
pub const CAL_RELATIVE_DURATION: u128 = 0x111;
pub const CAL_DATE_DURATION: u128 = 0x112;
pub const CFG_MEMORY: u128 = 0x130;
pub const PGVECTOR_VECTOR: u128 = 0x9565dd88_04f5_11ee_a691_0b6ebe179825;
pub const STD_PG_JSON: u128 = 0x1000001;
pub const STD_PG_TIMESTAMPTZ: u128 = 0x1000002;
pub const STD_PG_TIMESTAMP: u128 = 0x1000003;
pub const STD_PG_DATE: u128 = 0x1000004;
pub const POSTGIS_GEOMETRY: u128 = 0x44c901c0_d922_4894_83c8_061bd05e4840;
pub const POSTGIS_GEOGRAPHY: u128 = 0x4d738878_3a5f_4821_ab76_9d8e7d6b32c4;

/// The Rust type that a known scalar type maps to, by its identifier.
pub open spec fn known_name(id: u128) -> Option<Seq<char>> {
    match id {
        0x100 => Some("uuid::Uuid"@), // STD_UUID
        0x101 => Some("String"@), // STD_STR
        0x102 => Some("bytes::Bytes"@), // STD_BYTES
        0x103 => Some("i16"@), // STD_INT16
        0x104 => Some("i32"@), // STD_INT32
        0x105 => Some("i64"@), // STD_INT64
        0x106 => Some("f32"@), // STD_FLOAT32
        0x107 => Some("f64"@), // STD_FLOAT64
        0x108 => Some("edgedb_protocol::model::Decimal"@), // STD_DECIMAL
        0x109 => Some("bool"@), // STD_BOOL
        0x10a => Some("edgedb_protocol::model::DateTime"@), // STD_DATETIME
        0x10b => Some("edgedb_protocol::model::LocalDateTime"@), // CAL_LOCAL_DATETIME
        0x10c => Some("edgedb_protocol::model::LocalDate"@), // CAL_LOCAL_DATE
        0x10d => Some("edgedb_protocol::model::LocalTime"@), // CAL_LOCAL_TIME
        0x10e => Some("edgedb_protocol::model::Duration"@), // STD_DURATION
        0x111 => Some("edgedb_protocol::model::RelativeDuration"@), // CAL_RELATIVE_DURATION
        0x112 => Some("edgedb_protocol::model::DateDuration"@), // CAL_DATE_DURATION
        0x10f => Some("edgedb_protocol::model::Json"@), // STD_JSON
        0x110 => Some("edgedb_protocol::model::BigInt"@), // STD_BIGINT
        0x130 => Some("edgedb_protocol::model::ConfigMemory"@), // CFG_MEMORY
        0x9565dd88_04f5_11ee_a691_0b6ebe179825 => Some("edgedb_protocol::model::Vector"@), // PGVECTOR_VECTOR
        _ => None,
    }
}

/// The name of the Rust type for a known scalar type, or `None` for any other
/// identifier.
pub fn uuid_to_known_name(uuid: &u128) -> (r: Option<String>)
    ensures
        crate::text::opt_view(r) == known_name(*uuid),
{
    match *uuid {
        0x100 => Some(String::from_str("uuid::Uuid")), // STD_UUID
        0x101 => Some(String::from_str("String")), // STD_STR
        0x102 => Some(String::from_str("bytes::Bytes")), // STD_BYTES
        0x103 => Some(String::from_str("i16")), // STD_INT16
        0x104 => Some(String::from_str("i32")), // STD_INT32
        0x105 => Some(String::from_str("i64")), // STD_INT64
        0x106 => Some(String::from_str("f32")), // STD_FLOAT32
        0x107 => Some(String::from_str("f64")), // STD_FLOAT64
        0x108 => Some(String::from_str("edgedb_protocol::model::Decimal")), // STD_DECIMAL
        0x109 => Some(String::from_str("bool")), // STD_BOOL
        0x10a => Some(String::from_str("edgedb_protocol::model::DateTime")), // STD_DATETIME
        0x10b => Some(String::from_str("edgedb_protocol::model::LocalDateTime")), // CAL_LOCAL_DATETIME
        0x10c => Some(String::from_str("edgedb_protocol::model::LocalDate")), // CAL_LOCAL_DATE
        0x10d => Some(String::from_str("edgedb_protocol::model::LocalTime")), // CAL_LOCAL_TIME
        0x10e => Some(String::from_str("edgedb_protocol::model::Duration")), // STD_DURATION
        0x111 => Some(String::from_str("edgedb_protocol::model::RelativeDuration")), // CAL_RELATIVE_DURATION
        0x112 => Some(String::from_str("edgedb_protocol::model::DateDuration")), // CAL_DATE_DURATION
        0x10f => Some(String::from_str("edgedb_protocol::model::Json")), // STD_JSON
        0x110 => Some(String::from_str("edgedb_protocol::model::BigInt")), // STD_BIGINT
        0x130 => Some(String::from_str("edgedb_protocol::model::ConfigMemory")), // CFG_MEMORY
        0x9565dd88_04f5_11ee_a691_0b6ebe179825 => Some(String::from_str("edgedb_protocol::model::Vector")), // PGVECTOR_VECTOR
        _ => None,
    }
}

} // verus!
