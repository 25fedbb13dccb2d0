use edgedb_codegen::cardinality::{cardinality_wrapper, Cardinality};
use edgedb_codegen::gelx::{
    maybe_uuid_to_import, maybe_uuid_to_token_name, uuid_to_token_name, wrap_token_with_cardinality,
    ConversionFeatures, ConvertionKind, MappedRustType,
};
use edgedb_codegen::scalars;
use edgedb_codegen::scalars::uuid_to_known_name;
use edgedb_protocol::codec as c;
use gel_protocol::codec as g;

fn gel_cases() -> Vec<(uuid::Uuid, &'static str, &'static str)> {
    vec![
        (g::STD_UUID, "exports::uuid::Uuid", "STD_UUID"),
        (g::STD_STR, "String", "STD_STR"),
        (g::STD_BYTES, "exports::bytes::Bytes", "STD_BYTES"),
        (g::STD_INT16, "i16", "STD_INT16"),
        (g::STD_INT32, "i32", "STD_INT32"),
        (g::STD_INT64, "i64", "STD_INT64"),
        (g::STD_FLOAT32, "f32", "STD_FLOAT32"),
        (g::STD_FLOAT64, "f64", "STD_FLOAT64"),
        (g::STD_DECIMAL, "exports::DecimalAlias", "STD_DECIMAL"),
        (g::STD_BOOL, "bool", "STD_BOOL"),
        (g::STD_DATETIME, "exports::DateTimeAlias", "STD_DATETIME"),
        (g::STD_PG_TIMESTAMPTZ, "exports::DateTimeAlias", "STD_DATETIME"),
        (g::CAL_LOCAL_DATETIME, "exports::LocalDatetimeAlias", "CAL_LOCAL_DATETIME"),
        (g::STD_PG_TIMESTAMP, "exports::LocalDatetimeAlias", "CAL_LOCAL_DATETIME"),
        (g::CAL_LOCAL_DATE, "exports::LocalDateAlias", "CAL_LOCAL_DATE"),
        (g::STD_PG_DATE, "exports::LocalDateAlias", "CAL_LOCAL_DATE"),
        (g::CAL_LOCAL_TIME, "exports::LocalTimeAlias", "CAL_LOCAL_TIME"),
        (g::STD_DURATION, "exports::gel_protocol::model::Duration", "STD_DURATION"),
        (g::CAL_RELATIVE_DURATION, "exports::gel_protocol::model::RelativeDuration", "CAL_RELATIVE_DURATION"),
        (g::CAL_DATE_DURATION, "exports::gel_protocol::model::DateDuration", "CAL_DATE_DURATION"),
        (g::STD_JSON, "exports::gel_protocol::model::Json", "STD_JSON"),
        (g::STD_PG_JSON, "exports::gel_protocol::model::Json", "STD_JSON"),
        (g::STD_BIGINT, "exports::BigIntAlias", "STD_BIGINT"),
        (g::CFG_MEMORY, "exports::gel_protocol::model::ConfigMemory", "CFG_MEMORY"),
        (g::PGVECTOR_VECTOR, "exports::gel_protocol::model::Vector", "PGVECTOR_VECTOR"),
        (g::POSTGIS_GEOMETRY, "exports::Geometry", "POSTGIS_GEOMETRY"),
        (g::POSTGIS_GEOGRAPHY, "exports::Geography", "POSTGIS_GEOGRAPHY"),
    ]
}

#[test]
fn test_maybe_uuid_to_token_name() {
    for (uuid, expected, _) in gel_cases() {
        let result = maybe_uuid_to_token_name(&uuid.as_u128(), "exports");
        assert_eq!(result.as_deref(), Some(expected), "{uuid}");
    }
}

#[test]
fn test_maybe_uuid_to_token_name_none() {
    let default_uuid = uuid::Uuid::default();
    let result = maybe_uuid_to_token_name(&default_uuid.as_u128(), "exports");
    assert!(result.is_none());
}

#[test]
fn test_maybe_uuid_to_import() {
    for (uuid, _, constant) in gel_cases() {
        let result = maybe_uuid_to_import(&uuid.as_u128(), "exports");
        assert_eq!(result, Some(format!("exports::gel_protocol::codec::{constant}")), "{uuid}");
    }
}

#[test]
fn test_maybe_uuid_to_import_none() {
    let default_uuid = uuid::Uuid::default();
    let result = maybe_uuid_to_import(&default_uuid.as_u128(), "exports");
    assert!(result.is_none());
}

#[test]
fn scalar_ids_match_the_protocol() {
    let pairs = [
        (c::STD_UUID, scalars::STD_UUID),
        (c::STD_STR, scalars::STD_STR),
        (c::STD_BYTES, scalars::STD_BYTES),
        (c::STD_INT16, scalars::STD_INT16),
        (c::STD_INT32, scalars::STD_INT32),
        (c::STD_INT64, scalars::STD_INT64),
        (c::STD_FLOAT32, scalars::STD_FLOAT32),
        (c::STD_FLOAT64, scalars::STD_FLOAT64),
        (c::STD_DECIMAL, scalars::STD_DECIMAL),
        (c::STD_BOOL, scalars::STD_BOOL),
        (c::STD_DATETIME, scalars::STD_DATETIME),
        (c::CAL_LOCAL_DATETIME, scalars::CAL_LOCAL_DATETIME),
        (c::CAL_LOCAL_DATE, scalars::CAL_LOCAL_DATE),
        (c::CAL_LOCAL_TIME, scalars::CAL_LOCAL_TIME),
        (c::STD_DURATION, scalars::STD_DURATION),
        (c::STD_JSON, scalars::STD_JSON),
        (c::STD_BIGINT, scalars::STD_BIGINT),
        (c::CAL_RELATIVE_DURATION, scalars::CAL_RELATIVE_DURATION),
        (c::CAL_DATE_DURATION, scalars::CAL_DATE_DURATION),
        (c::CFG_MEMORY, scalars::CFG_MEMORY),
        (c::PGVECTOR_VECTOR, scalars::PGVECTOR_VECTOR),
    ];
    for (protocol, ours) in pairs {
        assert_eq!(protocol.as_u128(), ours);
    }
    let more = [
        (g::STD_PG_JSON, scalars::STD_PG_JSON),
        (g::STD_PG_TIMESTAMPTZ, scalars::STD_PG_TIMESTAMPTZ),
        (g::STD_PG_TIMESTAMP, scalars::STD_PG_TIMESTAMP),
        (g::STD_PG_DATE, scalars::STD_PG_DATE),
        (g::POSTGIS_GEOMETRY, scalars::POSTGIS_GEOMETRY),
        (g::POSTGIS_GEOGRAPHY, scalars::POSTGIS_GEOGRAPHY),
    ];
    for (protocol, ours) in more {
        assert_eq!(protocol.as_u128(), ours);
    }
}

#[test]
fn known_names_of_the_first_generator() {
    assert_eq!(uuid_to_known_name(&scalars::STD_UUID).as_deref(), Some("uuid::Uuid"));
    assert_eq!(uuid_to_known_name(&scalars::STD_BYTES).as_deref(), Some("bytes::Bytes"));
    assert_eq!(
        uuid_to_known_name(&scalars::STD_DATETIME).as_deref(),
        Some("edgedb_protocol::model::DateTime")
    );
    assert_eq!(
        uuid_to_known_name(&scalars::PGVECTOR_VECTOR).as_deref(),
        Some("edgedb_protocol::model::Vector")
    );
    assert_eq!(uuid_to_known_name(&scalars::STD_PG_JSON), None);
    assert_eq!(uuid_to_known_name(&0), None);
}

#[test]
fn mapped_types_and_conversions() {
    let none = ConversionFeatures { with_bigdecimal: false, with_bigint: false, with_chrono: false };
    let all = ConversionFeatures { with_bigdecimal: true, with_bigint: true, with_chrono: true };
    let decimal = MappedRustType::new(&scalars::STD_DECIMAL, "e", none).unwrap();
    assert_eq!(decimal.token, "e::DecimalAlias");
    assert_eq!(decimal.import.as_deref(), Some("e::gel_protocol::codec::STD_DECIMAL"));
    assert!(matches!(decimal.convertion_kind, ConvertionKind::Infailable));
    let decimal = MappedRustType::new(&scalars::STD_DECIMAL, "e", all).unwrap();
    match decimal.convertion_kind {
        ConvertionKind::Fallible { target_token } => {
            assert_eq!(target_token, "e::gel_protocol::model::Decimal")
        }
        ConvertionKind::Infailable => panic!("decimal converts fallibly with bigdecimal"),
    }
    let time = MappedRustType::new(&scalars::CAL_LOCAL_TIME, "e", none).unwrap();
    assert!(matches!(time.convertion_kind, ConvertionKind::Fallible { .. }));
    let stamp = MappedRustType::new(&scalars::STD_PG_TIMESTAMP, "e", all).unwrap();
    match stamp.convertion_kind {
        ConvertionKind::Fallible { target_token } => {
            assert_eq!(target_token, "e::gel_protocol::model::LocalDatetime")
        }
        ConvertionKind::Infailable => panic!("timestamps convert fallibly with chrono"),
    }
    assert!(MappedRustType::new(&0, "e", all).is_none());
    let fallback = uuid_to_token_name(&0, "e", all);
    assert_eq!(fallback.token, "e::gel_protocol::value::Value");
    assert!(fallback.import.is_none());
    assert!(matches!(fallback.convertion_kind, ConvertionKind::Infailable));
    assert!(matches!(ConvertionKind::default(), ConvertionKind::Infailable));
}

#[test]
fn cardinality_wrappers() {
    assert_eq!(cardinality_wrapper(None), (String::new(), String::new()));
    assert_eq!(cardinality_wrapper(Some(Cardinality::One)), (String::new(), String::new()));
    assert_eq!(
        cardinality_wrapper(Some(Cardinality::NoResult)),
        ("Option<".to_string(), ">".to_string())
    );
    assert_eq!(
        cardinality_wrapper(Some(Cardinality::AtLeastOne)),
        ("Vec<".to_string(), ">".to_string())
    );
    assert_eq!(wrap_token_with_cardinality(None, "T".to_string()), "T");
    assert_eq!(wrap_token_with_cardinality(Some(Cardinality::NoResult), "T".to_string()), "()");
    assert_eq!(wrap_token_with_cardinality(Some(Cardinality::AtMostOne), "T".to_string()), "Option<T>");
    assert_eq!(wrap_token_with_cardinality(Some(Cardinality::One), "T".to_string()), "T");
    assert_eq!(wrap_token_with_cardinality(Some(Cardinality::Many), "T".to_string()), "Vec<T>");
}
