use edgedb_codegen::cardinality::Cardinality;
use edgedb_codegen::descriptor::{
    ArrayTypeDescriptor, BaseScalarTypeDescriptor, Descriptor, EnumerationTypeDescriptor,
    NamedTupleTypeDescriptor, ObjectShapeDescriptor, RangeTypeDescriptor, SetDescriptor,
    ShapeElement, TupleElement, TupleTypeDescriptor, TypePos, Typedesc, TypedescError,
};
use edgedb_codegen::generator::{
    explore_descriptor, explore_is_supported, explore_object_shape_descriptor,
    generate_rust_from_query, type_status, StructElement, TypeStatus,
};
use edgedb_codegen::scalars::{STD_INT64, STD_STR, STD_UUID};

const HEADER: &str =
    "#[derive(Debug, Clone, serde::Serialize, serde::Deserialize, edgedb_derive::Queryable)]\npub struct ";
const ARGS_HEAD: &str = " {\n\tfn encode(&self, encoder: &mut edgedb_protocol::query_arg::Encoder) -> Result<(), edgedb_errors::Error> {\n\t\tlet map = edgedb_protocol::named_args! {";
const ARGS_FOOT: &str = "\t\t};\n\t\tmap.encode(encoder)\n\t}\n}";

fn scalar(id: u128) -> Descriptor {
    Descriptor::BaseScalar(BaseScalarTypeDescriptor { id })
}

fn field(name: &str, pos: u16, cardinality: Option<Cardinality>) -> ShapeElement {
    ShapeElement {
        flag_implicit: false,
        flag_link_property: false,
        flag_link: false,
        cardinality,
        name: name.to_string(),
        type_pos: TypePos(pos),
    }
}

fn object(elements: Vec<ShapeElement>) -> Descriptor {
    Descriptor::ObjectShape(ObjectShapeDescriptor { id: 7, elements })
}

fn typedesc(array: Vec<Descriptor>, root: Option<u16>) -> Typedesc {
    Typedesc::new(array, 1, root.map(TypePos))
}

fn explore(td: &Typedesc, pos: u16, root: &str, is_input: bool) -> (Option<String>, Vec<String>) {
    let mut strings = Vec::new();
    let r = explore_descriptor(Some(TypePos(pos)), td, root, is_input, &mut strings);
    (r, strings)
}

#[test]
fn base_scalars_map_to_rust_types() {
    let td = typedesc(vec![scalar(STD_STR), scalar(STD_UUID), scalar(0x999)], None);
    assert_eq!(explore(&td, 0, "Output", false), (Some("String".to_string()), vec![]));
    assert_eq!(explore(&td, 1, "Output", false), (Some("uuid::Uuid".to_string()), vec![]));
    assert_eq!(explore(&td, 2, "Output", false), (None, vec![]));
}

#[test]
fn missing_positions_have_no_type() {
    let td = typedesc(vec![scalar(STD_STR)], None);
    assert_eq!(explore(&td, 5, "Output", false), (None, vec![]));
    let mut strings = vec!["kept".to_string()];
    assert_eq!(explore_descriptor(None, &td, "Output", false, &mut strings), None);
    assert_eq!(strings, vec!["kept".to_string()]);
}

#[test]
fn sets_arrays_tuples_and_enums() {
    let td = typedesc(
        vec![
            scalar(STD_STR),
            scalar(STD_INT64),
            Descriptor::SetOf(SetDescriptor { id: 3, type_pos: TypePos(0) }),
            Descriptor::Array(ArrayTypeDescriptor {
                id: 4,
                type_pos: TypePos(1),
                dimensions: vec![None],
            }),
            Descriptor::Tuple(TupleTypeDescriptor {
                id: 5,
                element_types: vec![TypePos(0), TypePos(1), TypePos(3)],
            }),
            Descriptor::Enumeration(EnumerationTypeDescriptor {
                id: 6,
                members: vec!["Follow".to_string()],
            }),
        ],
        Some(4),
    );
    assert_eq!(explore(&td, 2, "Output", false), (Some("String".to_string()), vec![]));
    assert_eq!(explore(&td, 3, "Output", false), (Some("Vec<i64>".to_string()), vec![]));
    assert_eq!(
        explore(&td, 4, "Output", false),
        (Some("(String, i64, Vec<i64>)".to_string()), vec![])
    );
    assert_eq!(explore(&td, 5, "Output", false), (Some("String".to_string()), vec![]));
}

#[test]
fn object_shape_becomes_struct() {
    let td = typedesc(
        vec![
            scalar(STD_STR),
            scalar(STD_INT64),
            object(vec![
                field("createdAt", 0, Some(Cardinality::One)),
                field("type", 1, Some(Cardinality::AtMostOne)),
                field("numbers", 1, Some(Cardinality::Many)),
            ]),
        ],
        Some(2),
    );
    let (r, strings) = explore(&td, 2, "Output", false);
    assert_eq!(r, Some("Output".to_string()));
    let expected = format!(
        "{HEADER}Output {{\n\tpub created_at: String,\n\tpub r#type: Option<i64>,\n\tpub numbers: Vec<i64>,\n}}"
    );
    assert_eq!(strings, vec![expected, String::new()]);
}

#[test]
fn input_shape_gets_query_args() {
    let td = typedesc(
        vec![scalar(STD_STR), object(vec![field("custom", 0, Some(Cardinality::One))])],
        Some(1),
    );
    let (r, strings) = explore(&td, 1, "Input", true);
    assert_eq!(r, Some("Input".to_string()));
    let expected = format!(
        "{HEADER}Input {{\n\tpub custom: String,\n}}\nimpl QueryArgs for Input{ARGS_HEAD}\n\t\t\t\"custom\" => self.custom.clone(),\n{ARGS_FOOT}"
    );
    assert_eq!(strings, vec![expected, String::new()]);
}

#[test]
fn nested_shapes_are_named_after_their_field() {
    let td = typedesc(
        vec![
            scalar(STD_STR),
            object(vec![field("name", 0, Some(Cardinality::AtMostOne))]),
            object(vec![
                field("slug", 0, Some(Cardinality::One)),
                field("wallets", 1, Some(Cardinality::Many)),
            ]),
        ],
        Some(2),
    );
    let (r, strings) = explore(&td, 2, "Output", false);
    assert_eq!(r, Some("Output".to_string()));
    let inner = format!("{HEADER}OutputWallets {{\n\tpub name: Option<String>,\n}}");
    let outer = format!(
        "{HEADER}Output {{\n\tpub slug: String,\n\tpub wallets: Vec<OutputWallets>,\n}}"
    );
    assert_eq!(strings, vec![outer, format!("{inner}\n")]);
}

#[test]
fn named_tuple_becomes_struct() {
    let td = typedesc(
        vec![
            scalar(STD_STR),
            Descriptor::NamedTuple(NamedTupleTypeDescriptor {
                id: 9,
                elements: vec![TupleElement { name: "fruit".to_string(), type_pos: TypePos(0) }],
            }),
        ],
        Some(1),
    );
    let (r, strings) = explore(&td, 1, "Output", false);
    assert_eq!(r, Some("Output".to_string()));
    assert_eq!(strings, vec![format!("{HEADER}Output {{\n\tpub fruit: String,\n}}"), String::new()]);
}

#[test]
fn untyped_field_abandons_struct() {
    let td = typedesc(
        vec![scalar(0x999), object(vec![field("odd", 0, Some(Cardinality::One))])],
        Some(1),
    );
    let mut strings = vec!["before".to_string()];
    let r = explore_descriptor(Some(TypePos(1)), &td, "Output", false, &mut strings);
    assert_eq!(r, None);
    assert_eq!(strings, vec!["before".to_string()]);
    assert_eq!(type_status(Some(TypePos(1)), &td), TypeStatus::Untyped);
}

#[test]
fn explore_object_shape_directly() {
    let td = typedesc(vec![scalar(STD_STR)], None);
    let elements = vec![field("hello", 0, Some(Cardinality::One))];
    let mut strings = Vec::new();
    let r = explore_object_shape_descriptor(
        StructElement::from_shape(&elements),
        &td,
        "Output",
        false,
        &mut strings,
    );
    assert_eq!(r, Some(format!("{HEADER}Output {{\n\tpub hello: String,\n}}")));
    assert!(strings.is_empty());
}

#[test]
fn struct_elements_report_their_fields() {
    let shapes = vec![field("myField", 3, Some(Cardinality::AtMostOne))];
    let tuples = vec![TupleElement { name: "other".to_string(), type_pos: TypePos(2) }];
    let from_shape = StructElement::from_shape(&shapes);
    let from_tuple = StructElement::from_named_tuple(&tuples);
    assert_eq!(from_shape[0].name(), "myField");
    assert_eq!(from_shape[0].type_pos(), TypePos(3));
    assert_eq!(from_shape[0].wrapper(), ("Option<".to_string(), ">".to_string()));
    assert_eq!(from_tuple[0].name(), "other");
    assert_eq!(from_tuple[0].type_pos(), TypePos(2));
    assert_eq!(from_tuple[0].wrapper(), (String::new(), String::new()));
}

#[test]
fn unsupported_types_are_reported() {
    let td = typedesc(
        vec![
            scalar(STD_INT64),
            Descriptor::Range(RangeTypeDescriptor { id: 2, type_pos: TypePos(0) }),
            Descriptor::Tuple(TupleTypeDescriptor { id: 3, element_types: vec![TypePos(9)] }),
            scalar(0x999),
            Descriptor::Array(ArrayTypeDescriptor {
                id: 4,
                type_pos: TypePos(3),
                dimensions: vec![None],
            }),
            scalar(STD_STR),
        ],
        None,
    );
    assert!(!explore_is_supported(Some(TypePos(1)), &td, "Output", false));
    assert!(!explore_is_supported(Some(TypePos(2)), &td, "Output", false));
    assert!(!explore_is_supported(Some(TypePos(4)), &td, "Output", false));
    assert!(explore_is_supported(Some(TypePos(3)), &td, "Output", false));
    assert!(explore_is_supported(Some(TypePos(5)), &td, "Output", false));
    assert!(explore_is_supported(None, &td, "Output", false));
    assert_eq!(type_status(Some(TypePos(1)), &td), TypeStatus::Unsupported);
    assert_eq!(type_status(Some(TypePos(5)), &td), TypeStatus::Typed);
}

#[test]
fn forward_references_are_followed() {
    let forward = typedesc(
        vec![Descriptor::SetOf(SetDescriptor { id: 1, type_pos: TypePos(1) }), scalar(STD_STR)],
        Some(0),
    );
    assert_eq!(explore(&forward, 0, "Output", false), (Some("String".to_string()), vec![]));
    assert_eq!(type_status(Some(TypePos(0)), &forward), TypeStatus::Typed);
    let dangling = typedesc(vec![Descriptor::SetOf(SetDescriptor { id: 1, type_pos: TypePos(4) })], Some(0));
    assert_eq!(explore(&dangling, 0, "Output", false), (None, vec![]));
    let nothing = Typedesc::nothing();
    assert!(nothing.descriptors().is_empty());
    assert_eq!(nothing.root_pos(), None);
    assert!(nothing.root().is_none());
}

#[test]
fn types_that_contain_themselves_are_not_supported() {
    let cycle = typedesc(
        vec![
            Descriptor::SetOf(SetDescriptor { id: 1, type_pos: TypePos(1) }),
            Descriptor::SetOf(SetDescriptor { id: 2, type_pos: TypePos(0) }),
        ],
        Some(0),
    );
    assert!(!explore_is_supported(Some(TypePos(0)), &cycle, "Output", false));
    assert_eq!(type_status(Some(TypePos(1)), &cycle), TypeStatus::Unsupported);
    let looping_field = typedesc(vec![object(vec![field("me", 0, None)])], Some(0));
    assert!(!explore_is_supported(Some(TypePos(0)), &looping_field, "Output", true));
}

#[test]
fn typedesc_lookups() {
    let td = Typedesc::new(vec![scalar(STD_STR)], 42, Some(TypePos(3)));
    assert_eq!(td.id(), 42);
    assert!(td.get(TypePos(0)).is_ok());
    assert_eq!(td.get(TypePos(1)).err(), Some(TypedescError::UnexpectedTypePos { position: 1 }));
    assert!(td.root().is_none());
}

fn query_fn(props: &str, ret: &str, method: &str, query: &str, args: &str) -> String {
    format!(
        "pub async fn query(client: &edgedb_tokio::Client{props}) -> core::result::Result<{ret}, edgedb_errors:Error> {{\n\tclient.{method}(r#\"{query}\"#, {args}).await\n}}"
    )
}

#[test]
fn module_for_query_with_input() {
    let query = "select {hello := \"world\", custom := <str>$custom }";
    let input = typedesc(
        vec![scalar(STD_STR), object(vec![field("custom", 0, Some(Cardinality::One))])],
        Some(1),
    );
    let output = typedesc(
        vec![
            scalar(STD_STR),
            object(vec![
                field("hello", 0, Some(Cardinality::One)),
                field("custom", 0, Some(Cardinality::One)),
            ]),
        ],
        Some(1),
    );
    let code = generate_rust_from_query("simple", query, &input, &output, Cardinality::One);
    let input_struct = format!(
        "{HEADER}Input {{\n\tpub custom: String,\n}}\nimpl QueryArgs for Input{ARGS_HEAD}\n\t\t\t\"custom\" => self.custom.clone(),\n{ARGS_FOOT}"
    );
    let output_struct = format!("{HEADER}Output {{\n\tpub hello: String,\n\tpub custom: String,\n}}");
    let expected = [
        "pub mod simple {".to_string(),
        input_struct,
        String::new(),
        output_struct,
        String::new(),
        query_fn(", props: &Input", "Output", "query_required_single", query, "props"),
        "}".to_string(),
    ]
    .join("\n");
    assert_eq!(code, expected);
}

#[test]
fn module_for_query_without_input() {
    let query = "select {\"set\", \"of\", \"strings\"}";
    let input = Typedesc::nothing();
    let output = typedesc(vec![scalar(STD_STR)], Some(0));
    let code = generate_rust_from_query("mySet", query, &input, &output, Cardinality::Many);
    let expected = [
        "pub mod my-set {".to_string(),
        query_fn("", "Vec<Output>", "query", query, "&()"),
        "}".to_string(),
    ]
    .join("\n");
    assert_eq!(code, expected);
}

#[test]
fn module_return_types_follow_cardinality() {
    let input = Typedesc::nothing();
    let output = Typedesc::nothing();
    let single = generate_rust_from_query("q", "select 1", &input, &output, Cardinality::AtMostOne);
    assert!(single.contains(&query_fn("", "Option<()>", "query_single", "select 1", "&()")));
    let none = generate_rust_from_query("q", "select 1", &input, &output, Cardinality::NoResult);
    assert!(none.contains(&query_fn("", "Option<()>", "query_single", "select 1", "&()")));
    let many = generate_rust_from_query("q", "select 1", &input, &output, Cardinality::AtLeastOne);
    assert!(many.contains(&query_fn("", "Vec<()>", "query", "select 1", "&()")));
}
