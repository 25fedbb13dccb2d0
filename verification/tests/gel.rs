use edgedb_codegen::cardinality::Cardinality;
use edgedb_codegen::descriptor::{
    ArrayTypeDescriptor, BaseScalarTypeDescriptor, InputShapeElement, MultiRangeTypeDescriptor,
    RangeTypeDescriptor, SetDescriptor, ShapeElement, TupleTypeDescriptor, TypePos,
};
use edgedb_codegen::gel_descriptor::{
    GelDescriptor, GelEnumerationTypeDescriptor, GelInputShapeTypeDescriptor,
    GelObjectShapeDescriptor, GelScalarTypeDescriptor, GelTypedesc,
};
use edgedb_codegen::gel_generator::{
    decimal_text, explore_descriptor, explore_enumeration_descriptor, explore_is_supported,
    explore_object_shape_descriptor, generate_query_token_stream, Annotation, ExploreDescriptorProps,
    GelxNames, GenerateError, SchemaType,
};
use edgedb_codegen::gelx::{ConversionFeatures, StructElement};
use edgedb_codegen::query_input::finish_query_file;

const STD_STR: u128 = 0x101;
const STD_INT64: u128 = 0x105;

fn annotation(open: &str, close: &str) -> Annotation {
    Annotation { enabled: true, open: open.to_string(), close: close.to_string() }
}

fn names() -> GelxNames {
    GelxNames {
        exports: "e".to_string(),
        input_struct: "Input".to_string(),
        output_struct: "Output".to_string(),
        query_function: "query".to_string(),
        query_constant: "QUERY".to_string(),
        props_name: "props".to_string(),
        query_prop_name: "client".to_string(),
        query_annotation: "#[cfg(feature = \"query\")]".to_string(),
        serde_rename: annotation("#[cfg_attr(feature = \"serde\", ", ")]"),
        query_rename: annotation("#[cfg_attr(feature = \"query\", ", ")]"),
        builder: annotation("#[", "]"),
        input_derives: "#[derive(Clone, Debug, e::typed_builder::TypedBuilder)]".to_string(),
        output_derives: "#[derive(Clone, Debug)]".to_string(),
        features: ConversionFeatures { with_bigdecimal: false, with_bigint: false, with_chrono: false },
        schema_types: vec![
            SchemaType {
                name: "default::Role".to_string(),
                is_system: false,
                modules_path: Some("default".to_string()),
                rust_name: "Role".to_string(),
                enum_source: "pub enum DefaultRole { Admin }".to_string(),
            },
            SchemaType {
                name: "broken::Kind".to_string(),
                is_system: false,
                modules_path: None,
                rust_name: "Kind".to_string(),
                enum_source: String::new(),
            },
            SchemaType {
                name: "std::str".to_string(),
                is_system: true,
                modules_path: Some("std".to_string()),
                rust_name: "str".to_string(),
                enum_source: String::new(),
            },
        ],
    }
}

fn scalar(id: u128) -> GelDescriptor {
    GelDescriptor::BaseScalar(BaseScalarTypeDescriptor { id })
}

fn shape_field(name: &str, pos: u16, cardinality: Option<Cardinality>) -> ShapeElement {
    ShapeElement {
        flag_implicit: false,
        flag_link_property: false,
        flag_link: false,
        cardinality,
        name: name.to_string(),
        type_pos: TypePos(pos),
    }
}

fn input_field(name: &str, pos: u16, cardinality: Option<Cardinality>) -> InputShapeElement {
    InputShapeElement { cardinality, name: name.to_string(), type_pos: TypePos(pos) }
}

fn props(root: &str, is_input: bool, is_macro: bool, is_root: bool) -> ExploreDescriptorProps {
    ExploreDescriptorProps { is_macro, is_input, is_root, root_name: root.to_string() }
}

fn explore(td: &GelTypedesc, pos: Option<u16>, p: &ExploreDescriptorProps) -> (Result<Option<String>, GenerateError>, Vec<String>) {
    let n = names();
    let mut tokens = Vec::new();
    let r = explore_descriptor(p, td, pos.map(TypePos), &n, &mut tokens);
    (r, tokens)
}

fn query_args_impl(root: &str, args: &str) -> String {
    format!(
        "impl e::gel_protocol::query_arg::QueryArgs for {root} {{\n\tfn encode(&self, encoder: &mut e::gel_protocol::query_arg::Encoder) -> core::result::Result<(), e::gel_errors::Error> {{\n\t\tlet map = e::gel_protocol::named_args! {{\n{args}\n\t\t}};\n\t\tmap.encode(encoder)\n\t}}\n}}"
    )
}

#[test]
fn readme_module_is_generated() {
    let query = "select {hello := \"world\", custom := <str>$custom }";
    let input = GelTypedesc::new(
        vec![
            scalar(STD_STR),
            GelDescriptor::InputShape(GelInputShapeTypeDescriptor {
                id: 2,
                elements: vec![input_field("custom", 0, Some(Cardinality::One))],
            }),
        ],
        Some(TypePos(1)),
    );
    let output = GelTypedesc::new(
        vec![
            scalar(STD_STR),
            GelDescriptor::ObjectShape(GelObjectShapeDescriptor {
                id: 3,
                elements: vec![
                    shape_field("hello", 0, Some(Cardinality::One)),
                    shape_field("custom", 0, Some(Cardinality::One)),
                ],
            }),
        ],
        Some(TypePos(1)),
    );
    let n = names();
    assert!(explore_is_supported(&props("Input", true, false, true), &input, input.root_pos(), &n));
    assert!(explore_is_supported(&props("Output", false, false, true), &output, output.root_pos(), &n));
    let module = generate_query_token_stream(&input, &output, Cardinality::One, "simple", query, &n, false)
        .ok()
        .expect("module");
    let input_struct = format!(
        "#[derive(Clone, Debug, e::typed_builder::TypedBuilder)]\npub struct Input {{\n#[builder(setter(into))]pub custom: String,\n}}\n{}",
        query_args_impl("Input", "\"custom\" => self.custom.clone(),")
    );
    let output_struct = "#[derive(Clone, Debug)]\npub struct Output {\npub hello: String,\npub custom: String,\n}";
    let expected = format!(
        "pub mod simple {{\nuse ::gelx::exports as e;\n/// Execute the desired query.\n#[cfg(feature = \"query\")]\npub async fn query(client: impl e::gel_tokio::QueryExecutor, props: &Input) -> ::core::result::Result<Output, e::gel_errors::Error> {{\nclient.query_required_single(QUERY, props).await\n}}\n{input_struct}\n{output_struct}\n/// The original query string provided to the macro. Can be reused in your codebase.\npub const QUERY: &str = {:?};\n}}",
        query
    );
    assert_eq!(module, expected);
}

#[test]
fn module_without_input_or_output() {
    let nothing = GelTypedesc::new(vec![], None);
    let module = generate_query_token_stream(&nothing, &nothing, Cardinality::NoResult, "deleteAll", "delete User", &names(), false)
        .ok()
        .expect("module");
    assert!(module.starts_with("pub mod delete_all {\n"));
    assert!(module.contains("pub async fn query(client: impl e::gel_tokio::QueryExecutor) -> ::core::result::Result<(), e::gel_errors::Error> {\nclient.execute(QUERY, &()).await\n}\npub type Input = ();\npub type Output = ();\n"));
}

#[test]
fn missing_root_is_unit() {
    let td = GelTypedesc::new(vec![scalar(STD_STR)], None);
    let (r, tokens) = explore(&td, None, &props("Output", false, false, true));
    assert!(matches!(r, Ok(None)));
    assert_eq!(tokens, vec!["pub type Output = ();".to_string()]);
    let (r, tokens) = explore(&td, Some(7), &props("Output", false, false, false));
    assert!(matches!(r, Ok(None)));
    assert!(tokens.is_empty());
}

#[test]
fn sets_arrays_and_ranges_wrap_their_element() {
    let td = GelTypedesc::new(
        vec![
            scalar(STD_STR),
            GelDescriptor::SetOf(SetDescriptor { id: 1, type_pos: TypePos(0) }),
            GelDescriptor::Array(ArrayTypeDescriptor { id: 2, type_pos: TypePos(0), dimensions: vec![None] }),
            scalar(STD_INT64),
            GelDescriptor::Range(RangeTypeDescriptor { id: 3, type_pos: TypePos(3) }),
        ],
        None,
    );
    let (r, tokens) = explore(&td, Some(1), &props("Output", false, false, true));
    assert_eq!(r.ok(), Some(Some("Output".to_string())));
    assert_eq!(tokens, vec!["pub type Output = Vec<String>;".to_string()]);
    let (r, tokens) = explore(&td, Some(2), &props("Output", false, false, false));
    assert_eq!(r.ok(), Some(Some("Vec<String>".to_string())));
    assert!(tokens.is_empty());
    let (r, _) = explore(&td, Some(4), &props("Output", false, false, false));
    assert_eq!(r.ok(), Some(Some("e::gel_protocol::model::Range<i64>".to_string())));
}

#[test]
fn tuple_elements_are_named_by_index() {
    let td = GelTypedesc::new(
        vec![
            scalar(STD_STR),
            GelDescriptor::ObjectShape(GelObjectShapeDescriptor {
                id: 3,
                elements: vec![shape_field("a", 0, Some(Cardinality::One))],
            }),
            GelDescriptor::Tuple(TupleTypeDescriptor { id: 4, element_types: vec![TypePos(0), TypePos(1)] }),
        ],
        None,
    );
    let (r, tokens) = explore(&td, Some(2), &props("Output", false, false, false));
    assert_eq!(r.ok(), Some(Some("(String, Output1)".to_string())));
    assert_eq!(tokens, vec!["#[derive(Clone, Debug)]\npub struct Output1 {\npub a: String,\n}".to_string()]);
}

#[test]
fn renamed_and_optional_fields_get_annotations() {
    let td = GelTypedesc::new(vec![scalar(STD_STR)], None);
    let elements = vec![input_field("firstName", 0, Some(Cardinality::AtMostOne))];
    let elements = StructElement::from_input_shape(&elements);
    let n = names();
    let mut tokens = Vec::new();
    let r = explore_object_shape_descriptor(elements, &td, "Input", true, &n, false, &mut tokens);
    assert_eq!(r.ok(), Some(Some("Input".to_string())));
    let line = "#[cfg_attr(feature = \"serde\", serde(rename = \"firstName\"))]#[cfg_attr(feature = \"query\", gel(rename = \"firstName\"))]#[builder(default, setter(into, strip_option(fallback = first_name_opt)))]pub first_name: Option<String>,";
    let expected = format!(
        "#[derive(Clone, Debug, e::typed_builder::TypedBuilder)]\npub struct Input {{\n{line}\n}}\n{}",
        query_args_impl("Input", "\"firstName\" => self.first_name.clone(),")
    );
    assert_eq!(tokens, vec![expected]);
}

fn named_scalar(name: Option<&str>, base: Option<u16>) -> GelDescriptor {
    GelDescriptor::Scalar(GelScalarTypeDescriptor {
        id: 0x999,
        base_type_pos: base.map(TypePos),
        name: name.map(|n| n.to_string()),
    })
}

#[test]
fn schema_scalars() {
    let td = GelTypedesc::new(
        vec![
            scalar(STD_STR),
            named_scalar(Some("default::Role"), Some(0)),
            named_scalar(Some("unknown::Thing"), Some(0)),
            named_scalar(Some("broken::Kind"), Some(0)),
            named_scalar(None, Some(0)),
            named_scalar(Some("std::str"), None),
        ],
        None,
    );
    let (r, _) = explore(&td, Some(1), &props("Output", false, false, false));
    assert_eq!(r.ok(), Some(Some("super::default::Role".to_string())));
    let (r, _) = explore(&td, Some(1), &props("Output", false, true, false));
    assert_eq!(r.ok(), Some(Some("String".to_string())));
    let (r, _) = explore(&td, Some(2), &props("Output", false, false, false));
    assert!(matches!(r, Err(GenerateError::UnknownType { name }) if name == "unknown::Thing"));
    let (r, _) = explore(&td, Some(3), &props("Output", false, false, false));
    assert!(matches!(r, Err(GenerateError::ModulePath { name }) if name == "broken::Kind"));
    let (r, _) = explore(&td, Some(4), &props("Output", false, false, true));
    assert!(matches!(r, Ok(None)));
    let (r, _) = explore(&td, Some(5), &props("Output", false, false, false));
    assert_eq!(r.ok(), Some(Some("e::gel_protocol::value::Value".to_string())));
}

fn enumeration(name: Option<&str>) -> GelEnumerationTypeDescriptor {
    GelEnumerationTypeDescriptor { id: 9, members: vec!["Admin".to_string()], name: name.map(|n| n.to_string()) }
}

#[test]
fn enumerations() {
    let n = names();
    let mut tokens = Vec::new();
    let r = explore_enumeration_descriptor(&enumeration(Some("default::Role")), &n, &mut tokens);
    assert_eq!(r.ok(), Some("DefaultRole".to_string()));
    assert_eq!(tokens, vec!["pub enum DefaultRole { Admin }".to_string()]);
    let mut tokens = Vec::new();
    let r = explore_enumeration_descriptor(&enumeration(None), &n, &mut tokens);
    assert_eq!(r.ok(), Some("String".to_string()));
    assert!(tokens.is_empty());
    let td = GelTypedesc::new(
        vec![
            GelDescriptor::Enumeration(enumeration(Some("default::Role"))),
            GelDescriptor::Enumeration(enumeration(None)),
        ],
        None,
    );
    let (r, tokens) = explore(&td, Some(0), &props("Output", false, false, true));
    assert_eq!(r.ok(), Some(Some("Output".to_string())));
    assert_eq!(tokens, vec!["pub type Output = super::default::Role;".to_string()]);
    let (r, tokens) = explore(&td, Some(1), &props("Output", false, false, true));
    assert_eq!(r.ok(), Some(Some("String".to_string())));
    assert!(tokens.is_empty());
}

#[test]
fn unsupported_and_self_containing_types() {
    let td = GelTypedesc::new(
        vec![
            GelDescriptor::MultiRange(MultiRangeTypeDescriptor { id: 1, type_pos: TypePos(0) }),
            GelDescriptor::SetOf(SetDescriptor { id: 2, type_pos: TypePos(1) }),
            scalar(STD_STR),
        ],
        None,
    );
    let n = names();
    assert!(!explore_is_supported(&props("Output", false, false, true), &td, Some(TypePos(0)), &n));
    assert!(!explore_is_supported(&props("Output", false, false, true), &td, Some(TypePos(1)), &n));
    assert!(explore_is_supported(&props("Output", false, false, true), &td, Some(TypePos(2)), &n));
    assert!(explore_is_supported(&props("Output", false, false, true), &td, None, &n));
}

#[test]
fn nested_props_are_not_roots() {
    let p = props("Output", true, true, true).into_props("OutputSet".to_string());
    assert!(p.is_input && p.is_macro && !p.is_root);
    assert_eq!(p.root_name, "OutputSet");
}

#[test]
fn decimal_digits() {
    assert_eq!(decimal_text(0), "0");
    assert_eq!(decimal_text(7), "7");
    assert_eq!(decimal_text(10), "10");
    assert_eq!(decimal_text(1234), "1234");
}

#[test]
fn query_files_are_trimmed() {
    assert_eq!(finish_query_file("  select 1;\n\t"), "select 1;");
    assert_eq!(finish_query_file("\u{3000}select 2;\u{85}"), "select 2;");
    assert_eq!(finish_query_file(" \n "), "");
}

#[test]
fn raw_field_names_get_plain_fallbacks() {
    let td = GelTypedesc::new(vec![scalar(STD_STR)], None);
    let elements = vec![input_field("type", 0, Some(Cardinality::AtMostOne))];
    let elements = StructElement::from_input_shape(&elements);
    let n = names();
    let mut tokens = Vec::new();
    let r = explore_object_shape_descriptor(elements, &td, "Input", true, &n, false, &mut tokens);
    assert_eq!(r.ok(), Some(Some("Input".to_string())));
    assert!(tokens[0].contains("#[builder(default, setter(into, strip_option(fallback = type_opt)))]pub r#type: Option<String>,"));
    assert!(tokens[0].contains("serde(rename = \"type\")"));
}
