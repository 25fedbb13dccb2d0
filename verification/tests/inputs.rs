use edgedb_codegen::cardinality::Cardinality;
use edgedb_codegen::constants::{INPUT_NAME, OUTPUT_NAME, QUERY_NAME, TYPES_QUERY};
use edgedb_codegen::descriptor::{InputShapeElement, ShapeElement, TupleElement, TypePos};
use edgedb_codegen::gelx::StructElement;
use edgedb_codegen::paths::{check_query_path, resolve_path, ResolvePathError};
use edgedb_codegen::query_input::{finish_query_file, query_content, QueryContent, ResolveStep};
use edgedb_codegen::tokens::{generate_query_module, pound, s};

#[test]
fn query_content_from_markers() {
    match query_content("insert_user", None) {
        Ok(QueryContent::File(path)) => assert_eq!(path, "queries/insert_user.edgeql"),
        _ => panic!("a module without a query reads its file"),
    }
    match query_content("m", Some(("file".to_string(), "q/a.edgeql".to_string()))) {
        Ok(QueryContent::File(path)) => assert_eq!(path, "q/a.edgeql"),
        _ => panic!("file marker"),
    }
    match query_content("m", Some(("query".to_string(), "select 1".to_string()))) {
        Ok(QueryContent::Query(query)) => assert_eq!(query, "select 1"),
        _ => panic!("query marker"),
    }
    match query_content("m", Some(("other".to_string(), "x".to_string()))) {
        Err(e) => assert_eq!(e.message(), "unexpected marker token: other"),
        _ => panic!("unknown marker"),
    }
}

#[test]
fn resolving_query_sources() {
    match QueryContent::Query("select 1".to_string()).resolve(None) {
        ResolveStep::Ready(q) => assert_eq!(q, "select 1"),
        _ => panic!("inline queries are ready"),
    }
    match QueryContent::File("queries/a.edgeql".to_string()).resolve(Some("/crate".to_string())) {
        ResolveStep::ReadFile(path) => assert_eq!(path, "/crate/queries/a.edgeql"),
        _ => panic!("a file under the crate root"),
    }
    match QueryContent::File("a.edgeql".to_string()).resolve(Some("/crate".to_string())) {
        ResolveStep::Failed(e) => assert_eq!(e, ResolvePathError::RelativeToCurrentFile),
        _ => panic!("bare file names are refused"),
    }
    assert_eq!(finish_query_file("\n  select 1;\n"), "select 1;");
    match query_content("insert_user", None) {
        Ok(content) => match content.resolve(Some("/work/crate".to_string())) {
            ResolveStep::ReadFile(path) => assert_eq!(path, "/work/crate/queries/insert_user.edgeql"),
            _ => panic!("the default query file resolves under the crate root"),
        },
        Err(_) => panic!("a module without a query reads its file"),
    }
}

#[test]
fn resolving_paths() {
    assert_eq!(resolve_path("/abs/q.edgeql", Some("/c".to_string())), Err(ResolvePathError::AbsolutePath));
    assert_eq!(resolve_path("q.edgeql", Some("/c".to_string())), Err(ResolvePathError::RelativeToCurrentFile));
    assert_eq!(resolve_path("q.edgeql", None), Err(ResolvePathError::RelativeToCurrentFile));
    assert_eq!(resolve_path("..", Some("/c".to_string())), Err(ResolvePathError::RelativeToCurrentFile));
    assert_eq!(resolve_path("a/b.edgeql", Some("/c/".to_string())), Ok("/c/a/b.edgeql".to_string()));
    assert_eq!(resolve_path("", Some("/c".to_string())), Err(ResolvePathError::RelativeToCurrentFile));
    assert_eq!(resolve_path("queries/q.edgeql", None), Err(ResolvePathError::ManifestDirMissing));
    assert_eq!(resolve_path("queries/q.edgeql", Some("/c".to_string())), Ok("/c/queries/q.edgeql".to_string()));
    assert_eq!(check_query_path(false, &Some("queries".to_string()), &Some("/c".to_string())), None);
    assert_eq!(check_query_path(false, &Some(String::new()), &None), Some(ResolvePathError::RelativeToCurrentFile));
    assert_eq!(
        ResolvePathError::AbsolutePath.message(),
        "absolute paths will only work on the current machine"
    );
    assert_eq!(
        ResolvePathError::ManifestDirMissing.message(),
        "CARGO_MANIFEST_DIR is not set; please use Cargo to build"
    );
}

#[test]
fn gel_struct_elements() {
    let shape = vec![ShapeElement {
        flag_implicit: false,
        flag_link_property: false,
        flag_link: false,
        cardinality: Some(Cardinality::AtMostOne),
        name: "name".to_string(),
        type_pos: TypePos(1),
    }];
    let input = vec![InputShapeElement { cardinality: None, name: "arg".to_string(), type_pos: TypePos(2) }];
    let tuple = vec![TupleElement { name: "t".to_string(), type_pos: TypePos(3) }];
    let a = StructElement::from_shape(&shape);
    let b = StructElement::from_input_shape(&input);
    let c = StructElement::from_named_tuple(&tuple);
    assert_eq!(a[0].cardinality(), Cardinality::AtMostOne);
    assert_eq!(a[0].wrap(&Some("String".to_string())), "Option<String>");
    assert_eq!(a[0].wrap(&None), "Option<>");
    assert_eq!(b[0].cardinality(), Cardinality::NoResult);
    assert_eq!(b[0].wrap(&Some("i64".to_string())), "i64");
    assert_eq!(b[0].name(), "arg");
    assert_eq!(b[0].type_pos(), TypePos(2));
    assert_eq!(c[0].cardinality(), Cardinality::NoResult);
    assert_eq!(c[0].name(), "t");
    assert_eq!(c[0].type_pos(), TypePos(3));
}

#[test]
fn tokens_and_constants() {
    assert_eq!(pound().as_char(), '#');
    assert_eq!(generate_query_module("unused", ""), "const A: u8 = 100; A");
    s();
    assert_eq!(INPUT_NAME, "Input");
    assert_eq!(OUTPUT_NAME, "Output");
    assert_eq!(QUERY_NAME, "query");
    assert!(TYPES_QUERY.starts_with("WITH"));
}
