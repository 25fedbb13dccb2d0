use vstd::prelude::*;

use crate::cardinality::Cardinality;
use crate::descriptor::{InputShapeElement, ShapeElement, TupleElement, TypePos};
use crate::gel_descriptor::{GelDescriptor, GelEnumerationTypeDescriptor, GelTypedesc};
use crate::gelx::{
    cardinality_type, fallback_token, token_name, uuid_to_token_name, wrap_token_with_cardinality,
    ConversionFeatures, StructElement,
};
use crate::naming::{into_safe, pascal_case, safe_ident, snake_case, to_pascal_case, to_snake_case};
use crate::text::{concat2, concat3, join_strings, opt_view, seq_join};

verus! {

/// What `<str as Debug>::fmt` writes for a string: the string as a Rust
/// string literal.
pub uninterp spec fn debug_str(s: Seq<char>) -> Seq<char>;

/// Formats a string with `{:?}` (`<str as Debug>::fmt`): the string in
/// double quotes, with quotes, backslashes and unprintable characters
/// escaped. The result is given its name, `debug_str`.
#[verifier::external_body]
fn str_literal(s: &str) -> (r: String)
    ensures
        r@ == debug_str(s@),
{
    format!("{:?}", s)
}

/// An attribute that a feature of the generated code may ask for: with the
/// feature on, the attribute's content is written between `open` and
/// `close`; with it off, nothing is written.
pub struct Annotation {
    pub enabled: bool,
    pub open: String,
    pub close: String,
}

/// The text of an annotation around `inner`.
pub open spec fn annotation_text(a: Annotation, inner: Seq<char>) -> Seq<char> {
    if a.enabled {
        a.open@ + inner + a.close@
    } else {
        Seq::empty()
    }
}

/// What the generator knows of a named type of the schema: whether it lives
/// in a system namespace, the module path it is generated under (none when
/// its name gives no valid path), its Rust name there, and, for an
/// enumeration, the source of the enum that a macro writes inline.
pub struct SchemaType {
    pub name: String,
    pub is_system: bool,
    pub modules_path: Option<String>,
    pub rust_name: String,
    pub enum_source: String,
}

/// The names and code fragments that the project's configuration supplies to
/// the generator.
pub struct GelxNames {
    /// The alias under which the client crates are re-exported.
    pub exports: String,
    pub input_struct: String,
    pub output_struct: String,
    pub query_function: String,
    pub query_constant: String,
    pub props_name: String,
    pub query_prop_name: String,
    /// The attributes put on the query function.
    pub query_annotation: String,
    pub serde_rename: Annotation,
    pub query_rename: Annotation,
    pub builder: Annotation,
    /// The derive attributes of input and of output structs.
    pub input_derives: String,
    pub output_derives: String,
    pub features: ConversionFeatures,
    pub schema_types: Vec<SchemaType>,
}

/// Why generating code for a query failed.
#[derive(Debug)]
pub enum GenerateError {
    /// A descriptor names a schema type that the generator was not told of.
    UnknownType { name: String },
    /// The name of a schema type gives no module path.
    ModulePath { name: String },
}

/// The first schema type with the given name.
pub open spec fn schema_lookup(types: Seq<SchemaType>, name: Seq<char>) -> Option<SchemaType>
    decreases types.len(),
{
    if types.len() == 0 {
        None
    } else if types[0].name@ == name {
        Some(types[0])
    } else {
        schema_lookup(types.drop_first(), name)
    }
}

/// The decimal digits of a number.
pub open spec fn decimal(n: nat) -> Seq<char>
    decreases n,
{
    if n < 10 {
        seq![digit_char(n)]
    } else {
        decimal(n / 10) + seq![digit_char(n % 10)]
    }
}

pub open spec fn digit_char(d: nat) -> char {
    if d == 0 { '0' } else if d == 1 { '1' } else if d == 2 { '2' } else if d == 3 { '3' }
    else if d == 4 { '4' } else if d == 5 { '5' } else if d == 6 { '6' } else if d == 7 { '7' }
    else if d == 8 { '8' } else { '9' }
}

/// What exploring a type yields: a panic (or endless recursion), an error
/// with the lines written before it, or an optional Rust type with the lines
/// of generated code written meanwhile.
#[verifier::ext_equal]
pub enum GelExplored {
    Panics,
    Failed { error: GenerateError, emitted: Seq<Seq<char>> },
    Done { value: Option<Seq<char>>, emitted: Seq<Seq<char>> },
}

/// The state after exploring some elements of a tuple.
#[verifier::ext_equal]
pub enum TupleProgress {
    Panics,
    Failed { error: GenerateError, emitted: Seq<Seq<char>> },
    Items { items: Seq<Seq<char>>, emitted: Seq<Seq<char>> },
}

/// The state after exploring some fields of a struct.
#[verifier::ext_equal]
pub enum FieldsProgress {
    Panics,
    Failed { error: GenerateError, emitted: Seq<Seq<char>> },
    Running { lines: Seq<Seq<char>>, args: Seq<Seq<char>>, emitted: Seq<Seq<char>> },
}

/// What the generator reads of a struct's field.
pub struct GelField {
    pub name: Seq<char>,
    pub pos: TypePos,
    pub cardinality: Cardinality,
}

pub open spec fn card_or_none(c: Option<Cardinality>) -> Cardinality {
    match c {
        Some(c) => c,
        None => Cardinality::NoResult,
    }
}

pub open spec fn shape_fields(elements: Seq<ShapeElement>) -> Seq<GelField> {
    elements.map_values(
        |e: ShapeElement| GelField { name: e.name@, pos: e.type_pos, cardinality: card_or_none(e.cardinality) },
    )
}

pub open spec fn input_fields(elements: Seq<InputShapeElement>) -> Seq<GelField> {
    elements.map_values(
        |e: InputShapeElement| GelField { name: e.name@, pos: e.type_pos, cardinality: card_or_none(e.cardinality) },
    )
}

pub open spec fn tuple_fields(elements: Seq<TupleElement>) -> Seq<GelField> {
    elements.map_values(
        |e: TupleElement| GelField { name: e.name@, pos: e.type_pos, cardinality: Cardinality::NoResult },
    )
}

/// What the generator reads of the elements it is given.
pub open spec fn element_field(e: StructElement<'_>) -> GelField {
    match e {
        StructElement::Shape(s) => GelField { name: s.name@, pos: s.type_pos, cardinality: card_or_none(s.cardinality) },
        StructElement::InputShape(s) => GelField { name: s.name@, pos: s.type_pos, cardinality: card_or_none(s.cardinality) },
        StructElement::Tuple(t) => GelField { name: t.name@, pos: t.type_pos, cardinality: Cardinality::NoResult },
    }
}

pub open spec fn element_fields(elements: Seq<StructElement<'_>>) -> Seq<GelField> {
    elements.map_values(|e: StructElement<'_>| element_field(e))
}

pub open spec fn opt_seq(o: Option<Seq<char>>) -> Seq<char> {
    match o {
        Some(s) => s,
        None => Seq::empty(),
    }
}

/// `pub type {root} = {value};`
pub open spec fn alias_line(root: Seq<char>, value: Seq<char>) -> Seq<char> {
    "pub type "@ + root + " = "@ + value + ";"@
}

/// A type that lives in a module of the generated schema code.
pub open spec fn module_type(modules_path: Seq<char>, rust_name: Seq<char>) -> Seq<char> {
    "super::"@ + modules_path + "::"@ + rust_name
}

/// The Rust type of a scalar type.
pub open spec fn scalar_type(id: u128, names: GelxNames) -> Seq<char> {
    match token_name(id, names.exports@) {
        Some(t) => t,
        None => fallback_token(names.exports@),
    }
}

/// A type is found: a root type is named by an alias, any other is the type
/// itself.
pub open spec fn finish_typed(
    value: Option<Seq<char>>,
    emitted: Seq<Seq<char>>,
    root: Seq<char>,
    is_root: bool,
) -> GelExplored {
    if is_root {
        GelExplored::Done { value: Some(root), emitted: emitted.push(alias_line(root, opt_seq(value))) }
    } else {
        GelExplored::Done { value, emitted }
    }
}

/// A type found inside another one, wrapped between `open` and `close`.
pub open spec fn wrap_sub(
    sub: GelExplored,
    open: Seq<char>,
    close: Seq<char>,
    root: Seq<char>,
    is_root: bool,
) -> GelExplored {
    match sub {
        GelExplored::Panics => GelExplored::Panics,
        GelExplored::Failed { error, emitted } => GelExplored::Failed { error, emitted },
        GelExplored::Done { value, emitted } => finish_typed(
            match value {
                Some(v) => Some(open + v + close),
                None => None,
            },
            emitted,
            root,
            is_root,
        ),
    }
}

/// A type description with no block where one was looked for: a root type
/// becomes the unit type.
pub open spec fn explore_nothing(root: Seq<char>, is_root: bool) -> GelExplored {
    if is_root {
        GelExplored::Done { value: None, emitted: seq![alias_line(root, "()"@)] }
    } else {
        GelExplored::Done { value: None, emitted: Seq::empty() }
    }
}

/// Explores the type at `pos` of `td`, naming the structs and aliases it
/// needs after `root`, entering at most `depth` nested types (one more is
/// reached only by a type that contains itself, where the generator recurses
/// without end: that counts as a panic).
pub open spec fn gel_explore_at(
    td: Seq<GelDescriptor>,
    pos: Option<TypePos>,
    depth: nat,
    root: Seq<char>,
    is_input: bool,
    is_macro: bool,
    is_root: bool,
    names: GelxNames,
) -> GelExplored
    decreases depth, 1int, 0int,
{
    match pos {
        None => explore_nothing(root, is_root),
        Some(p) => if p.0 >= td.len() {
            explore_nothing(root, is_root)
        } else if depth == 0 {
            GelExplored::Panics
        } else {
            let d = (depth - 1) as nat;
            match td[p.0 as int] {
                GelDescriptor::SetOf(s) => wrap_sub(
                    gel_explore_at(td, Some(s.type_pos), d, root + "Set"@, is_input, is_macro, false, names),
                    "Vec<"@,
                    ">"@,
                    root,
                    is_root,
                ),
                GelDescriptor::ObjectShape(o) => gel_object(
                    td,
                    shape_fields(o.elements@),
                    d,
                    root,
                    is_input,
                    is_macro,
                    names,
                ),
                GelDescriptor::BaseScalar(b) => finish_typed(
                    Some(scalar_type(b.id, names)),
                    Seq::empty(),
                    root,
                    is_root,
                ),
                GelDescriptor::Scalar(s) => match s.name {
                    None => GelExplored::Done { value: None, emitted: Seq::empty() },
                    Some(n) => match schema_lookup(names.schema_types@, n@) {
                        None => GelExplored::Failed {
                            error: GenerateError::UnknownType { name: n },
                            emitted: Seq::empty(),
                        },
                        Some(t) => if t.is_system {
                            finish_typed(Some(scalar_type(s.id, names)), Seq::empty(), root, is_root)
                        } else if is_macro {
                            match s.base_type_pos {
                                None => GelExplored::Done { value: None, emitted: Seq::empty() },
                                Some(bp) => gel_explore_at(td, Some(bp), d, root, is_input, is_macro, false, names),
                            }
                        } else {
                            match t.modules_path {
                                None => GelExplored::Failed {
                                    error: GenerateError::ModulePath { name: n },
                                    emitted: Seq::empty(),
                                },
                                Some(m) => GelExplored::Done {
                                    value: Some(module_type(m@, t.rust_name@)),
                                    emitted: Seq::empty(),
                                },
                            }
                        },
                    },
                },
                GelDescriptor::Tuple(t) => match gel_tuple(
                    td,
                    t.element_types@,
                    t.element_types@.len() as int,
                    d,
                    root,
                    is_input,
                    names,
                ) {
                    TupleProgress::Panics => GelExplored::Panics,
                    TupleProgress::Failed { error, emitted } => GelExplored::Failed { error, emitted },
                    TupleProgress::Items { items, emitted } => finish_typed(
                        Some("("@ + seq_join(items, ", "@) + ")"@),
                        emitted,
                        root,
                        is_root,
                    ),
                },
                GelDescriptor::NamedTuple(n) => gel_object(
                    td,
                    tuple_fields(n.elements@),
                    d,
                    root,
                    is_input,
                    is_macro,
                    names,
                ),
                GelDescriptor::Array(a) => wrap_sub(
                    gel_explore_at(td, Some(a.type_pos), d, root + "Array"@, is_input, is_macro, false, names),
                    "Vec<"@,
                    ">"@,
                    root,
                    is_root,
                ),
                GelDescriptor::Enumeration(e) => match enumeration_type(e, names, is_macro) {
                    GelExplored::Done { value, emitted } => if is_macro || e.name is Some {
                        finish_typed(value, emitted, root, is_root)
                    } else {
                        GelExplored::Done { value, emitted }
                    },
                    other => other,
                },
                GelDescriptor::InputShape(o) => gel_object(
                    td,
                    input_fields(o.elements@),
                    d,
                    root,
                    is_input,
                    is_macro,
                    names,
                ),
                GelDescriptor::Range(r) => wrap_sub(
                    gel_explore_at(td, Some(r.type_pos), d, root + "Range"@, is_input, is_macro, false, names),
                    names.exports@ + "::gel_protocol::model::Range<"@,
                    ">"@,
                    root,
                    is_root,
                ),
                _ => GelExplored::Panics,
            }
        },
    }
}

/// The type of an enumeration: with a macro, the enum is written inline (a
/// nameless one is a `String`); otherwise it is the enum of its schema
/// module (and a nameless one is a `String` that needs no alias).
pub open spec fn enumeration_type(e: GelEnumerationTypeDescriptor, names: GelxNames, is_macro: bool) -> GelExplored {
    match e.name {
        None => GelExplored::Done { value: Some("String"@), emitted: Seq::empty() },
        Some(n) => match schema_lookup(names.schema_types@, n@) {
            None => GelExplored::Failed {
                error: GenerateError::UnknownType { name: n },
                emitted: Seq::empty(),
            },
            Some(t) => if is_macro {
                GelExplored::Done {
                    value: Some(safe_ident(pascal_case(n@))),
                    emitted: seq![t.enum_source@],
                }
            } else {
                match t.modules_path {
                    None => GelExplored::Failed {
                        error: GenerateError::ModulePath { name: n },
                        emitted: Seq::empty(),
                    },
                    Some(m) => GelExplored::Done {
                        value: Some(module_type(m@, t.rust_name@)),
                        emitted: Seq::empty(),
                    },
                }
            },
        },
    }
}

/// The types of the first `n` elements of a tuple; element `i` is named
/// after the root followed by `i`.
pub open spec fn gel_tuple(
    td: Seq<GelDescriptor>,
    elements: Seq<TypePos>,
    n: int,
    depth: nat,
    root: Seq<char>,
    is_input: bool,
    names: GelxNames,
) -> TupleProgress
    decreases depth, 2int, n,
{
    if n <= 0 {
        TupleProgress::Items { items: Seq::empty(), emitted: Seq::empty() }
    } else {
        match gel_tuple(td, elements, n - 1, depth, root, is_input, names) {
            TupleProgress::Items { items, emitted } => match gel_explore_at(
                td,
                Some(elements[n - 1]),
                depth,
                root + decimal((n - 1) as nat),
                is_input,
                false,
                false,
                names,
            ) {
                GelExplored::Panics => TupleProgress::Panics,
                GelExplored::Failed { error, emitted: more } => TupleProgress::Failed {
                    error,
                    emitted: emitted + more,
                },
                GelExplored::Done { value, emitted: more } => TupleProgress::Items {
                    items: items.push(opt_seq(value)),
                    emitted: emitted + more,
                },
            },
            other => other,
        }
    }
}

/// The name of a field in the generated struct.
pub open spec fn safe_name(name: Seq<char>) -> Seq<char> {
    safe_ident(snake_case(name))
}

/// An identifier's text without the `r#` that marks a raw identifier, as an
/// identifier built from it by formatting reads.
pub open spec fn unraw(s: Seq<char>) -> Seq<char> {
    if s.len() >= 2 && s[0] == 'r' && s[1] == '#' {
        s.subrange(2, s.len() as int)
    } else {
        s
    }
}

/// The builder settings of an input field, by cardinality.
pub open spec fn builder_fields(c: Cardinality, safe: Seq<char>) -> Option<Seq<char>> {
    match c {
        Cardinality::AtMostOne => Some(
            "default, setter(into, strip_option(fallback = "@ + unraw(safe) + "_opt))"@,
        ),
        Cardinality::One => Some("setter(into)"@),
        Cardinality::Many => Some("default"@),
        _ => None,
    }
}

/// The line of a struct field, with its rename and builder attributes.
pub open spec fn field_text(fd: GelField, value: Option<Seq<char>>, is_input: bool, names: GelxNames) -> Seq<char> {
    let safe = safe_name(fd.name);
    let renamed = safe != fd.name;
    let ty = if fd.cardinality == Cardinality::AtMostOne {
        "Option<"@ + opt_seq(value) + ">"@
    } else {
        opt_seq(value)
    };
    let serde = if renamed {
        annotation_text(names.serde_rename, "serde(rename = "@ + debug_str(fd.name) + ")"@)
    } else {
        Seq::empty()
    };
    let query = if renamed {
        annotation_text(names.query_rename, "gel(rename = "@ + debug_str(fd.name) + ")"@)
    } else {
        Seq::empty()
    };
    let builder = match builder_fields(fd.cardinality, safe) {
        Some(b) => if is_input {
            annotation_text(names.builder, "builder("@ + b + ")"@)
        } else {
            Seq::empty()
        },
        None => Seq::empty(),
    };
    serde + query + builder + "pub "@ + safe + ": "@ + ty + ","@
}

/// The entry of an input field in the encoder of the query's arguments.
pub open spec fn arg_text(name: Seq<char>) -> Seq<char> {
    debug_str(name) + " => self."@ + safe_name(name) + ".clone(),"@
}

/// The `QueryArgs` impl of an input struct.
pub open spec fn query_args_text(root: Seq<char>, args: Seq<Seq<char>>, e: Seq<char>) -> Seq<char> {
    "impl "@ + e + "::gel_protocol::query_arg::QueryArgs for "@ + root
        + " {\n\tfn encode(&self, encoder: &mut "@ + e
        + "::gel_protocol::query_arg::Encoder) -> core::result::Result<(), "@ + e
        + "::gel_errors::Error> {\n\t\tlet map = "@ + e + "::gel_protocol::named_args! {\n"@
        + seq_join(args, "\n"@) + "\n\t\t};\n\t\tmap.encode(encoder)\n\t}\n}"@
}

/// The source of a generated struct: its derives, its fields and, for an
/// input, its `QueryArgs` impl.
pub open spec fn struct_text(
    root: Seq<char>,
    lines: Seq<Seq<char>>,
    args: Seq<Seq<char>>,
    is_input: bool,
    names: GelxNames,
) -> Seq<char> {
    let derives = if is_input {
        names.input_derives@
    } else {
        names.output_derives@
    };
    let body = derives + "\npub struct "@ + root + " {\n"@ + seq_join(lines, "\n"@) + "\n}"@;
    if is_input {
        body + "\n"@ + query_args_text(root, args, names.exports@)
    } else {
        body
    }
}

/// The state after exploring the first `n` fields of a struct.
pub open spec fn gel_fields(
    td: Seq<GelDescriptor>,
    f: Seq<GelField>,
    n: int,
    depth: nat,
    root: Seq<char>,
    is_input: bool,
    is_macro: bool,
    names: GelxNames,
) -> FieldsProgress
    decreases depth, 2int, n,
{
    if n <= 0 {
        FieldsProgress::Running { lines: Seq::empty(), args: Seq::empty(), emitted: Seq::empty() }
    } else {
        match gel_fields(td, f, n - 1, depth, root, is_input, is_macro, names) {
            FieldsProgress::Running { lines, args, emitted } => {
                let fd = f[n - 1];
                match gel_explore_at(
                    td,
                    Some(fd.pos),
                    depth,
                    safe_ident(root + pascal_case(fd.name)),
                    is_input,
                    is_macro,
                    false,
                    names,
                ) {
                    GelExplored::Panics => FieldsProgress::Panics,
                    GelExplored::Failed { error, emitted: more } => FieldsProgress::Failed {
                        error,
                        emitted: emitted + more,
                    },
                    GelExplored::Done { value, emitted: more } => FieldsProgress::Running {
                        lines: lines.push(field_text(fd, value, is_input, names)),
                        args: if is_input {
                            args.push(arg_text(fd.name))
                        } else {
                            args
                        },
                        emitted: emitted + more,
                    },
                }
            },
            other => other,
        }
    }
}

/// Explores a struct with fields `f`: its source is written after that of
/// the types its fields need, and its type is its name.
pub open spec fn gel_object(
    td: Seq<GelDescriptor>,
    f: Seq<GelField>,
    depth: nat,
    root: Seq<char>,
    is_input: bool,
    is_macro: bool,
    names: GelxNames,
) -> GelExplored
    decreases depth, 2int, f.len() + 1,
{
    match gel_fields(td, f, f.len() as int, depth, root, is_input, is_macro, names) {
        FieldsProgress::Panics => GelExplored::Panics,
        FieldsProgress::Failed { error, emitted } => GelExplored::Failed { error, emitted },
        FieldsProgress::Running { lines, args, emitted } => GelExplored::Done {
            value: Some(root),
            emitted: emitted.push(struct_text(root, lines, args, is_input, names)),
        },
    }
}

/// Explores the type at `pos` in a type description of `td.len()` blocks:
/// no chain of nested types longer than that can avoid repeating a block.
pub open spec fn gel_explore_pos(
    td: Seq<GelDescriptor>,
    pos: Option<TypePos>,
    root: Seq<char>,
    is_input: bool,
    is_macro: bool,
    is_root: bool,
    names: GelxNames,
) -> GelExplored {
    gel_explore_at(td, pos, td.len(), root, is_input, is_macro, is_root, names)
}

/// Explores a struct in a type description of `td.len()` blocks.
pub open spec fn gel_explore_object(
    td: Seq<GelDescriptor>,
    f: Seq<GelField>,
    root: Seq<char>,
    is_input: bool,
    is_macro: bool,
    names: GelxNames,
) -> GelExplored {
    gel_object(td, f, td.len(), root, is_input, is_macro, names)
}

/// The call's result agrees with the outcome of exploring: the same error or
/// type, and the lines written.
pub open spec fn explored_as(
    e: GelExplored,
    r: Result<Option<String>, GenerateError>,
    before: Seq<Seq<char>>,
    after: Seq<Seq<char>>,
) -> bool {
    match e {
        GelExplored::Panics => false,
        GelExplored::Failed { error, emitted } => r == Err::<Option<String>, GenerateError>(error)
            && after == before + emitted,
        GelExplored::Done { value, emitted } => r matches Ok(v) && opt_view(v) == value && after
            == before + emitted,
    }
}

fn push_line(strings: &mut Vec<String>, line: String)
    ensures
        final(strings).deep_view() == old(strings).deep_view().push(line@),
{
    strings.push(line);
    assert(strings.deep_view() =~= old(strings).deep_view().push(line@));
}

fn digit_text(d: usize) -> (r: String)
    requires
        d < 10,
    ensures
        r@ == seq![digit_char(d as nat)],
{
    proof {
        reveal_strlit("0");
        reveal_strlit("1");
        reveal_strlit("2");
        reveal_strlit("3");
        reveal_strlit("4");
        reveal_strlit("5");
        reveal_strlit("6");
        reveal_strlit("7");
        reveal_strlit("8");
        reveal_strlit("9");
    }
    let s = if d == 0 {
        "0"
    } else if d == 1 {
        "1"
    } else if d == 2 {
        "2"
    } else if d == 3 {
        "3"
    } else if d == 4 {
        "4"
    } else if d == 5 {
        "5"
    } else if d == 6 {
        "6"
    } else if d == 7 {
        "7"
    } else if d == 8 {
        "8"
    } else {
        "9"
    };
    let r = String::from_str(s);
    assert(r@ =~= seq![digit_char(d as nat)]);
    r
}

/// The decimal digits of a number.
pub fn decimal_text(n: usize) -> (r: String)
    ensures
        r@ == decimal(n as nat),
    decreases n,
{
    if n < 10 {
        digit_text(n)
    } else {
        let mut s = decimal_text(n / 10);
        let d = digit_text(n % 10);
        s.append(d.as_str());
        s
    }
}

/// An identifier's text without its raw marker.
fn unraw_text(s: &str) -> (r: String)
    ensures
        r@ == unraw(s@),
{
    let n = s.unicode_len();
    if n >= 2 && s.get_char(0) == 'r' && s.get_char(1) == '#' {
        s.substring_char(2, n).to_owned()
    } else {
        s.to_owned()
    }
}

/// The schema type with the given name, if the generator was told of one.
fn find_schema_type<'a>(types: &'a Vec<SchemaType>, name: &String) -> (r: Option<&'a SchemaType>)
    ensures
        match r {
            Some(t) => schema_lookup(types@, name@) == Some(*t),
            None => schema_lookup(types@, name@) is None,
        },
{
    let mut i: usize = 0;
    assert(types@.subrange(0, types@.len() as int) =~= types@);
    while i < types.len()
        invariant
            0 <= i <= types@.len(),
            schema_lookup(types@, name@) == schema_lookup(types@.subrange(i as int, types@.len() as int), name@),
        decreases types@.len() - i,
    {
        let ghost rest = types@.subrange(i as int, types@.len() as int);
        assert(rest.drop_first() =~= types@.subrange(i + 1, types@.len() as int));
        assert(rest[0] == types@[i as int]);
        if types[i].name == *name {
            return Some(&types[i]);
        }
        i = i + 1;
    }
    assert(types@.subrange(i as int, types@.len() as int).len() == 0);
    None
}

/// The Rust type of a scalar type.
fn scalar_type_text(id: &u128, names: &GelxNames) -> (r: String)
    ensures
        r@ == scalar_type(*id, *names),
{
    uuid_to_token_name(id, names.exports.as_str(), names.features).token
}

fn annotation(a: &Annotation, inner: &str) -> (r: String)
    ensures
        r@ == annotation_text(*a, inner@),
{
    if a.enabled {
        concat3(a.open.as_str(), inner, a.close.as_str())
    } else {
        String::new()
    }
}

/// A type is found: a root type is named by an alias, any other is the type
/// itself.
fn finish_typed_exec(
    value: Option<String>,
    root_name: &str,
    is_root: bool,
    tokens: &mut Vec<String>,
    Ghost(emitted): Ghost<Seq<Seq<char>>>,
    Ghost(before): Ghost<Seq<Seq<char>>>,
) -> (r: Result<Option<String>, GenerateError>)
    requires
        old(tokens).deep_view() == before + emitted,
    ensures
        explored_as(finish_typed(opt_view(value), emitted, root_name@, is_root), r, before, final(tokens).deep_view()),
{
    if is_root {
        let text = match value {
            Some(v) => v,
            None => String::new(),
        };
        let mut line = concat3("pub type ", root_name, " = ");
        line.append(text.as_str());
        line.append(";");
        push_line(tokens, line);
        assert(tokens.deep_view() =~= before + emitted.push(alias_line(root_name@, opt_seq(opt_view(value)))));
        Ok(Some(root_name.to_owned()))
    } else {
        Ok(value)
    }
}

/// Builds the props of a type nested in another: the same direction and
/// mode, not a root.
pub struct ExploreDescriptorProps {
    pub is_macro: bool,
    pub is_input: bool,
    pub is_root: bool,
    pub root_name: String,
}

impl ExploreDescriptorProps {
    /// The props for a type nested in this one, named `root_name`.
    pub fn into_props(&self, root_name: String) -> (r: ExploreDescriptorProps)
        ensures
            r.is_macro == self.is_macro,
            r.is_input == self.is_input,
            !r.is_root,
            r.root_name == root_name,
    {
        ExploreDescriptorProps { is_macro: self.is_macro, is_input: self.is_input, is_root: false, root_name }
    }
}

/// Explores the type at `pos` (a root type names an alias of it), writing to
/// `tokens` the source of the structs and aliases it needs: gives back the
/// type, or the error met.
pub fn explore_descriptor(
    props: &ExploreDescriptorProps,
    typedesc: &GelTypedesc,
    pos: Option<TypePos>,
    names: &GelxNames,
    tokens: &mut Vec<String>,
) -> (r: Result<Option<String>, GenerateError>)
    requires
        !(gel_explore_pos(typedesc@, pos, props.root_name@, props.is_input, props.is_macro, props.is_root, *names) is Panics),
    ensures
        explored_as(
            gel_explore_pos(typedesc@, pos, props.root_name@, props.is_input, props.is_macro, props.is_root, *names),
            r,
            old(tokens).deep_view(),
            final(tokens).deep_view(),
        ),
{
    explore_within(
        pos,
        typedesc.descriptors().len(),
        props.is_input,
        props.is_macro,
        props.is_root,
        props.root_name.as_str(),
        typedesc,
        names,
        tokens,
    )
}

/// Explores the type at `pos`, entering at most `depth` nested types.
fn explore_within(
    pos: Option<TypePos>,
    depth: usize,
    is_input: bool,
    is_macro: bool,
    is_root: bool,
    root_name: &str,
    typedesc: &GelTypedesc,
    names: &GelxNames,
    tokens: &mut Vec<String>,
) -> (r: Result<Option<String>, GenerateError>)
    requires
        !(gel_explore_at(typedesc@, pos, depth as nat, root_name@, is_input, is_macro, is_root, *names) is Panics),
    ensures
        explored_as(
            gel_explore_at(typedesc@, pos, depth as nat, root_name@, is_input, is_macro, is_root, *names),
            r,
            old(tokens).deep_view(),
            final(tokens).deep_view(),
        ),
    decreases depth, 1int, 0int,
{
    let ghost td = typedesc@;
    let ghost t0 = tokens.deep_view();
    assert(t0 + Seq::<Seq<char>>::empty() =~= t0);
    let found = match pos {
        Some(p) => match typedesc.get(p) {
            Ok(d) => Some(d),
            Err(_) => None,
        },
        None => None,
    };
    let descriptor = match found {
        Some(d) => d,
        None => {
            if is_root {
                let line = concat3("pub type ", root_name, " = ();");
                proof {
                    reveal_strlit(" = ();");
                    reveal_strlit(" = ");
                    reveal_strlit("()");
                    reveal_strlit(";");
                    assert(" = ();"@ =~= " = "@ + "()"@ + ";"@);
                    assert(line@ =~= alias_line(root_name@, "()"@));
                }
                push_line(tokens, line);
                assert(tokens.deep_view() =~= t0 + seq![alias_line(root_name@, "()"@)]);
            }
            return Ok(None);
        },
    };
    if depth == 0 {
        assert(false);
        return Ok(None);
    }
    let d = depth - 1;
    match descriptor {
        GelDescriptor::SetOf(set) => {
            let sub = concat2(root_name, "Set");
            let inner = explore_within(Some(set.type_pos), d, is_input, is_macro, false, sub.as_str(), typedesc, names, tokens);
            let ghost e = gel_explore_at(td, Some(set.type_pos), d as nat, sub@, is_input, is_macro, false, *names);
            match inner {
                Err(err) => Err(err),
                Ok(v) => {
                    let w = match v {
                        Some(x) => Some(concat3("Vec<", x.as_str(), ">")),
                        None => None,
                    };
                    finish_typed_exec(w, root_name, is_root, tokens, Ghost(e->Done_emitted), Ghost(t0))
                },
            }
        },
        GelDescriptor::Array(array) => {
            let sub = concat2(root_name, "Array");
            let inner = explore_within(Some(array.type_pos), d, is_input, is_macro, false, sub.as_str(), typedesc, names, tokens);
            let ghost e = gel_explore_at(td, Some(array.type_pos), d as nat, sub@, is_input, is_macro, false, *names);
            match inner {
                Err(err) => Err(err),
                Ok(v) => {
                    let w = match v {
                        Some(x) => Some(concat3("Vec<", x.as_str(), ">")),
                        None => None,
                    };
                    finish_typed_exec(w, root_name, is_root, tokens, Ghost(e->Done_emitted), Ghost(t0))
                },
            }
        },
        GelDescriptor::Range(range) => {
            let sub = concat2(root_name, "Range");
            let inner = explore_within(Some(range.type_pos), d, is_input, is_macro, false, sub.as_str(), typedesc, names, tokens);
            let ghost e = gel_explore_at(td, Some(range.type_pos), d as nat, sub@, is_input, is_macro, false, *names);
            match inner {
                Err(err) => Err(err),
                Ok(v) => {
                    let w = match v {
                        Some(x) => {
                            let mut t = concat2(names.exports.as_str(), "::gel_protocol::model::Range<");
                            t.append(x.as_str());
                            t.append(">");
                            Some(t)
                        },
                        None => None,
                    };
                    finish_typed_exec(w, root_name, is_root, tokens, Ghost(e->Done_emitted), Ghost(t0))
                },
            }
        },
        GelDescriptor::ObjectShape(object) => {
            let elements = StructElement::from_shape(object.elements.as_slice());
            proof {
                assert(element_fields(elements@) =~= shape_fields(object.elements@));
            }
            object_within(elements, d, root_name, is_input, is_macro, typedesc, names, tokens)
        },
        GelDescriptor::NamedTuple(named_tuple) => {
            let elements = StructElement::from_named_tuple(named_tuple.elements.as_slice());
            proof {
                assert(element_fields(elements@) =~= tuple_fields(named_tuple.elements@));
            }
            object_within(elements, d, root_name, is_input, is_macro, typedesc, names, tokens)
        },
        GelDescriptor::InputShape(object) => {
            let elements = StructElement::from_input_shape(object.elements.as_slice());
            proof {
                assert(element_fields(elements@) =~= input_fields(object.elements@));
            }
            object_within(elements, d, root_name, is_input, is_macro, typedesc, names, tokens)
        },
        GelDescriptor::BaseScalar(base_scalar) => {
            let t = scalar_type_text(&base_scalar.id, names);
            finish_typed_exec(Some(t), root_name, is_root, tokens, Ghost(Seq::empty()), Ghost(t0))
        },
        GelDescriptor::Scalar(scalar) => {
            let name = match &scalar.name {
                Some(n) => n,
                None => {
                    return Ok(None);
                },
            };
            let schema_type = match find_schema_type(&names.schema_types, name) {
                Some(t) => t,
                None => {
                    return Err(GenerateError::UnknownType { name: name.clone() });
                },
            };
            if schema_type.is_system {
                let t = scalar_type_text(&scalar.id, names);
                finish_typed_exec(Some(t), root_name, is_root, tokens, Ghost(Seq::empty()), Ghost(t0))
            } else if is_macro {
                match scalar.base_type_pos {
                    None => Ok(None),
                    Some(bp) => explore_within(Some(bp), d, is_input, is_macro, false, root_name, typedesc, names, tokens),
                }
            } else {
                match &schema_type.modules_path {
                    None => Err(GenerateError::ModulePath { name: name.clone() }),
                    Some(m) => {
                        let mut t = concat3("super::", m.as_str(), "::");
                        t.append(schema_type.rust_name.as_str());
                        Ok(Some(t))
                    },
                }
            }
        },
        GelDescriptor::Enumeration(enumeration) => {
            let ghost e = enumeration_type(*enumeration, *names, is_macro);
            let t = if is_macro {
                explore_enumeration_descriptor(enumeration, names, tokens)
            } else {
                match &enumeration.name {
                    None => {
                        return Ok(Some(String::from_str("String")));
                    },
                    Some(n) => match find_schema_type(&names.schema_types, n) {
                        None => {
                            return Err(GenerateError::UnknownType { name: n.clone() });
                        },
                        Some(st) => match &st.modules_path {
                            None => {
                                return Err(GenerateError::ModulePath { name: n.clone() });
                            },
                            Some(m) => {
                                let mut t = concat3("super::", m.as_str(), "::");
                                t.append(st.rust_name.as_str());
                                Ok(t)
                            },
                        },
                    },
                }
            };
            match t {
                Err(err) => Err(err),
                Ok(t) => finish_typed_exec(Some(t), root_name, is_root, tokens, Ghost(e->Done_emitted), Ghost(t0)),
            }
        },
        GelDescriptor::Tuple(tuple) => {
            let ghost fin = gel_tuple(td, tuple.element_types@, tuple.element_types@.len() as int, d as nat, root_name@, is_input, *names);
            match explore_tuple(&tuple.element_types, d, is_input, root_name, typedesc, names, tokens) {
                Err(err) => Err(err),
                Ok(t) => finish_typed_exec(Some(t), root_name, is_root, tokens, Ghost(fin->Items_emitted), Ghost(t0)),
            }
        },
        _ => {
            assert(false);
            Ok(None)
        },
    }
}

/// The type of a tuple: its elements' types, each explored under the root
/// name followed by its index, between parentheses.
fn explore_tuple(
    element_types: &Vec<TypePos>,
    d: usize,
    is_input: bool,
    root_name: &str,
    typedesc: &GelTypedesc,
    names: &GelxNames,
    tokens: &mut Vec<String>,
) -> (r: Result<String, GenerateError>)
    requires
        !(gel_tuple(typedesc@, element_types@, element_types@.len() as int, d as nat, root_name@, is_input, *names) is Panics),
    ensures
        match gel_tuple(typedesc@, element_types@, element_types@.len() as int, d as nat, root_name@, is_input, *names) {
            TupleProgress::Items { items, emitted } => r matches Ok(t) && t@ == "("@ + seq_join(items, ", "@) + ")"@
                && final(tokens).deep_view() == old(tokens).deep_view() + emitted,
            TupleProgress::Failed { error, emitted } => r == Err::<String, GenerateError>(error)
                && final(tokens).deep_view() == old(tokens).deep_view() + emitted,
            TupleProgress::Panics => false,
        },
    decreases d, 2int, 0int,
{
    let ghost td = typedesc@;
    let ghost t0 = tokens.deep_view();
    let ghost els = element_types@;
    assert(t0 + Seq::<Seq<char>>::empty() =~= t0);
    let n = element_types.len();
    let mut items: Vec<String> = Vec::new();
    let mut i: usize = 0;
    while i < n
        invariant
            td == typedesc@,
            t0 == old(tokens).deep_view(),
            n == els.len(),
            els == element_types@,
            0 <= i <= n,
            !(gel_tuple(td, els, n as int, d as nat, root_name@, is_input, *names) is Panics),
            gel_tuple(td, els, i as int, d as nat, root_name@, is_input, *names) matches TupleProgress::Items {
                items: its,
                emitted,
            } && items.deep_view() == its && tokens.deep_view() == t0 + emitted,
        decreases n - i,
    {
        proof {
            lemma_gel_tuple_stable(td, els, i + 1, n as int, d as nat, root_name@, is_input, *names);
        }
        let ghost prev = gel_tuple(td, els, i as int, d as nat, root_name@, is_input, *names);
        let sub = concat2(root_name, decimal_text(i).as_str());
        let element = element_types[i];
        let ghost e = gel_explore_at(td, Some(element), d as nat, sub@, is_input, false, false, *names);
        match explore_within(Some(element), d, is_input, false, false, sub.as_str(), typedesc, names, tokens) {
            Err(err) => {
                proof {
                    assert(tokens.deep_view() =~= t0 + (prev->Items_emitted + e->Failed_emitted));
                    assert(gel_tuple(td, els, i + 1, d as nat, root_name@, is_input, *names) == TupleProgress::Failed {
                        error: e->Failed_error,
                        emitted: prev->Items_emitted + e->Failed_emitted,
                    });
                    lemma_gel_tuple_stable(td, els, i + 1, n as int, d as nat, root_name@, is_input, *names);
                }
                return Err(err);
            },
            Ok(v) => {
                let text = match v {
                    Some(x) => x,
                    None => String::new(),
                };
                push_line(&mut items, text);
                proof {
                    assert(tokens.deep_view() =~= t0 + (prev->Items_emitted + e->Done_emitted));
                }
            },
        }
        i = i + 1;
    }
    let inner = join_strings(&items, ", ");
    Ok(concat3("(", inner.as_str(), ")"))
}

/// The type of an enumeration written inline by a macro: its enum's source
/// is written to `tokens` and its type is its name in Pascal case, made
/// safe; a nameless enumeration is a `String`.
pub fn explore_enumeration_descriptor(
    enumeration: &GelEnumerationTypeDescriptor,
    names: &GelxNames,
    tokens: &mut Vec<String>,
) -> (r: Result<String, GenerateError>)
    ensures
        match enumeration_type(*enumeration, *names, true) {
            GelExplored::Done { value, emitted } => r matches Ok(t) && value == Some(t@)
                && final(tokens).deep_view() == old(tokens).deep_view() + emitted,
            GelExplored::Failed { error, emitted } => r == Err::<String, GenerateError>(error)
                && final(tokens).deep_view() == old(tokens).deep_view() + emitted,
            GelExplored::Panics => false,
        },
{
    assert(old(tokens).deep_view() + Seq::<Seq<char>>::empty() =~= old(tokens).deep_view());
    let name = match &enumeration.name {
        Some(n) => n,
        None => {
            return Ok(String::from_str("String"));
        },
    };
    let schema_type = match find_schema_type(&names.schema_types, name) {
        Some(t) => t,
        None => {
            return Err(GenerateError::UnknownType { name: name.clone() });
        },
    };
    let rust_name = into_safe(to_pascal_case(name.as_str()));
    push_line(tokens, schema_type.enum_source.clone());
    assert(tokens.deep_view() =~= old(tokens).deep_view() + seq![schema_type.enum_source@]);
    Ok(rust_name)
}

/// Once a tuple fails or panics, it stays so for later elements.
pub proof fn lemma_gel_tuple_stable(
    td: Seq<GelDescriptor>,
    elements: Seq<TypePos>,
    k: int,
    n: int,
    depth: nat,
    root: Seq<char>,
    is_input: bool,
    names: GelxNames,
)
    requires
        0 <= k <= n,
    ensures
        !(gel_tuple(td, elements, k, depth, root, is_input, names) is Items) ==> gel_tuple(
            td,
            elements,
            n,
            depth,
            root,
            is_input,
            names,
        ) == gel_tuple(td, elements, k, depth, root, is_input, names),
    decreases n - k,
{
    if k < n {
        lemma_gel_tuple_stable(td, elements, k + 1, n, depth, root, is_input, names);
    }
}

/// Once a struct's fields fail or panic, they stay so for later fields.
pub proof fn lemma_gel_fields_stable(
    td: Seq<GelDescriptor>,
    f: Seq<GelField>,
    k: int,
    n: int,
    depth: nat,
    root: Seq<char>,
    is_input: bool,
    is_macro: bool,
    names: GelxNames,
)
    requires
        0 <= k <= n,
    ensures
        !(gel_fields(td, f, k, depth, root, is_input, is_macro, names) is Running) ==> gel_fields(
            td,
            f,
            n,
            depth,
            root,
            is_input,
            is_macro,
            names,
        ) == gel_fields(td, f, k, depth, root, is_input, is_macro, names),
    decreases n - k,
{
    if k < n {
        lemma_gel_fields_stable(td, f, k + 1, n, depth, root, is_input, is_macro, names);
    }
}

/// Generates the struct `root_name` with one field per element, writing it
/// to `tokens` after the source of the types its fields need: gives back the
/// struct's name, or the error met.
pub fn explore_object_shape_descriptor(
    elements: Vec<StructElement<'_>>,
    typedesc: &GelTypedesc,
    root_name: &str,
    is_input: bool,
    names: &GelxNames,
    is_macro: bool,
    tokens: &mut Vec<String>,
) -> (r: Result<Option<String>, GenerateError>)
    requires
        !(gel_explore_object(typedesc@, element_fields(elements@), root_name@, is_input, is_macro, *names) is Panics),
    ensures
        explored_as(
            gel_explore_object(typedesc@, element_fields(elements@), root_name@, is_input, is_macro, *names),
            r,
            old(tokens).deep_view(),
            final(tokens).deep_view(),
        ),
{
    object_within(elements, typedesc.descriptors().len(), root_name, is_input, is_macro, typedesc, names, tokens)
}

/// Generates a struct, entering at most `depth` nested types in its fields.
fn object_within(
    elements: Vec<StructElement<'_>>,
    depth: usize,
    root_name: &str,
    is_input: bool,
    is_macro: bool,
    typedesc: &GelTypedesc,
    names: &GelxNames,
    tokens: &mut Vec<String>,
) -> (r: Result<Option<String>, GenerateError>)
    requires
        !(gel_object(typedesc@, element_fields(elements@), depth as nat, root_name@, is_input, is_macro, *names) is Panics),
    ensures
        explored_as(
            gel_object(typedesc@, element_fields(elements@), depth as nat, root_name@, is_input, is_macro, *names),
            r,
            old(tokens).deep_view(),
            final(tokens).deep_view(),
        ),
    decreases depth, 2int, 0int,
{
    let ghost td = typedesc@;
    let ghost f = element_fields(elements@);
    let ghost root = root_name@;
    let ghost t0 = tokens.deep_view();
    let ghost dn = depth as nat;
    assert(t0 + Seq::<Seq<char>>::empty() =~= t0);
    let mut lines: Vec<String> = Vec::new();
    let mut args: Vec<String> = Vec::new();
    let n = elements.len();
    let mut i: usize = 0;
    while i < n
        invariant
            td == typedesc@,
            f == element_fields(elements@),
            root == root_name@,
            dn == depth as nat,
            t0 == old(tokens).deep_view(),
            n == elements.len(),
            f.len() == n,
            0 <= i <= n,
            !(gel_fields(td, f, n as int, dn, root, is_input, is_macro, *names) is Panics),
            gel_fields(td, f, i as int, dn, root, is_input, is_macro, *names) matches FieldsProgress::Running {
                lines: ls,
                args: ags,
                emitted,
            } && lines.deep_view() == ls && args.deep_view() == ags && tokens.deep_view() == t0 + emitted,
        decreases n - i,
    {
        proof {
            lemma_gel_fields_stable(td, f, i + 1, n as int, dn, root, is_input, is_macro, *names);
        }
        let ghost prev = gel_fields(td, f, i as int, dn, root, is_input, is_macro, *names);
        let element = &elements[i];
        assert(f[i as int] == element_field(*element));
        let name = element.name();
        let safe = into_safe(to_snake_case(name.as_str()));
        let pascal = to_pascal_case(name.as_str());
        let sub_root = into_safe(concat2(root_name, pascal.as_str()));
        let type_pos = element.type_pos();
        let ghost e = gel_explore_at(td, Some(type_pos), dn, sub_root@, is_input, is_macro, false, *names);
        let output = match explore_within(Some(type_pos), depth, is_input, is_macro, false, sub_root.as_str(), typedesc, names, tokens) {
            Err(err) => {
                proof {
                    assert(tokens.deep_view() =~= t0 + (prev->Running_emitted + e->Failed_emitted));
                    assert(gel_fields(td, f, i + 1, dn, root, is_input, is_macro, *names) == FieldsProgress::Failed {
                        error: e->Failed_error,
                        emitted: prev->Running_emitted + e->Failed_emitted,
                    });
                    lemma_gel_fields_stable(td, f, i + 1, n as int, dn, root, is_input, is_macro, *names);
                    assert(gel_object(td, f, dn, root, is_input, is_macro, *names) == GelExplored::Failed {
                        error: e->Failed_error,
                        emitted: prev->Running_emitted + e->Failed_emitted,
                    });
                }
                return Err(err);
            },
            Ok(v) => v,
        };
        let ghost value = opt_view(output);
        let output_token = element.wrap(&output);
        let renamed = !(safe == name);
        let serde = if renamed {
            let lit = str_literal(name.as_str());
            let inner = concat3("serde(rename = ", lit.as_str(), ")");
            annotation(&names.serde_rename, inner.as_str())
        } else {
            String::new()
        };
        let query = if renamed {
            let lit = str_literal(name.as_str());
            let inner = concat3("gel(rename = ", lit.as_str(), ")");
            annotation(&names.query_rename, inner.as_str())
        } else {
            String::new()
        };
        let cardinality = element.cardinality();
        let fields: Option<String> = match cardinality {
            Cardinality::AtMostOne => {
                let plain = unraw_text(safe.as_str());
                let mut b = concat2("default, setter(into, strip_option(fallback = ", plain.as_str());
                b.append("_opt))");
                Some(b)
            },
            Cardinality::One => Some(String::from_str("setter(into)")),
            Cardinality::Many => Some(String::from_str("default")),
            _ => None,
        };
        let builder = match fields {
            Some(b) => if is_input {
                let inner = concat3("builder(", b.as_str(), ")");
                annotation(&names.builder, inner.as_str())
            } else {
                String::new()
            },
            None => String::new(),
        };
        let mut line = serde;
        line.append(query.as_str());
        line.append(builder.as_str());
        line.append("pub ");
        line.append(safe.as_str());
        line.append(": ");
        line.append(output_token.as_str());
        line.append(",");
        push_line(&mut lines, line);
        if is_input {
            let mut arg = str_literal(name.as_str());
            arg.append(" => self.");
            arg.append(safe.as_str());
            arg.append(".clone(),");
            push_line(&mut args, arg);
        }
        proof {
            let fd = f[i as int];
            assert(fd.name == name@);
            assert(tokens.deep_view() =~= t0 + (prev->Running_emitted + e->Done_emitted));
            assert(line@ == field_text(fd, value, is_input, *names));
        }
        i = i + 1;
    }
    let fields_text = join_strings(&lines, "\n");
    let derives = if is_input {
        names.input_derives.clone()
    } else {
        names.output_derives.clone()
    };
    let mut text = derives;
    text.append("\npub struct ");
    text.append(root_name);
    text.append(" {\n");
    text.append(fields_text.as_str());
    text.append("\n}");
    if is_input {
        let e = names.exports.as_str();
        let mut imp = concat3("impl ", e, "::gel_protocol::query_arg::QueryArgs for ");
        imp.append(root_name);
        imp.append(" {\n\tfn encode(&self, encoder: &mut ");
        imp.append(e);
        imp.append("::gel_protocol::query_arg::Encoder) -> core::result::Result<(), ");
        imp.append(e);
        imp.append("::gel_errors::Error> {\n\t\tlet map = ");
        imp.append(e);
        imp.append("::gel_protocol::named_args! {\n");
        let args_text = join_strings(&args, "\n");
        imp.append(args_text.as_str());
        imp.append("\n\t\t};\n\t\tmap.encode(encoder)\n\t}\n}");
        text.append("\n");
        text.append(imp.as_str());
    }
    let ghost fin = gel_fields(td, f, n as int, dn, root, is_input, is_macro, *names);
    proof {
        assert(text@ == struct_text(root, fin->Running_lines, fin->Running_args, is_input, *names));
    }
    push_line(tokens, text);
    Ok(Some(root_name.to_owned()))
}

/// The client method that runs a query of the given result cardinality.
pub open spec fn gel_query_method(c: Cardinality) -> Seq<char> {
    match c {
        Cardinality::NoResult => "execute"@,
        Cardinality::AtMostOne => "query_single"@,
        Cardinality::One => "query_required_single"@,
        Cardinality::Many | Cardinality::AtLeastOne => "query"@,
    }
}

/// The type description has a root block.
pub open spec fn has_gel_root(td: Seq<GelDescriptor>, pos: Option<TypePos>) -> bool {
    pos matches Some(p) && p.0 < td.len()
}

/// The parameters of the query function.
pub open spec fn query_props(has_input: bool, names: GelxNames) -> Seq<Seq<char>> {
    let executor = names.query_prop_name@ + ": impl "@ + names.exports@ + "::gel_tokio::QueryExecutor"@;
    if has_input {
        seq![executor, names.props_name@ + ": &"@ + names.input_struct@]
    } else {
        seq![executor]
    }
}

/// The arguments the query function passes to the client.
pub open spec fn query_args(has_input: bool, names: GelxNames) -> Seq<Seq<char>> {
    seq![names.query_constant@, if has_input { names.props_name@ } else { "&()"@ }]
}

/// The source of the module generated for a query: the query function, the
/// generated types, and the query text as a constant.
pub open spec fn gel_module_text(
    name: Seq<char>,
    query_literal: Seq<char>,
    has_input: bool,
    has_output: bool,
    cardinality: Cardinality,
    names: GelxNames,
    tokens: Seq<Seq<char>>,
) -> Seq<char> {
    let e = names.exports@;
    let inner = if has_output {
        names.output_struct@
    } else {
        "()"@
    };
    "pub mod "@ + snake_case(name) + " {\nuse ::gelx::exports as "@ + e
        + ";\n/// Execute the desired query.\n"@ + names.query_annotation@ + "\npub async fn "@
        + names.query_function@ + "("@ + seq_join(query_props(has_input, names), ", "@)
        + ") -> ::core::result::Result<"@ + cardinality_type(Some(cardinality), inner) + ", "@ + e
        + "::gel_errors::Error> {\n"@ + names.query_prop_name@ + "."@ + gel_query_method(cardinality)
        + "("@ + seq_join(query_args(has_input, names), ", "@) + ").await\n}\n"@ + seq_join(tokens, "\n"@)
        + "\n/// The original query string provided to the macro. Can be reused in your codebase.\npub const "@
        + names.query_constant@ + ": &str = "@ + query_literal + ";\n}"@
}

/// The module generated for a query, or the first error met exploring its
/// input, then its output.
pub open spec fn gelx_module(
    input: Seq<GelDescriptor>,
    input_root: Option<TypePos>,
    output: Seq<GelDescriptor>,
    output_root: Option<TypePos>,
    cardinality: Cardinality,
    name: Seq<char>,
    query: Seq<char>,
    names: GelxNames,
    is_macro: bool,
) -> Result<Seq<char>, GenerateError> {
    match gel_explore_pos(input, input_root, names.input_struct@, true, is_macro, true, names) {
        GelExplored::Failed { error, .. } => Err(error),
        GelExplored::Done { emitted: input_tokens, .. } => match gel_explore_pos(
            output,
            output_root,
            names.output_struct@,
            false,
            is_macro,
            true,
            names,
        ) {
            GelExplored::Failed { error, .. } => Err(error),
            GelExplored::Done { emitted: output_tokens, .. } => Ok(
                gel_module_text(
                    name,
                    debug_str(query),
                    has_gel_root(input, input_root),
                    has_gel_root(output, output_root),
                    cardinality,
                    names,
                    input_tokens + output_tokens,
                ),
            ),
            GelExplored::Panics => Ok(Seq::empty()),
        },
        GelExplored::Panics => Ok(Seq::empty()),
    }
}

/// Generates the module for the query `query` named `name` from the type
/// descriptions of its input and output and its result cardinality: the
/// query function, the input and output types, and the query constant.
#[verifier::rlimit(30)]
pub fn generate_query_token_stream(
    input: &GelTypedesc,
    output: &GelTypedesc,
    result_cardinality: Cardinality,
    name: &str,
    query: &str,
    names: &GelxNames,
    is_macro: bool,
) -> (r: Result<String, GenerateError>)
    requires
        !(gel_explore_pos(input@, input.spec_root_pos(), names.input_struct@, true, is_macro, true, *names) is Panics),
        !(gel_explore_pos(output@, output.spec_root_pos(), names.output_struct@, false, is_macro, true, *names) is Panics),
    ensures
        match gelx_module(
            input@,
            input.spec_root_pos(),
            output@,
            output.spec_root_pos(),
            result_cardinality,
            name@,
            query@,
            *names,
            is_macro,
        ) {
            Ok(t) => r matches Ok(s) && s@ == t,
            Err(e) => r == Err::<String, GenerateError>(e),
        },
{
    let mut tokens: Vec<String> = Vec::new();
    let input_props = ExploreDescriptorProps {
        is_macro,
        is_input: true,
        is_root: true,
        root_name: names.input_struct.clone(),
    };
    let output_props = ExploreDescriptorProps {
        is_macro,
        is_input: false,
        is_root: true,
        root_name: names.output_struct.clone(),
    };
    let ghost t0 = tokens.deep_view();
    match explore_descriptor(&input_props, input, input.root_pos(), names, &mut tokens) {
        Err(e) => {
            return Err(e);
        },
        Ok(_) => {},
    }
    let ghost t1 = tokens.deep_view();
    match explore_descriptor(&output_props, output, output.root_pos(), names, &mut tokens) {
        Err(e) => {
            return Err(e);
        },
        Ok(_) => {},
    }
    let has_input = match input.root_pos() {
        Some(p) => (p.0 as usize) < input.descriptors().len(),
        None => false,
    };
    let has_output = match output.root_pos() {
        Some(p) => (p.0 as usize) < output.descriptors().len(),
        None => false,
    };
    let e = names.exports.as_str();
    let method = match result_cardinality {
        Cardinality::NoResult => String::from_str("execute"),
        Cardinality::AtMostOne => String::from_str("query_single"),
        Cardinality::One => String::from_str("query_required_single"),
        Cardinality::Many | Cardinality::AtLeastOne => String::from_str("query"),
    };
    let mut props: Vec<String> = Vec::new();
    let mut executor = concat3(names.query_prop_name.as_str(), ": impl ", e);
    executor.append("::gel_tokio::QueryExecutor");
    push_line(&mut props, executor);
    if has_input {
        push_line(&mut props, concat3(names.props_name.as_str(), ": &", names.input_struct.as_str()));
    }
    let mut args: Vec<String> = Vec::new();
    push_line(&mut args, names.query_constant.clone());
    if has_input {
        push_line(&mut args, names.props_name.clone());
    } else {
        push_line(&mut args, String::from_str("&()"));
    }
    let inner = if has_output {
        names.output_struct.clone()
    } else {
        String::from_str("()")
    };
    let return_type = wrap_token_with_cardinality(Some(result_cardinality), inner);
    let module_name = to_snake_case(name);
    let mut text = concat3("pub mod ", module_name.as_str(), " {\nuse ::gelx::exports as ");
    text.append(e);
    text.append(";\n/// Execute the desired query.\n");
    text.append(names.query_annotation.as_str());
    text.append("\npub async fn ");
    text.append(names.query_function.as_str());
    text.append("(");
    text.append(join_strings(&props, ", ").as_str());
    text.append(") -> ::core::result::Result<");
    text.append(return_type.as_str());
    text.append(", ");
    text.append(e);
    text.append("::gel_errors::Error> {\n");
    text.append(names.query_prop_name.as_str());
    text.append(".");
    text.append(method.as_str());
    text.append("(");
    text.append(join_strings(&args, ", ").as_str());
    text.append(").await\n}\n");
    text.append(join_strings(&tokens, "\n").as_str());
    text.append("\n/// The original query string provided to the macro. Can be reused in your codebase.\npub const ");
    text.append(names.query_constant.as_str());
    text.append(": &str = ");
    text.append(str_literal(query).as_str());
    text.append(";\n}");
    proof {
        let hi = has_gel_root(input@, input.spec_root_pos());
        let ho = has_gel_root(output@, output.spec_root_pos());
        assert(has_input == hi);
        assert(has_output == ho);
        assert(props.deep_view() =~= query_props(hi, *names));
        assert(args.deep_view() =~= query_args(hi, *names));
        assert(method@ == gel_query_method(result_cardinality));
    }
    Ok(text)
}

/// How exploring a type ends, whatever names it is explored under: with a
/// panic, with an error, or with a type (or none).
#[derive(Clone, Copy, Debug, PartialEq, Eq, Structural)]
pub enum GelStatus {
    Panics,
    Fails,
    Finishes,
}

pub open spec fn status_of(e: GelExplored) -> GelStatus {
    match e {
        GelExplored::Panics => GelStatus::Panics,
        GelExplored::Failed { .. } => GelStatus::Fails,
        GelExplored::Done { .. } => GelStatus::Finishes,
    }
}

/// The status of the type at `pos`, entering at most `depth` nested types.
pub open spec fn gel_status_at(
    td: Seq<GelDescriptor>,
    pos: Option<TypePos>,
    depth: nat,
    is_macro: bool,
    names: GelxNames,
) -> GelStatus
    decreases depth, 1int, 0int,
{
    match pos {
        None => GelStatus::Finishes,
        Some(p) => if p.0 >= td.len() {
            GelStatus::Finishes
        } else if depth == 0 {
            GelStatus::Panics
        } else {
            let d = (depth - 1) as nat;
            match td[p.0 as int] {
                GelDescriptor::SetOf(s) => gel_status_at(td, Some(s.type_pos), d, is_macro, names),
                GelDescriptor::ObjectShape(o) => gel_fields_status(td, shape_fields(o.elements@), o.elements@.len() as int, d, is_macro, names),
                GelDescriptor::BaseScalar(_) => GelStatus::Finishes,
                GelDescriptor::Scalar(s) => match s.name {
                    None => GelStatus::Finishes,
                    Some(n) => match schema_lookup(names.schema_types@, n@) {
                        None => GelStatus::Fails,
                        Some(t) => if t.is_system {
                            GelStatus::Finishes
                        } else if is_macro {
                            match s.base_type_pos {
                                None => GelStatus::Finishes,
                                Some(bp) => gel_status_at(td, Some(bp), d, is_macro, names),
                            }
                        } else if t.modules_path is None {
                            GelStatus::Fails
                        } else {
                            GelStatus::Finishes
                        },
                    },
                },
                GelDescriptor::Tuple(t) => gel_tuple_status(td, t.element_types@, t.element_types@.len() as int, d, names),
                GelDescriptor::NamedTuple(n) => gel_fields_status(td, tuple_fields(n.elements@), n.elements@.len() as int, d, is_macro, names),
                GelDescriptor::Array(a) => gel_status_at(td, Some(a.type_pos), d, is_macro, names),
                GelDescriptor::Enumeration(e) => status_of(enumeration_type(e, names, is_macro)),
                GelDescriptor::InputShape(o) => gel_fields_status(td, input_fields(o.elements@), o.elements@.len() as int, d, is_macro, names),
                GelDescriptor::Range(r) => gel_status_at(td, Some(r.type_pos), d, is_macro, names),
                _ => GelStatus::Panics,
            }
        },
    }
}

/// The status of the first `n` elements of a tuple.
pub open spec fn gel_tuple_status(
    td: Seq<GelDescriptor>,
    elements: Seq<TypePos>,
    n: int,
    depth: nat,
    names: GelxNames,
) -> GelStatus
    decreases depth, 2int, n,
{
    if n <= 0 {
        GelStatus::Finishes
    } else {
        match gel_tuple_status(td, elements, n - 1, depth, names) {
            GelStatus::Finishes => gel_status_at(td, Some(elements[n - 1]), depth, false, names),
            other => other,
        }
    }
}

/// The status of the first `n` fields of a struct.
pub open spec fn gel_fields_status(
    td: Seq<GelDescriptor>,
    f: Seq<GelField>,
    n: int,
    depth: nat,
    is_macro: bool,
    names: GelxNames,
) -> GelStatus
    decreases depth, 2int, n,
{
    if n <= 0 {
        GelStatus::Finishes
    } else {
        match gel_fields_status(td, f, n - 1, depth, is_macro, names) {
            GelStatus::Finishes => gel_status_at(td, Some(f[n - 1].pos), depth, is_macro, names),
            other => other,
        }
    }
}

/// The status of a type does not depend on the names it is explored under,
/// on its direction, or on whether it is a root.
pub proof fn lemma_gel_status_at(
    td: Seq<GelDescriptor>,
    pos: Option<TypePos>,
    depth: nat,
    root: Seq<char>,
    is_input: bool,
    is_macro: bool,
    is_root: bool,
    names: GelxNames,
)
    ensures
        gel_status_at(td, pos, depth, is_macro, names) == status_of(
            gel_explore_at(td, pos, depth, root, is_input, is_macro, is_root, names),
        ),
    decreases depth, 1int, 0int,
{
    if let Some(p) = pos {
        if p.0 < td.len() && depth > 0 {
            let d = (depth - 1) as nat;
            match td[p.0 as int] {
                GelDescriptor::SetOf(s) => {
                    lemma_gel_status_at(td, Some(s.type_pos), d, root + "Set"@, is_input, is_macro, false, names);
                },
                GelDescriptor::ObjectShape(o) => {
                    let f = shape_fields(o.elements@);
                    assert(f.len() == o.elements@.len());
                    lemma_gel_fields_status(td, f, f.len() as int, d, root, is_input, is_macro, names);
                    assert(gel_object(td, f, d, root, is_input, is_macro, names) == match gel_fields(
                        td, f, f.len() as int, d, root, is_input, is_macro, names) {
                        FieldsProgress::Panics => GelExplored::Panics,
                        FieldsProgress::Failed { error, emitted } => GelExplored::Failed { error, emitted },
                        FieldsProgress::Running { lines, args, emitted } => GelExplored::Done {
                            value: Some(root),
                            emitted: emitted.push(struct_text(root, lines, args, is_input, names)),
                        },
                    });
                },
                GelDescriptor::Scalar(s) => {
                    if let Some(bp) = s.base_type_pos {
                        lemma_gel_status_at(td, Some(bp), d, root, is_input, is_macro, false, names);
                    }
                },
                GelDescriptor::Tuple(t) => {
                    lemma_gel_tuple_status(td, t.element_types@, t.element_types@.len() as int, d, root, is_input, names);
                },
                GelDescriptor::NamedTuple(n) => {
                    let f = tuple_fields(n.elements@);
                    assert(f.len() == n.elements@.len());
                    lemma_gel_fields_status(td, f, f.len() as int, d, root, is_input, is_macro, names);
                    assert(gel_object(td, f, d, root, is_input, is_macro, names) == match gel_fields(
                        td, f, f.len() as int, d, root, is_input, is_macro, names) {
                        FieldsProgress::Panics => GelExplored::Panics,
                        FieldsProgress::Failed { error, emitted } => GelExplored::Failed { error, emitted },
                        FieldsProgress::Running { lines, args, emitted } => GelExplored::Done {
                            value: Some(root),
                            emitted: emitted.push(struct_text(root, lines, args, is_input, names)),
                        },
                    });
                },
                GelDescriptor::Array(a) => {
                    lemma_gel_status_at(td, Some(a.type_pos), d, root + "Array"@, is_input, is_macro, false, names);
                },
                GelDescriptor::InputShape(o) => {
                    let f = input_fields(o.elements@);
                    assert(f.len() == o.elements@.len());
                    lemma_gel_fields_status(td, f, f.len() as int, d, root, is_input, is_macro, names);
                    assert(gel_object(td, f, d, root, is_input, is_macro, names) == match gel_fields(
                        td, f, f.len() as int, d, root, is_input, is_macro, names) {
                        FieldsProgress::Panics => GelExplored::Panics,
                        FieldsProgress::Failed { error, emitted } => GelExplored::Failed { error, emitted },
                        FieldsProgress::Running { lines, args, emitted } => GelExplored::Done {
                            value: Some(root),
                            emitted: emitted.push(struct_text(root, lines, args, is_input, names)),
                        },
                    });
                },
                GelDescriptor::Range(r) => {
                    lemma_gel_status_at(td, Some(r.type_pos), d, root + "Range"@, is_input, is_macro, false, names);
                },
                _ => {},
            }
        }
    }
}

pub proof fn lemma_gel_tuple_status(
    td: Seq<GelDescriptor>,
    elements: Seq<TypePos>,
    n: int,
    depth: nat,
    root: Seq<char>,
    is_input: bool,
    names: GelxNames,
)
    ensures
        gel_tuple_status(td, elements, n, depth, names) == match gel_tuple(td, elements, n, depth, root, is_input, names) {
            TupleProgress::Panics => GelStatus::Panics,
            TupleProgress::Failed { .. } => GelStatus::Fails,
            TupleProgress::Items { .. } => GelStatus::Finishes,
        },
    decreases depth, 2int, n,
{
    if n > 0 {
        lemma_gel_tuple_status(td, elements, n - 1, depth, root, is_input, names);
        lemma_gel_status_at(td, Some(elements[n - 1]), depth, root + decimal((n - 1) as nat), is_input, false, false, names);
    }
}

pub proof fn lemma_gel_fields_status(
    td: Seq<GelDescriptor>,
    f: Seq<GelField>,
    n: int,
    depth: nat,
    root: Seq<char>,
    is_input: bool,
    is_macro: bool,
    names: GelxNames,
)
    requires
        n <= f.len(),
    ensures
        gel_fields_status(td, f, n, depth, is_macro, names) == match gel_fields(td, f, n, depth, root, is_input, is_macro, names) {
            FieldsProgress::Panics => GelStatus::Panics,
            FieldsProgress::Failed { .. } => GelStatus::Fails,
            FieldsProgress::Running { .. } => GelStatus::Finishes,
        },
    decreases depth, 2int, n,
{
    if n > 0 {
        lemma_gel_fields_status(td, f, n - 1, depth, root, is_input, is_macro, names);
        let fd = f[n - 1];
        lemma_gel_status_at(td, Some(fd.pos), depth, safe_ident(root + pascal_case(fd.name)), is_input, is_macro, false, names);
    }
}

/// The status of the type at `pos`, entering at most `depth` nested types.
fn status_within(
    pos: Option<TypePos>,
    depth: usize,
    is_macro: bool,
    typedesc: &GelTypedesc,
    names: &GelxNames,
) -> (r: GelStatus)
    ensures
        r == gel_status_at(typedesc@, pos, depth as nat, is_macro, *names),
    decreases depth, 1int, 0int,
{
    let found = match pos {
        Some(p) => match typedesc.get(p) {
            Ok(d) => Some(d),
            Err(_) => None,
        },
        None => None,
    };
    let descriptor = match found {
        Some(d) => d,
        None => return GelStatus::Finishes,
    };
    if depth == 0 {
        return GelStatus::Panics;
    }
    let d = depth - 1;
    match descriptor {
        GelDescriptor::SetOf(set) => status_within(Some(set.type_pos), d, is_macro, typedesc, names),
        GelDescriptor::Array(array) => status_within(Some(array.type_pos), d, is_macro, typedesc, names),
        GelDescriptor::Range(range) => status_within(Some(range.type_pos), d, is_macro, typedesc, names),
        GelDescriptor::ObjectShape(object) => {
            let elements = StructElement::from_shape(object.elements.as_slice());
            assert(element_fields(elements@) =~= shape_fields(object.elements@));
            fields_status_within(&elements, d, is_macro, typedesc, names)
        },
        GelDescriptor::NamedTuple(named_tuple) => {
            let elements = StructElement::from_named_tuple(named_tuple.elements.as_slice());
            assert(element_fields(elements@) =~= tuple_fields(named_tuple.elements@));
            fields_status_within(&elements, d, is_macro, typedesc, names)
        },
        GelDescriptor::InputShape(object) => {
            let elements = StructElement::from_input_shape(object.elements.as_slice());
            assert(element_fields(elements@) =~= input_fields(object.elements@));
            fields_status_within(&elements, d, is_macro, typedesc, names)
        },
        GelDescriptor::BaseScalar(_) => GelStatus::Finishes,
        GelDescriptor::Scalar(scalar) => {
            let name = match &scalar.name {
                Some(n) => n,
                None => return GelStatus::Finishes,
            };
            match find_schema_type(&names.schema_types, name) {
                None => GelStatus::Fails,
                Some(t) => if t.is_system {
                    GelStatus::Finishes
                } else if is_macro {
                    match scalar.base_type_pos {
                        None => GelStatus::Finishes,
                        Some(bp) => status_within(Some(bp), d, is_macro, typedesc, names),
                    }
                } else if t.modules_path.is_none() {
                    GelStatus::Fails
                } else {
                    GelStatus::Finishes
                },
            }
        },
        GelDescriptor::Enumeration(enumeration) => {
            let name = match &enumeration.name {
                Some(n) => n,
                None => return GelStatus::Finishes,
            };
            match find_schema_type(&names.schema_types, name) {
                None => GelStatus::Fails,
                Some(t) => if is_macro || t.modules_path.is_some() {
                    GelStatus::Finishes
                } else {
                    GelStatus::Fails
                },
            }
        },
        GelDescriptor::Tuple(tuple) => {
            let ghost td = typedesc@;
            let ghost els = tuple.element_types@;
            let n = tuple.element_types.len();
            let mut i: usize = 0;
            while i < n
                invariant
                    td == typedesc@,
                    n == els.len(),
                    els == tuple.element_types@,
                    0 <= i <= n,
                    d < depth,
                    gel_tuple_status(td, els, i as int, d as nat, *names) == GelStatus::Finishes,
                    gel_status_at(td, pos, depth as nat, is_macro, *names) == gel_tuple_status(td, els, n as int, d as nat, *names),
                decreases n - i,
            {
                let st = status_within(Some(tuple.element_types[i]), d, false, typedesc, names);
                if st != GelStatus::Finishes {
                    proof {
                        lemma_gel_tuple_status_stable(td, els, i + 1, n as int, d as nat, *names);
                    }
                    return st;
                }
                i = i + 1;
            }
            GelStatus::Finishes
        },
        _ => GelStatus::Panics,
    }
}

/// A tuple that panics or fails after some elements stays so.
pub proof fn lemma_gel_tuple_status_stable(
    td: Seq<GelDescriptor>,
    elements: Seq<TypePos>,
    k: int,
    n: int,
    depth: nat,
    names: GelxNames,
)
    requires
        0 <= k <= n,
    ensures
        gel_tuple_status(td, elements, k, depth, names) != GelStatus::Finishes ==> gel_tuple_status(
            td,
            elements,
            n,
            depth,
            names,
        ) == gel_tuple_status(td, elements, k, depth, names),
    decreases n - k,
{
    if k < n {
        lemma_gel_tuple_status_stable(td, elements, k + 1, n, depth, names);
    }
}

/// A struct whose fields panic or fail after some fields stays so.
pub proof fn lemma_gel_fields_status_stable(
    td: Seq<GelDescriptor>,
    f: Seq<GelField>,
    k: int,
    n: int,
    depth: nat,
    is_macro: bool,
    names: GelxNames,
)
    requires
        0 <= k <= n,
    ensures
        gel_fields_status(td, f, k, depth, is_macro, names) != GelStatus::Finishes ==> gel_fields_status(
            td,
            f,
            n,
            depth,
            is_macro,
            names,
        ) == gel_fields_status(td, f, k, depth, is_macro, names),
    decreases n - k,
{
    if k < n {
        lemma_gel_fields_status_stable(td, f, k + 1, n, depth, is_macro, names);
    }
}

fn fields_status_within(
    elements: &Vec<StructElement<'_>>,
    depth: usize,
    is_macro: bool,
    typedesc: &GelTypedesc,
    names: &GelxNames,
) -> (r: GelStatus)
    ensures
        r == gel_fields_status(typedesc@, element_fields(elements@), elements@.len() as int, depth as nat, is_macro, *names),
    decreases depth, 2int, 0int,
{
    let ghost td = typedesc@;
    let ghost f = element_fields(elements@);
    let n = elements.len();
    let mut i: usize = 0;
    while i < n
        invariant
            td == typedesc@,
            f == element_fields(elements@),
            n == elements.len(),
            f.len() == n,
            0 <= i <= n,
            gel_fields_status(td, f, i as int, depth as nat, is_macro, *names) == GelStatus::Finishes,
        decreases n - i,
    {
        let element = &elements[i];
        assert(f[i as int] == element_field(*element));
        let st = status_within(Some(element.type_pos()), depth, is_macro, typedesc, names);
        if st != GelStatus::Finishes {
            proof {
                lemma_gel_fields_status_stable(td, f, i + 1, n as int, depth as nat, is_macro, *names);
            }
            return st;
        }
        i = i + 1;
    }
    GelStatus::Finishes
}

/// Tells whether exploring the type at `pos` with these props runs to its
/// end, with a type or with an error: that is, meets no unsupported type
/// (a multirange, a type annotation, an object, compound or SQL row type)
/// and no type that contains itself.
pub fn explore_is_supported(
    props: &ExploreDescriptorProps,
    typedesc: &GelTypedesc,
    pos: Option<TypePos>,
    names: &GelxNames,
) -> (r: bool)
    ensures
        r == !(gel_explore_pos(typedesc@, pos, props.root_name@, props.is_input, props.is_macro, props.is_root, *names) is Panics),
{
    proof {
        lemma_gel_status_at(
            typedesc@,
            pos,
            typedesc@.len(),
            props.root_name@,
            props.is_input,
            props.is_macro,
            props.is_root,
            *names,
        );
    }
    status_within(pos, typedesc.descriptors().len(), props.is_macro, typedesc, names) != GelStatus::Panics
}

} // verus!
