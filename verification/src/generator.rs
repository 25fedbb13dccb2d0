use vstd::prelude::*;

use crate::cardinality::{cardinality_wrapper, wrapper_prefix, wrapper_suffix, Cardinality};
use crate::descriptor::{Descriptor, ShapeElement, TupleElement, TypePos, Typedesc};
use crate::naming::{
    into_safe, kebab_case, pascal_case, safe_ident, snake_case, to_kebab_case, to_pascal_case,
    to_snake_case,
};
use crate::scalars::{known_name, uuid_to_known_name};
use crate::text::{concat2, concat3, join_strings, opt_view, seq_join};

verus! {

/// A field of a struct to generate, read from a shape or a named tuple.
pub enum StructElement<'a> {
    Shape(&'a ShapeElement),
    Tuple(&'a TupleElement),
}

/// What the generator reads of a field: its name, the position of its type
/// and its cardinality (named-tuple fields have none).
pub struct FieldSpec {
    pub name: Seq<char>,
    pub pos: int,
    pub cardinality: Option<Cardinality>,
}

impl<'a> View for StructElement<'a> {
    type V = FieldSpec;

    open spec fn view(&self) -> FieldSpec {
        match *self {
            StructElement::Shape(s) => FieldSpec {
                name: s.name@,
                pos: s.type_pos.0 as int,
                cardinality: s.cardinality,
            },
            StructElement::Tuple(t) => FieldSpec {
                name: t.name@,
                pos: t.type_pos.0 as int,
                cardinality: None,
            },
        }
    }
}

pub open spec fn fields_of(elements: Seq<StructElement<'_>>) -> Seq<FieldSpec> {
    elements.map_values(|e: StructElement<'_>| e@)
}

pub open spec fn shape_field(e: ShapeElement) -> FieldSpec {
    FieldSpec { name: e.name@, pos: e.type_pos.0 as int, cardinality: e.cardinality }
}

pub open spec fn tuple_field(e: TupleElement) -> FieldSpec {
    FieldSpec { name: e.name@, pos: e.type_pos.0 as int, cardinality: None }
}

pub open spec fn shape_fields(elements: Seq<ShapeElement>) -> Seq<FieldSpec> {
    elements.map_values(|e: ShapeElement| shape_field(e))
}

pub open spec fn tuple_fields(elements: Seq<TupleElement>) -> Seq<FieldSpec> {
    elements.map_values(|e: TupleElement| tuple_field(e))
}

impl<'a> StructElement<'a> {
    /// One element per field of the shape, in order.
    pub fn from_shape(elements: &'a [ShapeElement]) -> (r: Vec<StructElement<'a>>)
        ensures
            fields_of(r@) == shape_fields(elements@),
    {
        let mut r: Vec<StructElement<'a>> = Vec::new();
        let mut i: usize = 0;
        while i < elements.len()
            invariant
                0 <= i <= elements@.len(),
                fields_of(r@) == shape_fields(elements@.take(i as int)),
            decreases elements@.len() - i,
        {
            let ghost before = r@;
            r.push(StructElement::Shape(&elements[i]));
            assert(elements@.take(i + 1) =~= elements@.take(i as int).push(elements@[i as int]));
            assert(fields_of(r@) =~= fields_of(before).push(shape_field(elements@[i as int])));
            assert(shape_fields(elements@.take(i + 1)) =~= shape_fields(elements@.take(i as int)).push(
                shape_field(elements@[i as int]),
            ));
            i = i + 1;
        }
        assert(elements@.take(elements@.len() as int) == elements@);
        r
    }

    /// One element per field of the named tuple, in order.
    pub fn from_named_tuple(elements: &'a [TupleElement]) -> (r: Vec<StructElement<'a>>)
        ensures
            fields_of(r@) == tuple_fields(elements@),
    {
        let mut r: Vec<StructElement<'a>> = Vec::new();
        let mut i: usize = 0;
        while i < elements.len()
            invariant
                0 <= i <= elements@.len(),
                fields_of(r@) == tuple_fields(elements@.take(i as int)),
            decreases elements@.len() - i,
        {
            let ghost before = r@;
            r.push(StructElement::Tuple(&elements[i]));
            assert(elements@.take(i + 1) =~= elements@.take(i as int).push(elements@[i as int]));
            assert(fields_of(r@) =~= fields_of(before).push(tuple_field(elements@[i as int])));
            assert(tuple_fields(elements@.take(i + 1)) =~= tuple_fields(elements@.take(i as int)).push(
                tuple_field(elements@[i as int]),
            ));
            i = i + 1;
        }
        assert(elements@.take(elements@.len() as int) == elements@);
        r
    }

    /// The field's name, as the query spells it.
    pub fn name(&self) -> (r: String)
        ensures
            r@ == self@.name,
    {
        match self {
            StructElement::Shape(shape) => shape.name.clone(),
            StructElement::Tuple(tuple) => tuple.name.clone(),
        }
    }

    /// The position of the field's type.
    pub fn type_pos(&self) -> (r: TypePos)
        ensures
            r.0 as int == self@.pos,
    {
        match self {
            StructElement::Shape(shape) => shape.type_pos,
            StructElement::Tuple(tuple) => tuple.type_pos,
        }
    }

    /// The text around the field's type that its cardinality asks for.
    pub fn wrapper(&self) -> (r: (String, String))
        ensures
            r.0@ == wrapper_prefix(self@.cardinality),
            r.1@ == wrapper_suffix(self@.cardinality),
    {
        match self {
            StructElement::Shape(shape) => cardinality_wrapper(shape.cardinality),
            StructElement::Tuple(_) => (String::new(), String::new()),
        }
    }
}

/// What exploring a type yields: either the generator panics on it (or
/// recurses without end), or it yields a Rust type (or nothing) and appends
/// lines of generated code.
#[verifier::ext_equal]
pub enum Explored {
    Panics,
    Done { value: Option<Seq<char>>, emitted: Seq<Seq<char>> },
}

/// The state after exploring some of the fields of a struct.
#[verifier::ext_equal]
pub enum ShapeProgress {
    Panics,
    /// A field had no type: the struct is abandoned.
    Stopped { emitted: Seq<Seq<char>> },
    Running { fields: Seq<Seq<char>>, args: Seq<Seq<char>>, emitted: Seq<Seq<char>> },
}

pub open spec fn no_value() -> Explored {
    Explored::Done { value: None, emitted: Seq::empty() }
}


/// The name a field gets in the generated struct.
pub open spec fn safe_field_name(name: Seq<char>) -> Seq<char> {
    safe_ident(snake_case(name))
}

/// The name of the struct generated for a field of the struct `root`.
pub open spec fn sub_root_name(root: Seq<char>, name: Seq<char>) -> Seq<char> {
    root + pascal_case(name)
}

pub open spec fn field_line(safe: Seq<char>, c: Option<Cardinality>, out: Seq<char>) -> Seq<char> {
    "\tpub "@ + safe + ": "@ + wrapper_prefix(c) + out + wrapper_suffix(c) + ","@
}

pub open spec fn arg_line(name: Seq<char>, safe: Seq<char>) -> Seq<char> {
    "\t\t\t\""@ + name + "\" => self."@ + safe + ".clone(),"@
}

pub open spec fn struct_header(root: Seq<char>) -> Seq<char> {
    "#[derive(Debug, Clone, serde::Serialize, serde::Deserialize, edgedb_derive::Queryable)]\npub struct "@
        + root + " {"@
}

pub open spec fn args_header(root: Seq<char>) -> Seq<char> {
    "impl QueryArgs for "@ + root
        + " {\n\tfn encode(&self, encoder: &mut edgedb_protocol::query_arg::Encoder) -> Result<(), edgedb_errors::Error> {\n\t\tlet map = edgedb_protocol::named_args! {"@
}

pub open spec fn args_footer() -> Seq<char> {
    "\t\t};\n\t\tmap.encode(encoder)\n\t}\n}"@
}

/// The lines of the struct before its closing brace.
pub open spec fn struct_lines(root: Seq<char>, fields: Seq<Seq<char>>) -> Seq<Seq<char>> {
    seq![struct_header(root)] + fields
}

/// The lines of the `QueryArgs` impl before its closing lines.
pub open spec fn args_lines(root: Seq<char>, args: Seq<Seq<char>>, is_input: bool) -> Seq<Seq<char>> {
    if is_input {
        seq![args_header(root)] + args
    } else {
        Seq::empty()
    }
}

/// The source of the struct, followed, for an input, by its `QueryArgs` impl.
pub open spec fn struct_text(
    root: Seq<char>,
    fields: Seq<Seq<char>>,
    args: Seq<Seq<char>>,
    is_input: bool,
) -> Seq<char> {
    let lines = struct_lines(root, fields).push("}"@);
    if is_input {
        seq_join(lines.push(seq_join(args_lines(root, args, true).push(args_footer()), "\n"@)), "\n"@)
    } else {
        seq_join(lines, "\n"@)
    }
}

/// Outcome of exploring a struct: its text, or nothing when a field had no
/// type, with the lines emitted meanwhile.
pub open spec fn finish_struct(p: ShapeProgress, root: Seq<char>, is_input: bool) -> Explored {
    match p {
        ShapeProgress::Panics => Explored::Panics,
        ShapeProgress::Stopped { emitted } => Explored::Done { value: None, emitted },
        ShapeProgress::Running { fields, args, emitted } => Explored::Done {
            value: Some(struct_text(root, fields, args, is_input)),
            emitted,
        },
    }
}

/// A struct found inside a type: its text comes first, then the lines of the
/// structs it needs, joined; the type is the struct's name.
pub open spec fn nest_struct(e: Explored, root: Seq<char>) -> Explored {
    match e {
        Explored::Panics => Explored::Panics,
        Explored::Done { value: None, emitted } => no_value(),
        Explored::Done { value: Some(v), emitted } => Explored::Done {
            value: Some(root),
            emitted: seq![v, seq_join(emitted, "\n"@)],
        },
    }
}


/// Explores the type at position `p` of `td`, naming the structs it needs
/// after `root`. At most `depth` nested types are entered; one more is
/// reached only when a type contains itself, where the generator recurses
/// without end, and that counts as a panic.
pub open spec fn explore_at(
    td: Seq<Descriptor>,
    p: int,
    depth: nat,
    root: Seq<char>,
    is_input: bool,
) -> Explored
    decreases depth, 1int, 0int,
{
    if p < 0 || p >= td.len() {
        no_value()
    } else if depth == 0 {
        Explored::Panics
    } else {
        let d = (depth - 1) as nat;
        match td[p] {
            Descriptor::SetOf(s) => explore_at(td, s.type_pos.0 as int, d, root, is_input),
            Descriptor::ObjectShape(o) => nest_struct(
                object_at(td, shape_fields(o.elements@), d, root, is_input),
                root,
            ),
            Descriptor::BaseScalar(b) => Explored::Done {
                value: known_name(b.id),
                emitted: Seq::empty(),
            },
            Descriptor::Scalar(s) => explore_at(td, s.base_type_pos.0 as int, d, root, is_input),
            Descriptor::Tuple(t) => match tuple_prefix(
                td,
                t.element_types@,
                t.element_types@.len() as int,
                d,
                root,
                is_input,
            ) {
                Some(names) => Explored::Done {
                    value: Some("("@ + seq_join(names, ", "@) + ")"@),
                    emitted: Seq::empty(),
                },
                None => Explored::Panics,
            },
            Descriptor::NamedTuple(n) => nest_struct(
                object_at(td, tuple_fields(n.elements@), d, root, is_input),
                root,
            ),
            Descriptor::Array(a) => match explore_at(td, a.type_pos.0 as int, d, root, is_input) {
                Explored::Done { value: Some(v), emitted } => Explored::Done {
                    value: Some("Vec<"@ + v + ">"@),
                    emitted: Seq::empty(),
                },
                _ => Explored::Panics,
            },
            Descriptor::Enumeration(_) => Explored::Done {
                value: Some("String"@),
                emitted: Seq::empty(),
            },
            Descriptor::InputShape(o) => nest_struct(
                object_at(td, shape_fields(o.elements@), d, root, is_input),
                root,
            ),
            _ => Explored::Panics,
        }
    }
}

/// The types of the first `n` elements of a tuple, or `None` when one of them
/// has none (the generator panics there).
pub open spec fn tuple_prefix(
    td: Seq<Descriptor>,
    elements: Seq<TypePos>,
    n: int,
    depth: nat,
    root: Seq<char>,
    is_input: bool,
) -> Option<Seq<Seq<char>>>
    decreases depth, 2int, n,
{
    if n <= 0 {
        Some(Seq::empty())
    } else {
        match tuple_prefix(td, elements, n - 1, depth, root, is_input) {
            None => None,
            Some(names) => match explore_at(td, elements[n - 1].0 as int, depth, root, is_input) {
                Explored::Done { value: Some(v), emitted } => Some(names.push(v)),
                _ => None,
            },
        }
    }
}

/// Explores the struct with fields `f`.
pub open spec fn object_at(
    td: Seq<Descriptor>,
    f: Seq<FieldSpec>,
    depth: nat,
    root: Seq<char>,
    is_input: bool,
) -> Explored
    decreases depth, 2int, f.len() + 1,
{
    finish_struct(shape_prefix(td, f, f.len() as int, depth, root, is_input), root, is_input)
}

/// The state after exploring the first `n` fields of a struct.
pub open spec fn shape_prefix(
    td: Seq<Descriptor>,
    f: Seq<FieldSpec>,
    n: int,
    depth: nat,
    root: Seq<char>,
    is_input: bool,
) -> ShapeProgress
    decreases depth, 2int, n,
{
    if n <= 0 {
        ShapeProgress::Running {
            fields: Seq::empty(),
            args: Seq::empty(),
            emitted: Seq::empty(),
        }
    } else {
        match shape_prefix(td, f, n - 1, depth, root, is_input) {
            ShapeProgress::Panics => ShapeProgress::Panics,
            ShapeProgress::Stopped { emitted } => ShapeProgress::Stopped { emitted },
            ShapeProgress::Running { fields, args, emitted } => {
                let fd = f[n - 1];
                match explore_at(td, fd.pos, depth, sub_root_name(root, fd.name), is_input) {
                    Explored::Panics => ShapeProgress::Panics,
                    Explored::Done { value: None, emitted: more } => ShapeProgress::Stopped {
                        emitted: emitted + more,
                    },
                    Explored::Done { value: Some(out), emitted: more } => {
                        let safe = safe_field_name(fd.name);
                        ShapeProgress::Running {
                            fields: fields.push(field_line(safe, fd.cardinality, out)),
                            args: if is_input {
                                args.push(arg_line(fd.name, safe))
                            } else {
                                args
                            },
                            emitted: emitted + more,
                        }
                    },
                }
            },
        }
    }
}

/// Explores the type at the position, if any, in a type description of
/// `td.len()` blocks: no chain of nested types longer than that can avoid
/// repeating a block.
pub open spec fn explore_pos(
    td: Seq<Descriptor>,
    pos: Option<TypePos>,
    root: Seq<char>,
    is_input: bool,
) -> Explored {
    match pos {
        Some(p) => explore_at(td, p.0 as int, td.len(), root, is_input),
        None => no_value(),
    }
}

/// Explores the struct with fields `f` in the type description `td`.
pub open spec fn explore_object(
    td: Seq<Descriptor>,
    f: Seq<FieldSpec>,
    root: Seq<char>,
    is_input: bool,
) -> Explored {
    object_at(td, f, td.len(), root, is_input)
}

/// Where exploring finishes within `k` nested types, allowing more nesting
/// changes nothing: the bound on nesting only decides the outcome for types
/// that contain themselves.
pub proof fn lemma_explore_depth(
    td: Seq<Descriptor>,
    p: int,
    k: nat,
    k2: nat,
    root: Seq<char>,
    is_input: bool,
)
    requires
        k <= k2,
        !(explore_at(td, p, k, root, is_input) is Panics),
    ensures
        explore_at(td, p, k2, root, is_input) == explore_at(td, p, k, root, is_input),
    decreases k, 1int, 0int,
{
    if 0 <= p < td.len() && k > 0 {
        let d = (k - 1) as nat;
        let d2 = (k2 - 1) as nat;
        match td[p] {
            Descriptor::SetOf(s) => {
                lemma_explore_depth(td, s.type_pos.0 as int, d, d2, root, is_input);
            },
            Descriptor::ObjectShape(o) => {
                let f = shape_fields(o.elements@);
                assert(object_at(td, f, d, root, is_input) == finish_struct(
                    shape_prefix(td, f, f.len() as int, d, root, is_input),
                    root,
                    is_input,
                ));
                lemma_shape_prefix_depth(td, f, f.len() as int, d, d2, root, is_input);
                assert(object_at(td, f, d2, root, is_input) == object_at(td, f, d, root, is_input));
            },
            Descriptor::Scalar(s) => {
                lemma_explore_depth(td, s.base_type_pos.0 as int, d, d2, root, is_input);
            },
            Descriptor::Tuple(t) => {
                lemma_tuple_prefix_depth(
                    td,
                    t.element_types@,
                    t.element_types@.len() as int,
                    d,
                    d2,
                    root,
                    is_input,
                );
            },
            Descriptor::NamedTuple(n) => {
                let f = tuple_fields(n.elements@);
                assert(object_at(td, f, d, root, is_input) == finish_struct(
                    shape_prefix(td, f, f.len() as int, d, root, is_input),
                    root,
                    is_input,
                ));
                lemma_shape_prefix_depth(td, f, f.len() as int, d, d2, root, is_input);
                assert(object_at(td, f, d2, root, is_input) == object_at(td, f, d, root, is_input));
            },
            Descriptor::Array(a) => {
                lemma_explore_depth(td, a.type_pos.0 as int, d, d2, root, is_input);
            },
            Descriptor::InputShape(o) => {
                let f = shape_fields(o.elements@);
                assert(object_at(td, f, d, root, is_input) == finish_struct(
                    shape_prefix(td, f, f.len() as int, d, root, is_input),
                    root,
                    is_input,
                ));
                lemma_shape_prefix_depth(td, f, f.len() as int, d, d2, root, is_input);
                assert(object_at(td, f, d2, root, is_input) == object_at(td, f, d, root, is_input));
            },
            _ => {},
        }
    }
}

/// The tuple counterpart of [`lemma_explore_depth`].
pub proof fn lemma_tuple_prefix_depth(
    td: Seq<Descriptor>,
    elements: Seq<TypePos>,
    n: int,
    k: nat,
    k2: nat,
    root: Seq<char>,
    is_input: bool,
)
    requires
        k <= k2,
        tuple_prefix(td, elements, n, k, root, is_input) is Some,
    ensures
        tuple_prefix(td, elements, n, k2, root, is_input) == tuple_prefix(td, elements, n, k, root, is_input),
    decreases k, 2int, n,
{
    if n > 0 {
        lemma_tuple_prefix_depth(td, elements, n - 1, k, k2, root, is_input);
        lemma_explore_depth(td, elements[n - 1].0 as int, k, k2, root, is_input);
    }
}

/// The struct counterpart of [`lemma_explore_depth`].
pub proof fn lemma_shape_prefix_depth(
    td: Seq<Descriptor>,
    f: Seq<FieldSpec>,
    n: int,
    k: nat,
    k2: nat,
    root: Seq<char>,
    is_input: bool,
)
    requires
        k <= k2,
        !(shape_prefix(td, f, n, k, root, is_input) is Panics),
    ensures
        shape_prefix(td, f, n, k2, root, is_input) == shape_prefix(td, f, n, k, root, is_input),
    decreases k, 2int, n,
{
    if n > 0 {
        lemma_shape_prefix_depth(td, f, n - 1, k, k2, root, is_input);
        if shape_prefix(td, f, n - 1, k, root, is_input) is Running {
            let fd = f[n - 1];
            lemma_explore_depth(td, fd.pos, k, k2, sub_root_name(root, fd.name), is_input);
        }
    }
}

/// Once exploring a struct panics or stops, it stays so for later fields.
pub proof fn lemma_shape_prefix_stable(
    td: Seq<Descriptor>,
    f: Seq<FieldSpec>,
    k: int,
    n: int,
    depth: nat,
    root: Seq<char>,
    is_input: bool,
)
    requires
        0 <= k <= n,
    ensures
        shape_prefix(td, f, k, depth, root, is_input) is Panics ==> shape_prefix(
            td,
            f,
            n,
            depth,
            root,
            is_input,
        ) is Panics,
        shape_prefix(td, f, k, depth, root, is_input) is Stopped ==> shape_prefix(
            td,
            f,
            n,
            depth,
            root,
            is_input,
        ) == shape_prefix(td, f, k, depth, root, is_input),
    decreases n - k,
{
    if k < n {
        lemma_shape_prefix_stable(td, f, k + 1, n, depth, root, is_input);
    }
}

/// Once a tuple element has no type, the tuple has none either.
pub proof fn lemma_tuple_prefix_stable(
    td: Seq<Descriptor>,
    elements: Seq<TypePos>,
    k: int,
    n: int,
    depth: nat,
    root: Seq<char>,
    is_input: bool,
)
    requires
        0 <= k <= n,
    ensures
        tuple_prefix(td, elements, k, depth, root, is_input) is None ==> tuple_prefix(
            td,
            elements,
            n,
            depth,
            root,
            is_input,
        ) is None,
    decreases n - k,
{
    if k < n {
        lemma_tuple_prefix_stable(td, elements, k + 1, n, depth, root, is_input);
    }
}

fn push_line(strings: &mut Vec<String>, line: String)
    ensures
        final(strings).deep_view() == old(strings).deep_view().push(line@),
{
    strings.push(line);
    assert(strings.deep_view() =~= old(strings).deep_view().push(line@));
}

/// Explores the type at `maybe_pos`: gives back the Rust type that stands for
/// it (or `None` where there is none) and appends to `strings` the source of
/// the structs that the type needs, named after `root_name`.
pub fn explore_descriptor(
    maybe_pos: Option<TypePos>,
    typedesc: &Typedesc,
    root_name: &str,
    is_input: bool,
    strings: &mut Vec<String>,
) -> (r: Option<String>)
    requires
        !(explore_pos(typedesc@, maybe_pos, root_name@, is_input) is Panics),
    ensures
        explore_pos(typedesc@, maybe_pos, root_name@, is_input) matches Explored::Done {
            value,
            emitted,
        } && value == opt_view(r) && final(strings).deep_view() == old(strings).deep_view()
            + emitted,
{
    match maybe_pos {
        Some(pos) => explore_within(pos, typedesc.descriptors().len(), typedesc, root_name, is_input, strings),
        None => {
            assert(old(strings).deep_view() + Seq::<Seq<char>>::empty() =~= old(strings).deep_view());
            None
        },
    }
}

/// Explores the type at `pos`, entering at most `depth` nested types.
fn explore_within(
    pos: TypePos,
    depth: usize,
    typedesc: &Typedesc,
    root_name: &str,
    is_input: bool,
    strings: &mut Vec<String>,
) -> (r: Option<String>)
    requires
        !(explore_at(typedesc@, pos.0 as int, depth as nat, root_name@, is_input) is Panics),
    ensures
        explore_at(typedesc@, pos.0 as int, depth as nat, root_name@, is_input) matches Explored::Done {
            value,
            emitted,
        } && value == opt_view(r) && final(strings).deep_view() == old(strings).deep_view()
            + emitted,
    decreases depth, 1int, 0int,
{
    let ghost td = typedesc@;
    let ghost s0 = strings.deep_view();
    assert(s0 + Seq::<Seq<char>>::empty() =~= s0);
    let descriptor = match typedesc.get(pos) {
        Ok(d) => d,
        Err(_) => {
            return None;
        },
    };
    if depth == 0 {
        assert(false);
        return None;
    }
    let d = depth - 1;
    match descriptor {
        Descriptor::SetOf(set) => explore_within(set.type_pos, d, typedesc, root_name, is_input, strings),
        Descriptor::ObjectShape(object) => {
            let elements = StructElement::from_shape(object.elements.as_slice());
            explore_nested_struct(elements, d, typedesc, root_name, is_input, strings)
        },
        Descriptor::BaseScalar(base_scalar) => uuid_to_known_name(&base_scalar.id),
        Descriptor::Scalar(scalar) => explore_within(
            scalar.base_type_pos,
            d,
            typedesc,
            root_name,
            is_input,
            strings,
        ),
        Descriptor::Tuple(tuple) => {
            let ghost els = tuple.element_types@;
            let n = tuple.element_types.len();
            let mut tuple_strings: Vec<String> = Vec::new();
            let mut i: usize = 0;
            while i < n
                invariant
                    td == typedesc@,
                    d < depth,
                    n == els.len(),
                    els == tuple.element_types@,
                    0 <= i <= n,
                    tuple_prefix(td, els, n as int, d as nat, root_name@, is_input) is Some,
                    tuple_prefix(td, els, i as int, d as nat, root_name@, is_input) == Some(
                        tuple_strings.deep_view(),
                    ),
                decreases n - i,
            {
                let element = tuple.element_types[i];
                proof {
                    lemma_tuple_prefix_stable(td, els, i + 1, n as int, d as nat, root_name@, is_input);
                }
                let mut scratch: Vec<String> = Vec::new();
                match explore_within(element, d, typedesc, root_name, is_input, &mut scratch) {
                    Some(v) => push_line(&mut tuple_strings, v),
                    None => {
                        assert(false);
                    },
                }
                i = i + 1;
            }
            let inner = join_strings(&tuple_strings, ", ");
            Some(concat3("(", inner.as_str(), ")"))
        },
        Descriptor::NamedTuple(named_tuple) => {
            let elements = StructElement::from_named_tuple(named_tuple.elements.as_slice());
            explore_nested_struct(elements, d, typedesc, root_name, is_input, strings)
        },
        Descriptor::Array(array) => {
            let mut array_strings: Vec<String> = Vec::new();
            match explore_within(array.type_pos, d, typedesc, root_name, is_input, &mut array_strings) {
                Some(v) => Some(concat3("Vec<", v.as_str(), ">")),
                None => {
                    assert(false);
                    None
                },
            }
        },
        Descriptor::Enumeration(_) => Some(String::from_str("String")),
        Descriptor::InputShape(object) => {
            let elements = StructElement::from_shape(object.elements.as_slice());
            explore_nested_struct(elements, d, typedesc, root_name, is_input, strings)
        },
        _ => {
            assert(false);
            None
        },
    }
}

/// A struct met while exploring a type: its source is appended, then the
/// source of the structs it needs, and the type is the struct's name.
fn explore_nested_struct(
    elements: Vec<StructElement<'_>>,
    depth: usize,
    typedesc: &Typedesc,
    root_name: &str,
    is_input: bool,
    strings: &mut Vec<String>,
) -> (r: Option<String>)
    requires
        !(object_at(typedesc@, fields_of(elements@), depth as nat, root_name@, is_input) is Panics),
    ensures
        nest_struct(object_at(typedesc@, fields_of(elements@), depth as nat, root_name@, is_input), root_name@)
            matches Explored::Done { value, emitted } && value == opt_view(r)
            && final(strings).deep_view() == old(strings).deep_view() + emitted,
    decreases depth, 3int, 0int,
{
    let mut struct_strings: Vec<String> = Vec::new();
    let shape = explore_object_within(elements, depth, typedesc, root_name, is_input, &mut struct_strings);
    assert(old(strings).deep_view() + Seq::<Seq<char>>::empty() =~= old(strings).deep_view());
    assert(Seq::<Seq<char>>::empty() + struct_strings.deep_view() =~= struct_strings.deep_view());
    match shape {
        Some(text) => {
            push_line(strings, text);
            let joined = join_strings(&struct_strings, "\n");
            push_line(strings, joined);
            assert(strings.deep_view() =~= old(strings).deep_view() + seq![text@, joined@]);
            Some(root_name.to_owned())
        },
        None => None,
    }
}

/// Generates the struct `root_name` with one field per element: gives back its
/// source (with its `QueryArgs` impl for an input), or `None` as soon as a
/// field has no type; the structs the fields need are appended to `strings`.
pub fn explore_object_shape_descriptor(
    elements: Vec<StructElement<'_>>,
    typedesc: &Typedesc,
    root_name: &str,
    is_input: bool,
    strings: &mut Vec<String>,
) -> (r: Option<String>)
    requires
        !(explore_object(typedesc@, fields_of(elements@), root_name@, is_input) is Panics),
    ensures
        explore_object(typedesc@, fields_of(elements@), root_name@, is_input) matches Explored::Done {
            value,
            emitted,
        } && value == opt_view(r) && final(strings).deep_view() == old(strings).deep_view()
            + emitted,
{
    explore_object_within(elements, typedesc.descriptors().len(), typedesc, root_name, is_input, strings)
}

/// Generates a struct, entering at most `depth` nested types in its fields.
fn explore_object_within(
    elements: Vec<StructElement<'_>>,
    depth: usize,
    typedesc: &Typedesc,
    root_name: &str,
    is_input: bool,
    strings: &mut Vec<String>,
) -> (r: Option<String>)
    requires
        !(object_at(typedesc@, fields_of(elements@), depth as nat, root_name@, is_input) is Panics),
    ensures
        object_at(typedesc@, fields_of(elements@), depth as nat, root_name@, is_input) matches Explored::Done {
            value,
            emitted,
        } && value == opt_view(r) && final(strings).deep_view() == old(strings).deep_view()
            + emitted,
    decreases depth, 2int, 0int,
{
    let ghost td = typedesc@;
    let ghost f = fields_of(elements@);
    let ghost root = root_name@;
    let ghost s0 = strings.deep_view();
    let ghost dn = depth as nat;
    let mut struct_strings: Vec<String> = Vec::new();
    push_line(
        &mut struct_strings,
        concat3(
            "#[derive(Debug, Clone, serde::Serialize, serde::Deserialize, edgedb_derive::Queryable)]\npub struct ",
            root_name,
            " {",
        ),
    );
    let mut impl_strings: Vec<String> = Vec::new();
    if is_input {
        push_line(
            &mut impl_strings,
            concat3(
                "impl QueryArgs for ",
                root_name,
                " {\n\tfn encode(&self, encoder: &mut edgedb_protocol::query_arg::Encoder) -> Result<(), edgedb_errors::Error> {\n\t\tlet map = edgedb_protocol::named_args! {",
            ),
        );
    }
    assert(struct_strings.deep_view() =~= struct_lines(root, Seq::empty()));
    assert(impl_strings.deep_view() =~= args_lines(root, Seq::empty(), is_input));
    assert(s0 + Seq::<Seq<char>>::empty() =~= s0);
    let n = elements.len();
    let mut i: usize = 0;
    while i < n
        invariant
            td == typedesc@,
            f == fields_of(elements@),
            root == root_name@,
            s0 == old(strings).deep_view(),
            dn == depth as nat,
            n == elements.len(),
            0 <= i <= n,
            f.len() == n,
            !(shape_prefix(td, f, n as int, dn, root, is_input) is Panics),
            shape_prefix(td, f, i as int, dn, root, is_input) matches ShapeProgress::Running {
                fields,
                args,
                emitted,
            } && struct_strings.deep_view() == struct_lines(root, fields)
                && impl_strings.deep_view() == args_lines(root, args, is_input)
                && strings.deep_view() == s0 + emitted,
        decreases n - i,
    {
        let element = &elements[i];
        assert(f[i as int] == element@);
        let (prefix, suffix) = element.wrapper();
        let name = element.name();
        let safe_name = into_safe(to_snake_case(name.as_str()));
        let pascal_name = to_pascal_case(name.as_str());
        let sub_root = concat2(root_name, pascal_name.as_str());
        let type_pos = element.type_pos();
        proof {
            lemma_shape_prefix_stable(td, f, i + 1, n as int, dn, root, is_input);
        }
        match explore_within(type_pos, depth, typedesc, sub_root.as_str(), is_input, strings) {
            None => {
                proof {
                    if let ShapeProgress::Running { fields, args, emitted } = shape_prefix(
                        td,
                        f,
                        i as int,
                        dn,
                        root,
                        is_input,
                    ) {
                        let e = explore_at(td, f[i as int].pos, dn, sub_root_name(root, f[i as int].name), is_input);
                        if let Explored::Done { value, emitted: more } = e {
                            assert(strings.deep_view() =~= s0 + (emitted + more));
                            assert(shape_prefix(td, f, i + 1, dn, root, is_input) == ShapeProgress::Stopped {
                                emitted: emitted + more,
                            });
                        }
                    }
                    lemma_shape_prefix_stable(td, f, i + 1, n as int, dn, root, is_input);
                }
                return None;
            },
            Some(output) => {
                let mut line = String::from_str("\tpub ");
                line.append(safe_name.as_str());
                line.append(": ");
                line.append(prefix.as_str());
                line.append(output.as_str());
                line.append(suffix.as_str());
                line.append(",");
                push_line(&mut struct_strings, line);
                if is_input {
                    let mut arg = String::from_str("\t\t\t\"");
                    arg.append(name.as_str());
                    arg.append("\" => self.");
                    arg.append(safe_name.as_str());
                    arg.append(".clone(),");
                    push_line(&mut impl_strings, arg);
                }
                proof {
                    if let ShapeProgress::Running { fields, args, emitted } = shape_prefix(
                        td,
                        f,
                        i as int,
                        dn,
                        root,
                        is_input,
                    ) {
                        assert(struct_strings.deep_view() =~= struct_lines(
                            root,
                            fields.push(line@),
                        ));
                        if is_input {
                            assert(impl_strings.deep_view() =~= args_lines(
                                root,
                                args.push(arg_line(name@, safe_name@)),
                                is_input,
                            ));
                        }
                    }
                }
            },
        }
        i = i + 1;
    }
    push_line(&mut struct_strings, String::from_str("}"));
    if is_input {
        push_line(&mut impl_strings, String::from_str("\t\t};\n\t\tmap.encode(encoder)\n\t}\n}"));
        let args_text = join_strings(&impl_strings, "\n");
        push_line(&mut struct_strings, args_text);
    }
    Some(join_strings(&struct_strings, "\n"))
}

/// The lines that exploring appended.
pub open spec fn emitted_of(e: Explored) -> Seq<Seq<char>> {
    match e {
        Explored::Done { value, emitted } => emitted,
        Explored::Panics => Seq::empty(),
    }
}

/// The type description has a root block.
pub open spec fn has_root(ds: Seq<Descriptor>, root_pos: Option<TypePos>) -> bool {
    root_pos matches Some(p) && p.0 < ds.len()
}

/// The client method that runs a query of the given result cardinality.
pub open spec fn query_method(c: Cardinality) -> Seq<char> {
    match c {
        Cardinality::NoResult | Cardinality::AtMostOne => "query_single"@,
        Cardinality::One => "query_required_single"@,
        Cardinality::Many | Cardinality::AtLeastOne => "query"@,
    }
}

/// The source of the function that runs the query.
pub open spec fn query_fn_text(
    props: Seq<char>,
    return_type: Seq<char>,
    method: Seq<char>,
    query: Seq<char>,
    args: Seq<char>,
) -> Seq<char> {
    "pub async fn query(client: &edgedb_tokio::Client"@ + props
        + ") -> core::result::Result<"@ + return_type
        + ", edgedb_errors:Error> {\n\tclient."@ + method + "(r#\""@ + query + "\"#, "@ + args
        + ").await\n}"@
}

/// The source of the module generated for a query: the module line, the
/// structs of its input, those of its output, the query function and the
/// closing brace, one per line.
pub open spec fn query_module_text(
    name: Seq<char>,
    query: Seq<char>,
    input: Seq<Descriptor>,
    input_root: Option<TypePos>,
    output: Seq<Descriptor>,
    output_root: Option<TypePos>,
    result_cardinality: Cardinality,
) -> Seq<char> {
    let with_input = has_root(input, input_root);
    let props = if with_input {
        ", props: &Input"@
    } else {
        Seq::empty()
    };
    let args = if with_input {
        "props"@
    } else {
        "&()"@
    };
    let inner = if has_root(output, output_root) {
        "Output"@
    } else {
        "()"@
    };
    let return_type = wrapper_prefix(Some(result_cardinality)) + inner + wrapper_suffix(
        Some(result_cardinality),
    );
    seq_join(
        seq!["pub mod "@ + kebab_case(name) + " {"@] + emitted_of(
            explore_pos(input, input_root, "Input"@, true),
        ) + emitted_of(explore_pos(output, output_root, "Output"@, false)) + seq![
            query_fn_text(props, return_type, query_method(result_cardinality), query, args),
            "}"@,
        ],
        "\n"@,
    )
}

/// Generates the source of a module for a query named `name` from the type
/// descriptions of its input and output and the cardinality of its result:
/// the structs for both, and an async function that runs the query.
pub fn generate_rust_from_query(
    name: &str,
    query: &str,
    input: &Typedesc,
    output: &Typedesc,
    result_cardinality: Cardinality,
) -> (r: String)
    requires
        !(explore_pos(input@, input.spec_root_pos(), "Input"@, true) is Panics),
        !(explore_pos(output@, output.spec_root_pos(), "Output"@, false) is Panics),
    ensures
        r@ == query_module_text(
            name@,
            query@,
            input@,
            input.spec_root_pos(),
            output@,
            output.spec_root_pos(),
            result_cardinality,
        ),
{
    let kebab_name = to_kebab_case(name);
    let mut strings: Vec<String> = Vec::new();
    push_line(&mut strings, concat3("pub mod ", kebab_name.as_str(), " {"));
    let ghost s1 = strings.deep_view();
    let input_name = String::from_str("Input");
    let output_name = String::from_str("Output");
    explore_descriptor(input.root_pos(), input, input_name.as_str(), true, &mut strings);
    let ghost s2 = strings.deep_view();
    explore_descriptor(output.root_pos(), output, output_name.as_str(), false, &mut strings);
    let ghost s3 = strings.deep_view();
    let (prefix, suffix) = cardinality_wrapper(Some(result_cardinality));
    let method = match result_cardinality {
        Cardinality::NoResult | Cardinality::AtMostOne => String::from_str("query_single"),
        Cardinality::One => String::from_str("query_required_single"),
        Cardinality::Many | Cardinality::AtLeastOne => String::from_str("query"),
    };
    let has_input = input.root().is_some();
    let props = if has_input {
        String::from_str(", props: &Input")
    } else {
        String::new()
    };
    let args = if has_input {
        String::from_str("props")
    } else {
        String::from_str("&()")
    };
    let inner = if output.root().is_some() {
        String::from_str("Output")
    } else {
        String::from_str("()")
    };
    let return_type = concat3(prefix.as_str(), inner.as_str(), suffix.as_str());
    let mut query_fn = String::from_str("pub async fn query(client: &edgedb_tokio::Client");
    query_fn.append(props.as_str());
    query_fn.append(") -> core::result::Result<");
    query_fn.append(return_type.as_str());
    query_fn.append(", edgedb_errors:Error> {\n\tclient.");
    query_fn.append(method.as_str());
    query_fn.append("(r#\"");
    query_fn.append(query);
    query_fn.append("\"#, ");
    query_fn.append(args.as_str());
    query_fn.append(").await\n}");
    push_line(&mut strings, query_fn);
    push_line(&mut strings, String::from_str("}"));
    proof {
        let ein = emitted_of(explore_pos(input@, input.spec_root_pos(), "Input"@, true));
        let eout = emitted_of(explore_pos(output@, output.spec_root_pos(), "Output"@, false));
        assert(strings.deep_view() =~= s1 + ein + eout + seq![query_fn@, "}"@]);
        assert(has_input == has_root(input@, input.spec_root_pos()));
        assert(inner@ == (if has_root(output@, output.spec_root_pos()) { "Output"@ } else { "()"@ }));
        assert(s1 =~= seq!["pub mod "@ + kebab_case(name@) + " {"@]);
        assert(method@ == query_method(result_cardinality));
        assert(query_fn@ == query_fn_text(props@, return_type@, method@, query@, args@));
    }
    join_strings(&strings, "\n")
}

/// Whether exploring a type succeeds with a type, succeeds without one, or
/// fails on a type that the generator does not support.
#[derive(Clone, Copy, Debug, PartialEq, Eq, Structural)]
pub enum TypeStatus {
    Unsupported,
    Untyped,
    Typed,
}

/// The status of the type at position `p`, entering at most `depth` nested
/// types.
pub open spec fn status_at(td: Seq<Descriptor>, p: int, depth: nat) -> TypeStatus
    decreases depth, 1int, 0int,
{
    if p < 0 || p >= td.len() {
        TypeStatus::Untyped
    } else if depth == 0 {
        TypeStatus::Unsupported
    } else {
        let d = (depth - 1) as nat;
        match td[p] {
            Descriptor::SetOf(s) => status_at(td, s.type_pos.0 as int, d),
            Descriptor::ObjectShape(o) => {
                let f = shape_fields(o.elements@);
                shape_status(td, f, f.len() as int, d)
            },
            Descriptor::BaseScalar(b) => if known_name(b.id) is Some {
                TypeStatus::Typed
            } else {
                TypeStatus::Untyped
            },
            Descriptor::Scalar(s) => status_at(td, s.base_type_pos.0 as int, d),
            Descriptor::Tuple(t) => if tuple_status(
                td,
                t.element_types@,
                t.element_types@.len() as int,
                d,
            ) {
                TypeStatus::Typed
            } else {
                TypeStatus::Unsupported
            },
            Descriptor::NamedTuple(n) => {
                let f = tuple_fields(n.elements@);
                shape_status(td, f, f.len() as int, d)
            },
            Descriptor::Array(a) => if status_at(td, a.type_pos.0 as int, d) is Typed {
                TypeStatus::Typed
            } else {
                TypeStatus::Unsupported
            },
            Descriptor::Enumeration(_) => TypeStatus::Typed,
            Descriptor::InputShape(o) => {
                let f = shape_fields(o.elements@);
                shape_status(td, f, f.len() as int, d)
            },
            _ => TypeStatus::Unsupported,
        }
    }
}

/// The first `n` elements of a tuple all have types.
pub open spec fn tuple_status(td: Seq<Descriptor>, elements: Seq<TypePos>, n: int, depth: nat) -> bool
    decreases depth, 2int, n,
{
    if n <= 0 {
        true
    } else {
        tuple_status(td, elements, n - 1, depth) && status_at(td, elements[n - 1].0 as int, depth) is Typed
    }
}

/// The status of a struct after its first `n` fields.
pub open spec fn shape_status(td: Seq<Descriptor>, f: Seq<FieldSpec>, n: int, depth: nat) -> TypeStatus
    decreases depth, 2int, n,
{
    if n <= 0 {
        TypeStatus::Typed
    } else {
        match shape_status(td, f, n - 1, depth) {
            TypeStatus::Typed => status_at(td, f[n - 1].pos, depth),
            other => other,
        }
    }
}

/// The status of a type tells whether exploring it panics and whether it
/// yields a type, whatever the names and the direction.
pub proof fn lemma_status_at(td: Seq<Descriptor>, p: int, depth: nat, root: Seq<char>, is_input: bool)
    ensures
        (status_at(td, p, depth) is Unsupported) == (explore_at(td, p, depth, root, is_input) is Panics),
        (status_at(td, p, depth) is Typed) == (explore_at(td, p, depth, root, is_input) matches Explored::Done {
            value: Some(_),
            ..
        }),
    decreases depth, 1int, 0int,
{
    if 0 <= p < td.len() && depth > 0 {
        let d = (depth - 1) as nat;
        match td[p] {
            Descriptor::SetOf(s) => {
                lemma_status_at(td, s.type_pos.0 as int, d, root, is_input);
            },
            Descriptor::ObjectShape(o) => {
                let f = shape_fields(o.elements@);
                lemma_shape_status(td, f, f.len() as int, d, root, is_input);
                assert(object_at(td, f, d, root, is_input) == finish_struct(
                    shape_prefix(td, f, f.len() as int, d, root, is_input),
                    root,
                    is_input,
                ));
            },
            Descriptor::Scalar(s) => {
                lemma_status_at(td, s.base_type_pos.0 as int, d, root, is_input);
            },
            Descriptor::Tuple(t) => {
                lemma_tuple_status(td, t.element_types@, t.element_types@.len() as int, d, root, is_input);
            },
            Descriptor::NamedTuple(n) => {
                let f = tuple_fields(n.elements@);
                lemma_shape_status(td, f, f.len() as int, d, root, is_input);
                assert(object_at(td, f, d, root, is_input) == finish_struct(
                    shape_prefix(td, f, f.len() as int, d, root, is_input),
                    root,
                    is_input,
                ));
            },
            Descriptor::Array(a) => {
                lemma_status_at(td, a.type_pos.0 as int, d, root, is_input);
            },
            Descriptor::InputShape(o) => {
                let f = shape_fields(o.elements@);
                lemma_shape_status(td, f, f.len() as int, d, root, is_input);
                assert(object_at(td, f, d, root, is_input) == finish_struct(
                    shape_prefix(td, f, f.len() as int, d, root, is_input),
                    root,
                    is_input,
                ));
            },
            _ => {},
        }
    }
}

/// A tuple's status says whether every element has a type.
pub proof fn lemma_tuple_status(
    td: Seq<Descriptor>,
    elements: Seq<TypePos>,
    n: int,
    depth: nat,
    root: Seq<char>,
    is_input: bool,
)
    ensures
        tuple_status(td, elements, n, depth) == (tuple_prefix(td, elements, n, depth, root, is_input) is Some),
    decreases depth, 2int, n,
{
    if n > 0 {
        lemma_tuple_status(td, elements, n - 1, depth, root, is_input);
        lemma_status_at(td, elements[n - 1].0 as int, depth, root, is_input);
    }
}

/// A struct's status says whether exploring its fields panics or stops.
pub proof fn lemma_shape_status(
    td: Seq<Descriptor>,
    f: Seq<FieldSpec>,
    n: int,
    depth: nat,
    root: Seq<char>,
    is_input: bool,
)
    ensures
        (shape_status(td, f, n, depth) is Unsupported) == (shape_prefix(td, f, n, depth, root, is_input) is Panics),
        (shape_status(td, f, n, depth) is Untyped) == (shape_prefix(td, f, n, depth, root, is_input) is Stopped),
    decreases depth, 2int, n,
{
    if n > 0 {
        lemma_shape_status(td, f, n - 1, depth, root, is_input);
        let fd = f[n - 1];
        lemma_status_at(td, fd.pos, depth, sub_root_name(root, fd.name), is_input);
    }
}

/// The status of the type at `pos`, if any, in a type description of
/// `td.len()` blocks.
pub open spec fn status_pos(td: Seq<Descriptor>, pos: Option<TypePos>) -> TypeStatus {
    match pos {
        Some(p) => status_at(td, p.0 as int, td.len()),
        None => TypeStatus::Untyped,
    }
}

/// Tells, without generating anything, whether the type at `maybe_pos` is
/// typed, untyped, or not supported by the generator.
pub fn type_status(maybe_pos: Option<TypePos>, typedesc: &Typedesc) -> (r: TypeStatus)
    ensures
        r == status_pos(typedesc@, maybe_pos),
{
    match maybe_pos {
        Some(pos) => status_within(pos, typedesc.descriptors().len(), typedesc),
        None => TypeStatus::Untyped,
    }
}

/// The status of the type at `pos`, entering at most `depth` nested types.
fn status_within(pos: TypePos, depth: usize, typedesc: &Typedesc) -> (r: TypeStatus)
    ensures
        r == status_at(typedesc@, pos.0 as int, depth as nat),
    decreases depth, 1int, 0int,
{
    let ghost td = typedesc@;
    let descriptor = match typedesc.get(pos) {
        Ok(d) => d,
        Err(_) => return TypeStatus::Untyped,
    };
    if depth == 0 {
        return TypeStatus::Unsupported;
    }
    let d = depth - 1;
    match descriptor {
        Descriptor::SetOf(set) => status_within(set.type_pos, d, typedesc),
        Descriptor::ObjectShape(object) => {
            let elements = StructElement::from_shape(object.elements.as_slice());
            fields_status(&elements, d, typedesc)
        },
        Descriptor::BaseScalar(base_scalar) => {
            if uuid_to_known_name(&base_scalar.id).is_some() {
                TypeStatus::Typed
            } else {
                TypeStatus::Untyped
            }
        },
        Descriptor::Scalar(scalar) => status_within(scalar.base_type_pos, d, typedesc),
        Descriptor::Tuple(tuple) => {
            let ghost els = tuple.element_types@;
            let n = tuple.element_types.len();
            let mut i: usize = 0;
            while i < n
                invariant
                    td == typedesc@,
                    d < depth,
                    n == els.len(),
                    els == tuple.element_types@,
                    0 <= i <= n,
                    tuple_status(td, els, i as int, d as nat),
                    0 <= pos.0 < td.len(),
                    td[pos.0 as int] == Descriptor::Tuple(*tuple),
                    d == depth - 1,
                decreases n - i,
            {
                let element = tuple.element_types[i];
                if status_within(element, d, typedesc) != TypeStatus::Typed {
                    proof {
                        lemma_tuple_status_stable(td, els, i + 1, n as int, d as nat);
                        assert(!tuple_status(td, els, n as int, d as nat));
                    }
                    return TypeStatus::Unsupported;
                }
                i = i + 1;
            }
            TypeStatus::Typed
        },
        Descriptor::NamedTuple(named_tuple) => {
            let elements = StructElement::from_named_tuple(named_tuple.elements.as_slice());
            fields_status(&elements, d, typedesc)
        },
        Descriptor::Array(array) => {
            if status_within(array.type_pos, d, typedesc) == TypeStatus::Typed {
                TypeStatus::Typed
            } else {
                TypeStatus::Unsupported
            }
        },
        Descriptor::Enumeration(_) => TypeStatus::Typed,
        Descriptor::InputShape(object) => {
            let elements = StructElement::from_shape(object.elements.as_slice());
            fields_status(&elements, d, typedesc)
        },
        _ => TypeStatus::Unsupported,
    }
}

/// A tuple with an untyped element stays so.
pub proof fn lemma_tuple_status_stable(td: Seq<Descriptor>, elements: Seq<TypePos>, k: int, n: int, depth: nat)
    requires
        0 <= k <= n,
    ensures
        !tuple_status(td, elements, k, depth) ==> !tuple_status(td, elements, n, depth),
    decreases n - k,
{
    if k < n {
        lemma_tuple_status_stable(td, elements, k + 1, n, depth);
    }
}

/// A struct that is unsupported or untyped after some fields stays so.
pub proof fn lemma_shape_status_stable(td: Seq<Descriptor>, f: Seq<FieldSpec>, k: int, n: int, depth: nat)
    requires
        0 <= k <= n,
    ensures
        !(shape_status(td, f, k, depth) is Typed) ==> shape_status(td, f, n, depth) == shape_status(
            td,
            f,
            k,
            depth,
        ),
    decreases n - k,
{
    if k < n {
        lemma_shape_status_stable(td, f, k + 1, n, depth);
    }
}

fn fields_status(elements: &Vec<StructElement<'_>>, depth: usize, typedesc: &Typedesc) -> (r: TypeStatus)
    ensures
        r == shape_status(typedesc@, fields_of(elements@), elements@.len() as int, depth as nat),
    decreases depth, 2int, 0int,
{
    let ghost td = typedesc@;
    let ghost f = fields_of(elements@);
    let n = elements.len();
    let mut i: usize = 0;
    while i < n
        invariant
            td == typedesc@,
            f == fields_of(elements@),
            n == elements.len(),
            f.len() == n,
            0 <= i <= n,
            shape_status(td, f, i as int, depth as nat) is Typed,
        decreases n - i,
    {
        let type_pos = elements[i].type_pos();
        assert(f[i as int] == elements@[i as int]@);
        let status = status_within(type_pos, depth, typedesc);
        if status != TypeStatus::Typed {
            proof {
                lemma_shape_status_stable(td, f, i + 1, n as int, depth as nat);
            }
            return status;
        }
        i = i + 1;
    }
    TypeStatus::Typed
}

/// Tells whether exploring the type at `maybe_pos` runs to its end, that is,
/// meets no unsupported type (a range, a multirange, a type annotation), no
/// tuple element or array element without a type, and no type that contains
/// itself.
pub fn explore_is_supported(
    maybe_pos: Option<TypePos>,
    typedesc: &Typedesc,
    root_name: &str,
    is_input: bool,
) -> (r: bool)
    ensures
        r == !(explore_pos(typedesc@, maybe_pos, root_name@, is_input) is Panics),
{
    proof {
        if let Some(p) = maybe_pos {
            lemma_status_at(typedesc@, p.0 as int, typedesc@.len(), root_name@, is_input);
        }
    }
    type_status(maybe_pos, typedesc) != TypeStatus::Unsupported
}

} // verus!
