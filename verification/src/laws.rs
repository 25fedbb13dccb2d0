use vstd::prelude::*;

use crate::cardinality::{wrapper_prefix, wrapper_suffix, Cardinality};
use crate::descriptor::{Descriptor, TypePos};
use crate::gelx::{cardinality_type, codec_constant, import_path, token_name};
use crate::gel_generator::{query_props, query_args};
use crate::naming::snake_case;
use crate::text::seq_join;
use crate::gel_descriptor::GelDescriptor;
use crate::gel_generator::{
    annotation_text, debug_str, field_text, gel_explore_at, gel_explore_pos, gel_module_text,
    gel_query_method, gel_object, gel_fields, query_args_text, FieldsProgress, lemma_gel_status_at, opt_seq, safe_name, status_of, GelExplored, GelField,
    GelxNames,
};
use crate::scalars::known_name;
use crate::generator::{
    args_footer, args_header, args_lines, finish_struct, object_at, query_method, shape_fields, struct_lines, struct_text, tuple_fields, tuple_prefix,
    explore_at, explore_object, explore_pos, lemma_status_at, shape_prefix, Explored, FieldSpec,
    ShapeProgress,
};

verus! {

/// A shape or a named tuple is generated as a struct named after the root
/// name it is explored under: when exploring it yields a type, that type is
/// the root name.
pub proof fn law_struct_named_by_root(td: Seq<Descriptor>, pos: TypePos, root: Seq<char>, is_input: bool)
    requires
        pos.0 < td.len(),
        td[pos.0 as int] is ObjectShape || td[pos.0 as int] is NamedTuple || td[pos.0 as int] is InputShape,
    ensures
        explore_pos(td, Some(pos), root, is_input) matches Explored::Done { value: Some(v), .. } ==> v
            == root,
{
}

/// Whether generating code for a type fails, and whether it yields a type,
/// does not depend on the names it is generated under, nor on whether it is
/// an input.
pub proof fn law_support_ignores_names(
    td: Seq<Descriptor>,
    pos: Option<TypePos>,
    root1: Seq<char>,
    is_input1: bool,
    root2: Seq<char>,
    is_input2: bool,
)
    ensures
        (explore_pos(td, pos, root1, is_input1) is Panics) == (explore_pos(td, pos, root2, is_input2) is Panics),
        (explore_pos(td, pos, root1, is_input1) matches Explored::Done { value: Some(_), .. })
            == (explore_pos(td, pos, root2, is_input2) matches Explored::Done { value: Some(_), .. }),
{
    if let Some(p) = pos {
        lemma_status_at(td, p.0 as int, td.len(), root1, is_input1);
        lemma_status_at(td, p.0 as int, td.len(), root2, is_input2);
    }
}

/// Every field explored so far is a field of the struct, in order, and, for
/// an input, also an entry of its argument encoder.
pub proof fn law_one_line_per_field(
    td: Seq<Descriptor>,
    f: Seq<FieldSpec>,
    n: int,
    depth: nat,
    root: Seq<char>,
    is_input: bool,
)
    requires
        0 <= n,
    ensures
        shape_prefix(td, f, n, depth, root, is_input) matches ShapeProgress::Running { fields, args, .. }
            ==> fields.len() == n && args.len() == (if is_input {
            n
        } else {
            0
        }),
    decreases n,
{
    if n > 0 {
        law_one_line_per_field(td, f, n - 1, depth, root, is_input);
    }
}

/// A struct is generated exactly when every field has a type, and then it
/// has exactly one field per element.
pub proof fn law_struct_has_every_field(
    td: Seq<Descriptor>,
    f: Seq<FieldSpec>,
    root: Seq<char>,
    is_input: bool,
)
    ensures
        shape_prefix(td, f, f.len() as int, td.len(), root, is_input) matches ShapeProgress::Running {
            fields,
            args,
            ..
        } ==> fields.len() == f.len(),
        (explore_object(td, f, root, is_input) matches Explored::Done { value: Some(_), .. })
            == (shape_prefix(td, f, f.len() as int, td.len(), root, is_input) is Running),
{
    law_one_line_per_field(td, f, f.len() as int, td.len(), root, is_input);
}

/// Ranges and multiranges are not supported: generating code for one panics.
pub proof fn law_ranges_are_unsupported(td: Seq<Descriptor>, pos: TypePos, root: Seq<char>, is_input: bool)
    requires
        pos.0 < td.len(),
        td[pos.0 as int] is Range || td[pos.0 as int] is MultiRange,
    ensures
        explore_pos(td, Some(pos), root, is_input) is Panics,
{
}

/// Every enumeration is represented as a `String`, and needs no generated
/// code.
pub proof fn law_enums_are_strings(td: Seq<Descriptor>, pos: TypePos, root: Seq<char>, is_input: bool)
    requires
        pos.0 < td.len(),
        td[pos.0 as int] is Enumeration,
    ensures
        explore_pos(td, Some(pos), root, is_input) == (Explored::Done {
            value: Some("String"@),
            emitted: Seq::empty(),
        }),
{
}

/// In the gel flavour too, whether generating code for a type panics, fails
/// or finishes does not depend on the name it is generated under, on its
/// direction, or on whether it is a root.
pub proof fn law_gel_outcome_ignores_names(
    td: Seq<GelDescriptor>,
    pos: Option<TypePos>,
    root1: Seq<char>,
    is_input1: bool,
    is_root1: bool,
    root2: Seq<char>,
    is_input2: bool,
    is_root2: bool,
    is_macro: bool,
    names: GelxNames,
)
    ensures
        status_of(gel_explore_pos(td, pos, root1, is_input1, is_macro, is_root1, names)) == status_of(
            gel_explore_pos(td, pos, root2, is_input2, is_macro, is_root2, names),
        ),
{
    lemma_gel_status_at(td, pos, td.len(), root1, is_input1, is_macro, is_root1, names);
    lemma_gel_status_at(td, pos, td.len(), root2, is_input2, is_macro, is_root2, names);
}

/// Both ways of writing a cardinality agree, except for a query that yields
/// no result: the gel flavour writes `()` for it where the first writes an
/// option.
pub proof fn law_cardinality_writings_agree(c: Cardinality, token: Seq<char>)
    ensures
        c != Cardinality::NoResult ==> cardinality_type(Some(c), token) == wrapper_prefix(Some(c))
            + token + wrapper_suffix(Some(c)),
        cardinality_type(Some(Cardinality::NoResult), token) == "()"@,
        wrapper_prefix(Some(Cardinality::NoResult)) == "Option<"@,
{
    if c == Cardinality::One {
        assert(Seq::<char>::empty() + token + Seq::<char>::empty() =~= token);
    }
}

/// A scalar type has a codec import exactly when it has a Rust type, and the
/// import is always the path of its codec constant under the exports'
/// `gel_protocol::codec` module.
pub proof fn law_codec_imports_shape(id: u128, exports: Seq<char>)
    ensures
        (import_path(id, exports) is Some) == (token_name(id, exports) is Some),
        (import_path(id, exports) is Some) == (codec_constant(id) is Some),
        import_path(id, exports) matches Some(t) ==> codec_constant(id) matches Some(c) && t == exports
            + "::gel_protocol::codec::"@ + c,
{
}

/// Every scalar type that the first flavour of the generator knows, the gel
/// flavour knows too.
pub proof fn law_known_scalars_are_mapped(id: u128, exports: Seq<char>)
    ensures
        known_name(id) is Some ==> token_name(id, exports) is Some,
{
}

/// The client method of a generated query function fits the return type it
/// declares, whatever the result cardinality: `execute` exactly for a query
/// with no result, `query_single` exactly when the result is an `Option` of
/// the output, `query` exactly when it is a `Vec` of it, and
/// `query_required_single` exactly when it is the output itself.
pub proof fn law_query_method_fits_return_type(c: Cardinality, t: Seq<char>)
    ensures
        (gel_query_method(c) == "execute"@) == (c == Cardinality::NoResult),
        (gel_query_method(c) == "query_single"@) == (cardinality_type(Some(c), t) == "Option<"@ + t + ">"@),
        (gel_query_method(c) == "query"@) == (cardinality_type(Some(c), t) == "Vec<"@ + t + ">"@),
        (gel_query_method(c) == "query_required_single"@) == (c == Cardinality::One),
        gel_query_method(c) == "query_required_single"@ ==> cardinality_type(Some(c), t) == t,
        gel_query_method(c) == "execute"@ ==> cardinality_type(Some(c), t) == "()"@,
{
    reveal_strlit("execute");
    reveal_strlit("query_single");
    reveal_strlit("query");
    reveal_strlit("query_required_single");
    reveal_strlit("Option<");
    reveal_strlit("Vec<");
    reveal_strlit(">");
    reveal_strlit("()");
    let o = "Option<"@ + t + ">"@;
    let v = "Vec<"@ + t + ">"@;
    assert(o.len() == t.len() + 8);
    assert(v.len() == t.len() + 5);
    assert(o[0] == 'O' && v[0] == 'V');
    assert("execute"@.len() == 7 && "query_single"@.len() == 12 && "query"@.len() == 5
        && "query_required_single"@.len() == 21 && "()"@.len() == 2);
    assert(o != v) by {
        assert(o[0] != v[0]);
    }
    assert(o != t && v != t);
    assert(o != "()"@ && v != "()"@);
}

/// `part` occurs in `t`.
pub open spec fn contains_text(t: Seq<char>, part: Seq<char>) -> bool {
    exists|i: int| 0 <= i && i + part.len() <= t.len() && #[trigger] t.subrange(i, i + part.len()) == part
}

/// The generated module's query function calls the client with the method
/// that fits its cardinality and declares the return type of that
/// cardinality.
pub proof fn law_module_calls_fitting_method(
    name: Seq<char>,
    query_literal: Seq<char>,
    has_input: bool,
    has_output: bool,
    c: Cardinality,
    names: GelxNames,
    tokens: Seq<Seq<char>>,
)
    ensures
        contains_text(
            gel_module_text(name, query_literal, has_input, has_output, c, names, tokens),
            names.query_prop_name@ + "."@ + gel_query_method(c) + "("@,
        ),
        contains_text(
            gel_module_text(name, query_literal, has_input, has_output, c, names, tokens),
            ") -> ::core::result::Result<"@ + cardinality_type(
                Some(c),
                if has_output {
                    names.output_struct@
                } else {
                    "()"@
                },
            ) + ", "@,
        ),
{
    let e = names.exports@;
    let inner = if has_output {
        names.output_struct@
    } else {
        "()"@
    };
    let a = "pub mod "@ + snake_case(name) + " {\nuse ::gelx::exports as "@ + e
        + ";\n/// Execute the desired query.\n"@ + names.query_annotation@ + "\npub async fn "@
        + names.query_function@ + "("@ + seq_join(query_props(has_input, names), ", "@);
    let ret = ") -> ::core::result::Result<"@ + cardinality_type(Some(c), inner) + ", "@;
    let b = e + "::gel_errors::Error> {\n"@;
    let call = names.query_prop_name@ + "."@ + gel_query_method(c) + "("@;
    let post = seq_join(query_args(has_input, names), ", "@) + ").await\n}\n"@ + seq_join(tokens, "\n"@)
        + "\n/// The original query string provided to the macro. Can be reused in your codebase.\npub const "@
        + names.query_constant@ + ": &str = "@ + query_literal + ";\n}"@;
    let text = gel_module_text(name, query_literal, has_input, has_output, c, names, tokens);
    assert(text =~= a + ret + b + call + post);
    let i = (a + ret + b).len() as int;
    assert(text.subrange(i, i + call.len()) =~= call);
    let j = a.len() as int;
    assert(text.subrange(j, j + ret.len()) =~= ret);
}

/// A root type of a kind that needs no struct (a set, an array, a range, a
/// tuple, a base scalar, a named enumeration) is named by an alias of the
/// type it would have elsewhere: exploring it as a root gives the root name
/// and appends `pub type {root} = {type};` to what exploring it elsewhere
/// writes, and fails or panics just as that does.
pub proof fn law_root_types_are_aliased(
    td: Seq<GelDescriptor>,
    pos: TypePos,
    depth: nat,
    root: Seq<char>,
    is_input: bool,
    is_macro: bool,
    names: GelxNames,
)
    requires
        pos.0 < td.len(),
        td[pos.0 as int] is SetOf || td[pos.0 as int] is Array || td[pos.0 as int] is Range
            || td[pos.0 as int] is Tuple || td[pos.0 as int] is BaseScalar || (td[pos.0 as int] is Enumeration
            && td[pos.0 as int]->Enumeration_0.name is Some),
    ensures
        match gel_explore_at(td, Some(pos), depth, root, is_input, is_macro, false, names) {
            GelExplored::Done { value, emitted } => gel_explore_at(td, Some(pos), depth, root, is_input, is_macro, true, names)
                == (GelExplored::Done {
                value: Some(root),
                emitted: emitted.push("pub type "@ + root + " = "@ + opt_seq(value) + ";"@),
            }),
            other => gel_explore_at(td, Some(pos), depth, root, is_input, is_macro, true, names) == other,
        },
{
}

/// A field whose safe name differs from its name carries both the serde and
/// the query rename of that name, first on its line, in input and output
/// structs alike; an output field's line is those renames and the field.
pub proof fn law_renamed_fields_carry_both_renames(
    fd: GelField,
    value: Option<Seq<char>>,
    is_input: bool,
    names: GelxNames,
)
    requires
        safe_name(fd.name) != fd.name,
    ensures
        ({
            let p = annotation_text(names.serde_rename, "serde(rename = "@ + debug_str(fd.name) + ")"@)
                + annotation_text(names.query_rename, "gel(rename = "@ + debug_str(fd.name) + ")"@);
            p.len() <= field_text(fd, value, is_input, names).len() && field_text(
                fd,
                value,
                is_input,
                names,
            ).subrange(0, p.len() as int) == p
        }),
        field_text(fd, value, false, names) == annotation_text(
            names.serde_rename,
            "serde(rename = "@ + debug_str(fd.name) + ")"@,
        ) + annotation_text(names.query_rename, "gel(rename = "@ + debug_str(fd.name) + ")"@) + "pub "@
            + safe_name(fd.name) + ": "@ + (if fd.cardinality == Cardinality::AtMostOne {
            "Option<"@ + opt_seq(value) + ">"@
        } else {
            opt_seq(value)
        }) + ","@,
{
    let p = annotation_text(names.serde_rename, "serde(rename = "@ + debug_str(fd.name) + ")"@)
        + annotation_text(names.query_rename, "gel(rename = "@ + debug_str(fd.name) + ")"@);
    let t = field_text(fd, value, is_input, names);
    assert(t.subrange(0, p.len() as int) =~= p);
    let o = field_text(fd, value, false, names);
    assert(o =~= p + ("pub "@ + safe_name(fd.name) + ": "@ + (if fd.cardinality == Cardinality::AtMostOne {
        "Option<"@ + opt_seq(value) + ">"@
    } else {
        opt_seq(value)
    }) + ","@));
}

/// The scalar types that both flavours write as Rust primitives or `String`.
pub open spec fn primitive_scalar(id: u128) -> bool {
    id == 0x101 || id == 0x103 || id == 0x104 || id == 0x105 || id == 0x106 || id == 0x107 || id == 0x109
}

/// The two flavours of the generator agree on the Rust type of every scalar
/// that is a primitive or `String`: for these, the EdgeDB flavour's type is
/// the gel flavour's, which does not depend on the exports alias.
pub proof fn law_primitive_scalars_agree(id: u128, exports: Seq<char>, other_exports: Seq<char>)
    requires
        primitive_scalar(id),
    ensures
        known_name(id) == token_name(id, exports),
        token_name(id, exports) == token_name(id, other_exports),
        known_name(id) is Some,
{
}

/// An input shape is generated exactly as an object shape with the same
/// fields, in the same direction: the same struct, with its `QueryArgs` impl
/// when it is explored as an input, and the same structs for its fields.
pub proof fn law_input_shape_is_generated_as_object_shape(
    td: Seq<Descriptor>,
    p: int,
    q: int,
    depth: nat,
    root: Seq<char>,
    is_input: bool,
)
    requires
        0 <= p < td.len(),
        0 <= q < td.len(),
        td[p] is InputShape,
        td[q] is ObjectShape,
        td[p]->InputShape_0.elements@ == td[q]->ObjectShape_0.elements@,
    ensures
        explore_at(td, p, depth, root, is_input) == explore_at(td, q, depth, root, is_input),
{
}

/// Two outcomes of exploring agree on whether the generator panics and on
/// the type found.
pub open spec fn same_type_found(a: Explored, b: Explored) -> bool {
    &&& (a is Panics) == (b is Panics)
    &&& (a matches Explored::Done { value: v, .. } ==> (b matches Explored::Done { value: w, .. } && v == w))
}

/// Two states of a struct agree on panicking, stopping and the field lines.
pub open spec fn same_fields_found(a: ShapeProgress, b: ShapeProgress) -> bool {
    &&& (a is Panics) == (b is Panics)
    &&& (a is Stopped) == (b is Stopped)
    &&& (a matches ShapeProgress::Running { fields: f, .. } ==> (b matches ShapeProgress::Running {
        fields: g,
        ..
    } && f == g))
}

/// The type found for a type does not depend on whether it is explored as an
/// input.
pub proof fn lemma_type_ignores_direction(td: Seq<Descriptor>, p: int, depth: nat, root: Seq<char>)
    ensures
        same_type_found(explore_at(td, p, depth, root, true), explore_at(td, p, depth, root, false)),
    decreases depth, 1int, 0int,
{
    if 0 <= p < td.len() && depth > 0 {
        let d = (depth - 1) as nat;
        match td[p] {
            Descriptor::SetOf(x) => {
                lemma_type_ignores_direction(td, x.type_pos.0 as int, d, root);
            },
            Descriptor::Scalar(x) => {
                lemma_type_ignores_direction(td, x.base_type_pos.0 as int, d, root);
            },
            Descriptor::Array(x) => {
                lemma_type_ignores_direction(td, x.type_pos.0 as int, d, root);
            },
            Descriptor::Tuple(x) => {
                lemma_tuple_ignores_direction(td, x.element_types@, x.element_types@.len() as int, d, root);
            },
            Descriptor::ObjectShape(x) => {
                let f = shape_fields(x.elements@);
                lemma_fields_ignore_direction(td, f, f.len() as int, d, root);
                assert(object_at(td, f, d, root, true) == finish_struct(shape_prefix(td, f, f.len() as int, d, root, true), root, true));
                assert(object_at(td, f, d, root, false) == finish_struct(shape_prefix(td, f, f.len() as int, d, root, false), root, false));
            },
            Descriptor::NamedTuple(x) => {
                let f = tuple_fields(x.elements@);
                lemma_fields_ignore_direction(td, f, f.len() as int, d, root);
                assert(object_at(td, f, d, root, true) == finish_struct(shape_prefix(td, f, f.len() as int, d, root, true), root, true));
                assert(object_at(td, f, d, root, false) == finish_struct(shape_prefix(td, f, f.len() as int, d, root, false), root, false));
            },
            Descriptor::InputShape(x) => {
                let f = shape_fields(x.elements@);
                lemma_fields_ignore_direction(td, f, f.len() as int, d, root);
                assert(object_at(td, f, d, root, true) == finish_struct(shape_prefix(td, f, f.len() as int, d, root, true), root, true));
                assert(object_at(td, f, d, root, false) == finish_struct(shape_prefix(td, f, f.len() as int, d, root, false), root, false));
            },
            _ => {},
        }
    }
}

/// The types of a tuple's elements do not depend on the direction.
pub proof fn lemma_tuple_ignores_direction(
    td: Seq<Descriptor>,
    elements: Seq<TypePos>,
    n: int,
    depth: nat,
    root: Seq<char>,
)
    ensures
        tuple_prefix(td, elements, n, depth, root, true) == tuple_prefix(td, elements, n, depth, root, false),
    decreases depth, 2int, n,
{
    if n > 0 {
        lemma_tuple_ignores_direction(td, elements, n - 1, depth, root);
        lemma_type_ignores_direction(td, elements[n - 1].0 as int, depth, root);
    }
}

/// The field lines of a struct do not depend on the direction.
pub proof fn lemma_fields_ignore_direction(
    td: Seq<Descriptor>,
    f: Seq<FieldSpec>,
    n: int,
    depth: nat,
    root: Seq<char>,
)
    ensures
        same_fields_found(shape_prefix(td, f, n, depth, root, true), shape_prefix(td, f, n, depth, root, false)),
    decreases depth, 2int, n,
{
    if n > 0 {
        lemma_fields_ignore_direction(td, f, n - 1, depth, root);
        let fd = f[n - 1];
        lemma_type_ignores_direction(td, fd.pos, depth, crate::generator::sub_root_name(root, fd.name));
    }
}

/// A joined text starts with its first part.
pub proof fn lemma_seq_join_starts_with_first(parts: Seq<Seq<char>>, sep: Seq<char>)
    requires
        parts.len() >= 1,
    ensures
        parts[0].len() <= seq_join(parts, sep).len(),
        seq_join(parts, sep).subrange(0, parts[0].len() as int) == parts[0],
    decreases parts.len(),
{
    if parts.len() > 1 {
        lemma_seq_join_starts_with_first(parts.drop_last(), sep);
        let j = seq_join(parts.drop_last(), sep);
        assert(parts.drop_last()[0] == parts[0]);
        assert((j + sep + parts.last()).subrange(0, parts[0].len() as int) =~= j.subrange(0, parts[0].len() as int));
    }
}

/// A struct generated for an input is the struct generated for an output
/// with the same fields, followed by a newline and its `QueryArgs` impl; so an
/// input shape, object shape or named tuple explored as an input always gets
/// that impl.
pub proof fn law_input_structs_get_query_args(
    td: Seq<Descriptor>,
    f: Seq<FieldSpec>,
    depth: nat,
    root: Seq<char>,
)
    ensures
        object_at(td, f, depth, root, true) matches Explored::Done { value: Some(v1), .. } ==> (object_at(
            td,
            f,
            depth,
            root,
            false,
        ) matches Explored::Done { value: Some(v2), .. } && v2.len() + ("\nimpl QueryArgs for "@ + root).len()
            <= v1.len() && v1.subrange(0, v2.len() as int) == v2 && v1.subrange(
            v2.len() as int,
            (v2.len() + ("\nimpl QueryArgs for "@ + root).len()) as int,
        ) == "\nimpl QueryArgs for "@ + root),
{
    lemma_fields_ignore_direction(td, f, f.len() as int, depth, root);
    let a = shape_prefix(td, f, f.len() as int, depth, root, true);
    let b = shape_prefix(td, f, f.len() as int, depth, root, false);
    if let ShapeProgress::Running { fields, args, .. } = a {
        let lines = struct_lines(root, fields).push("}"@);
        let x = seq_join(args_lines(root, args, true).push(args_footer()), "\n"@);
        let v2 = seq_join(lines, "\n"@);
        assert(lines.push(x).drop_last() =~= lines);
        assert(lines.len() >= 2);
        let v1 = seq_join(lines.push(x), "\n"@);
        assert(v1 == v2 + "\n"@ + x);
        lemma_seq_join_starts_with_first(args_lines(root, args, true).push(args_footer()), "\n"@);
        assert(args_lines(root, args, true).push(args_footer())[0] == args_header(root));
        reveal_strlit("impl QueryArgs for ");
        reveal_strlit("\nimpl QueryArgs for ");
        reveal_strlit("\n");
        let h = "impl QueryArgs for "@ + root;
        assert(args_header(root).subrange(0, h.len() as int) =~= h);
        assert(x.subrange(0, h.len() as int) =~= h);
        assert(v1.subrange(0, v2.len() as int) =~= v2);
        let hh = "\n"@ + h;
        assert("\nimpl QueryArgs for "@ =~= "\n"@ + "impl QueryArgs for "@);
        assert(("\nimpl QueryArgs for "@ + root) =~= hh);
        assert forall|k: int| 0 <= k < hh.len() implies #[trigger] v1[v2.len() + k] == hh[k] by {
            if k > 0 {
                assert(x[k - 1] == x.subrange(0, h.len() as int)[k - 1]);
            }
        }
        assert(v1.subrange(v2.len() as int, (v2.len() + ("\nimpl QueryArgs for "@ + root).len()) as int) =~= "\nimpl QueryArgs for "@ + root);
    }
}

/// Exploring an object shape, an input shape or a named tuple as an input
/// writes the struct it writes as an output, followed by a newline and the
/// struct's `QueryArgs` impl.
pub proof fn law_explored_input_structs_get_query_args(
    td: Seq<Descriptor>,
    p: int,
    depth: nat,
    root: Seq<char>,
)
    requires
        0 <= p < td.len(),
        td[p] is ObjectShape || td[p] is InputShape || td[p] is NamedTuple,
    ensures
        explore_at(td, p, depth, root, true) matches Explored::Done { value: Some(_), emitted: e1 } ==> (
        explore_at(td, p, depth, root, false) matches Explored::Done { value: Some(_), emitted: e2 }
            && e1.len() >= 1 && e2.len() >= 1 && e2[0].len() + ("\nimpl QueryArgs for "@ + root).len()
            <= e1[0].len() && e1[0].subrange(0, e2[0].len() as int) == e2[0] && e1[0].subrange(
            e2[0].len() as int,
            (e2[0].len() + ("\nimpl QueryArgs for "@ + root).len()) as int,
        ) == "\nimpl QueryArgs for "@ + root),
{
    if depth > 0 {
        let d = (depth - 1) as nat;
        let f = match td[p] {
            Descriptor::ObjectShape(x) => shape_fields(x.elements@),
            Descriptor::InputShape(x) => shape_fields(x.elements@),
            Descriptor::NamedTuple(x) => tuple_fields(x.elements@),
            _ => Seq::empty(),
        };
        law_input_structs_get_query_args(td, f, d, root);
    }
}

/// The client method of a query function in the EdgeDB flavour fits its
/// return type, whatever the cardinality: `query_single` exactly when the
/// result is wrapped in an `Option`, `query` exactly when in a `Vec`, and
/// `query_required_single` exactly when it is not wrapped.
pub proof fn law_edgedb_query_method_fits_return_type(c: Cardinality)
    ensures
        (query_method(c) == "query_single"@) == (wrapper_prefix(Some(c)) == "Option<"@),
        (query_method(c) == "query"@) == (wrapper_prefix(Some(c)) == "Vec<"@),
        (query_method(c) == "query_required_single"@) == (wrapper_prefix(Some(c)).len() == 0),
{
    reveal_strlit("query_single");
    reveal_strlit("query");
    reveal_strlit("query_required_single");
    reveal_strlit("Option<");
    reveal_strlit("Vec<");
    assert("query_single"@.len() == 12 && "query"@.len() == 5 && "query_required_single"@.len() == 21);
    assert("Option<"@.len() == 7 && "Vec<"@.len() == 4);
}

/// In the gel flavour too, a struct's fields explored so far are one line
/// each and, for an input, one encoder entry each.
pub proof fn law_gel_one_line_per_field(
    td: Seq<GelDescriptor>,
    f: Seq<GelField>,
    n: int,
    depth: nat,
    root: Seq<char>,
    is_input: bool,
    is_macro: bool,
    names: GelxNames,
)
    requires
        0 <= n,
    ensures
        gel_fields(td, f, n, depth, root, is_input, is_macro, names) matches FieldsProgress::Running {
            lines,
            args,
            ..
        } ==> lines.len() == n && args.len() == (if is_input {
            n
        } else {
            0
        }),
    decreases n,
{
    if n > 0 {
        law_gel_one_line_per_field(td, f, n - 1, depth, root, is_input, is_macro, names);
    }
}

/// In the gel flavour, a struct explored as an input is named after its root
/// and is written last, with a `QueryArgs` impl for that struct holding one
/// named argument per field.
pub proof fn law_gel_input_structs_get_query_args(
    td: Seq<GelDescriptor>,
    f: Seq<GelField>,
    depth: nat,
    root: Seq<char>,
    is_macro: bool,
    names: GelxNames,
)
    ensures
        gel_object(td, f, depth, root, true, is_macro, names) matches GelExplored::Done { value, emitted } ==> (
        value == Some(root) && emitted.len() >= 1 && contains_text(
            emitted.last(),
            "impl "@ + names.exports@ + "::gel_protocol::query_arg::QueryArgs for "@ + root + " {"@,
        ) && (gel_fields(td, f, f.len() as int, depth, root, true, is_macro, names) matches FieldsProgress::Running {
            args,
            ..
        } && args.len() == f.len())),
{
    law_gel_one_line_per_field(td, f, f.len() as int, depth, root, true, is_macro, names);
    if let FieldsProgress::Running { lines, args, emitted } = gel_fields(
        td,
        f,
        f.len() as int,
        depth,
        root,
        true,
        is_macro,
        names,
    ) {
        let e = names.exports@;
        let h = "impl "@ + e + "::gel_protocol::query_arg::QueryArgs for "@ + root + " {"@;
        let body = names.input_derives@ + "\npub struct "@ + root + " {\n"@ + seq_join(lines, "\n"@) + "\n}"@;
        let q = query_args_text(root, args, e);
        reveal_strlit(" {");
        reveal_strlit(" {\n\tfn encode(&self, encoder: &mut ");
        let rest = " {\n\tfn encode(&self, encoder: &mut "@.subrange(2, " {\n\tfn encode(&self, encoder: &mut "@.len() as int) + e
            + "::gel_protocol::query_arg::Encoder) -> core::result::Result<(), "@ + e
            + "::gel_errors::Error> {\n\t\tlet map = "@ + e + "::gel_protocol::named_args! {\n"@ + seq_join(args, "\n"@)
            + "\n\t\t};\n\t\tmap.encode(encoder)\n\t}\n}"@;
        assert(" {\n\tfn encode(&self, encoder: &mut "@ =~= " {"@ + " {\n\tfn encode(&self, encoder: &mut "@.subrange(2, " {\n\tfn encode(&self, encoder: &mut "@.len() as int));
        assert(q =~= h + rest);
        let t = body + "\n"@ + q;
        let i = (body + "\n"@).len() as int;
        assert(t.subrange(i, i + h.len()) =~= h);
    }
}

} // verus!




