use vstd::prelude::*;

verus! {

/// How many values a query, or a field of a shape, yields.
#[derive(Clone, Copy, Debug, PartialEq, Eq, Structural)]
pub enum Cardinality {
    NoResult,
    AtMostOne,
    One,
    Many,
    AtLeastOne,
}

/// The text that opens the Rust type of a value of the given cardinality.
pub open spec fn wrapper_prefix(cardinality: Option<Cardinality>) -> Seq<char> {
    match cardinality {
        Some(Cardinality::NoResult) | Some(Cardinality::AtMostOne) => "Option<"@,
        Some(Cardinality::Many) | Some(Cardinality::AtLeastOne) => "Vec<"@,
        _ => Seq::empty(),
    }
}

/// The text that closes the Rust type of a value of the given cardinality.
pub open spec fn wrapper_suffix(cardinality: Option<Cardinality>) -> Seq<char> {
    match cardinality {
        Some(Cardinality::NoResult) | Some(Cardinality::AtMostOne) => ">"@,
        Some(Cardinality::Many) | Some(Cardinality::AtLeastOne) => ">"@,
        _ => Seq::empty(),
    }
}

/// The prefix and suffix that wrap a type according to its cardinality:
/// `Option<..>` for at most one value, `Vec<..>` for many, nothing otherwise.
pub fn cardinality_wrapper(cardinality: Option<Cardinality>) -> (r: (String, String))
    ensures
        r.0@ == wrapper_prefix(cardinality),
        r.1@ == wrapper_suffix(cardinality),
{
    match cardinality {
        None => (String::new(), String::new()),
        Some(c) => match c {
            Cardinality::NoResult | Cardinality::AtMostOne => (
                String::from_str("Option<"),
                String::from_str(">"),
            ),
            Cardinality::One => (String::new(), String::new()),
            Cardinality::Many | Cardinality::AtLeastOne => (
                String::from_str("Vec<"),
                String::from_str(">"),
            ),
        },
    }
}

} // verus!
