use vstd::prelude::*;

verus! {

/// A punctuation character to emit on its own in generated code.
pub struct Char(char);

/// The `#` that starts an attribute.
pub fn pound() -> (r: Char)
    ensures
        r.spec_char() == '#',
{
    Char('#')
}

impl Char {
    /// The character itself.
    pub closed spec fn spec_char(&self) -> char {
        self.0
    }

    /// A punctuation character.
    pub fn new(c: char) -> (r: Char)
        ensures
            r.spec_char() == c,
    {
        Char(c)
    }

    /// The character itself.
    pub fn as_char(&self) -> (r: char)
        ensures
            r == self.spec_char(),
    {
        self.0
    }
}

/// The source that `generate_query_module` gives for every query: a constant
/// and its use, whatever the module name and the query.
pub open spec fn placeholder_module() -> Seq<char> {
    "const A: u8 = 100; A"@
}

/// Generates the placeholder module for a query.
pub fn generate_query_module(module_name: &str, query: &str) -> (r: String)
    ensures
        r@ == placeholder_module(),
{
    String::from_str("const A: u8 = 100; A")
}

/// Generates a placeholder module and discards it.
pub fn s() {
    let _a = generate_query_module("unused", "");
}

} // verus!
