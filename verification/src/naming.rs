use vstd::prelude::*;

verus! {

/// What `heck::ToSnakeCase::to_snake_case` returns for a string.
pub uninterp spec fn snake_case(s: Seq<char>) -> Seq<char>;

/// What `heck::ToPascalCase::to_pascal_case` returns for a string.
pub uninterp spec fn pascal_case(s: Seq<char>) -> Seq<char>;

/// What `heck::ToKebabCase::to_kebab_case` returns for a string.
pub uninterp spec fn kebab_case(s: Seq<char>) -> Seq<char>;

/// What `check_keyword::CheckKeyword::into_safe` returns for a string.
pub uninterp spec fn safe_ident(s: Seq<char>) -> Seq<char>;

/// Calls `heck::ToSnakeCase::to_snake_case`: words split at case changes and
/// at non-alphanumeric characters, lower-cased and joined with `_`. The result
/// is given its name, `snake_case`, and nothing more is claimed of it.
#[verifier::external_body]
pub(crate) fn to_snake_case(s: &str) -> (r: String)
    ensures
        r@ == snake_case(s@),
{
    heck::ToSnakeCase::to_snake_case(s)
}

/// Calls `heck::ToPascalCase::to_pascal_case`: words capitalised and joined
/// with nothing between them. The result is given its name, `pascal_case`, and
/// nothing more is claimed of it.
#[verifier::external_body]
pub(crate) fn to_pascal_case(s: &str) -> (r: String)
    ensures
        r@ == pascal_case(s@),
{
    heck::ToPascalCase::to_pascal_case(s)
}

/// Calls `heck::ToKebabCase::to_kebab_case`: words lower-cased and joined with
/// `-`. The result is given its name, `kebab_case`, and nothing more is
/// claimed of it.
#[verifier::external_body]
pub(crate) fn to_kebab_case(s: &str) -> (r: String)
    ensures
        r@ == kebab_case(s@),
{
    heck::ToKebabCase::to_kebab_case(s)
}

/// Calls `check_keyword::CheckKeyword::into_safe`. Its source looks the string
/// up in a table of Rust keywords and returns it unchanged, with `r#` in front
/// of it, or with `_` after it; the contract claims that much and names the
/// result `safe_ident`, but does not state the keyword table.
#[verifier::external_body]
pub(crate) fn into_safe(s: String) -> (r: String)
    ensures
        r@ == safe_ident(s@),
        r@ == s@ || r@ == "r#"@ + s@ || r@ == s@ + "_"@,
{
    check_keyword::CheckKeyword::into_safe(s)
}

} // verus!
