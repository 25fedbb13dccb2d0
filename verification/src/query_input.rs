use vstd::prelude::*;

use crate::paths::{
    bare_file_name, has_slash, resolve_path, resolved_as, separated_base, simple_relative,
    ResolvePathError,
};

verus! {

/// Where the text of a query comes from: given inline, or read from a file
/// whose path is relative to the crate's root.
pub enum QueryContent {
    Query(String),
    File(String),
}

/// The path of the file that holds the query of a module named `module` when
/// no query is given: `queries/{module}.edgeql`.
pub open spec fn default_query_path(module: Seq<char>) -> Seq<char> {
    "queries/"@ + module + ".edgeql"@
}

/// The default query file of a module with a non-empty name holding no
/// separator nor drive colon is a path under the crate's root that every
/// platform resolves alike: resolving it with a known root succeeds.
pub proof fn lemma_default_query_path_resolves(module: Seq<char>)
    requires
        module.len() > 0,
        forall|i: int| 0 <= i < module.len() ==> #[trigger] module[i] != '/' && module[i] != '\\' && module[i] != ':',
    ensures
        simple_relative(default_query_path(module)),
        has_slash(default_query_path(module)),
{
    reveal_strlit("queries/");
    reveal_strlit(".edgeql");
    let p = default_query_path(module);
    let m = module.len();
    assert(p.len() == 8 + m + 7);
    assert forall|i: int| 0 <= i < m implies p[8 + i] == module[i] by {}
    assert(p[7] == '/');
    assert forall|i: int| 0 <= i < p.len() implies p[i] != ':' && p[i] != '\\' by {
        if 8 <= i < 8 + m {
            assert(p[i] == module[i - 8]);
        }
    }
    assert forall|i: int| 0 <= i < p.len() - 1 && #[trigger] p[i] == '/' implies p[i + 1] != '/' by {
        if 8 <= i < 8 + m {
            assert(p[i] == module[i - 8]);
        }
        if 8 <= i + 1 < 8 + m {
            assert(p[i + 1] == module[i + 1 - 8]);
        }
    }
    assert forall|i: int|
        0 <= i < p.len() && #[trigger] p[i] == '.' && (i == 0 || p[i - 1] == '/') implies i + 1 < p.len()
            && p[i + 1] != '/' by {
        if 8 <= i < 8 + m {
            assert(p[i] == module[i - 8]);
        }
        if 8 <= i + 1 < 8 + m {
            assert(p[i + 1] == module[i + 1 - 8]);
        }
        if 8 <= i - 1 < 8 + m {
            assert(p[i - 1] == module[i - 1 - 8]);
        }
    }
}

/// A query input that names neither `file` nor `query`.
pub enum QueryInputError {
    UnexpectedMarker { marker: String },
}

impl QueryInputError {
    /// The message the macro reports for the error.
    pub fn message(&self) -> (r: String)
        ensures
            self matches QueryInputError::UnexpectedMarker { marker } && r@
                == "unexpected marker token: "@ + marker@,
    {
        match self {
            QueryInputError::UnexpectedMarker { marker } => crate::text::concat2(
                "unexpected marker token: ",
                marker.as_str(),
            ),
        }
    }
}

/// Where the query of a module comes from, given the module's name and, if
/// the macro had one, the marker (`file` or `query`) with its literal.
pub fn query_content(module: &str, marked: Option<(String, String)>) -> (r: Result<
    QueryContent,
    QueryInputError,
>)
    ensures
        marked is None ==> (r matches Ok(QueryContent::File(path)) && path@ == default_query_path(
            module@,
        )),
        marked matches Some((marker, value)) ==> {
            if marker@ == "file"@ {
                (r matches Ok(QueryContent::File(path)) && path@ == value@)
            } else if marker@ == "query"@ {
                (r matches Ok(QueryContent::Query(query)) && query@ == value@)
            } else {
                (r matches Err(QueryInputError::UnexpectedMarker { marker: m }) && m@ == marker@)
            }
        },
{
    match marked {
        None => Ok(QueryContent::File(crate::text::concat3("queries/", module, ".edgeql"))),
        Some((marker, value)) => {
            let file = String::from_str("file");
            let query = String::from_str("query");
            if marker == file {
                Ok(QueryContent::File(value))
            } else if marker == query {
                Ok(QueryContent::Query(value))
            } else {
                Err(QueryInputError::UnexpectedMarker { marker })
            }
        },
    }
}

/// The next step in getting the text of a query.
pub enum ResolveStep {
    /// The text is known.
    Ready(String),
    /// The text is in the file at this path; hand its contents to
    /// [`finish_query_file`].
    ReadFile(String),
    /// The path is not acceptable.
    Failed(ResolvePathError),
}

/// A white-space character, as Unicode's derived core property White_Space
/// defines it.
pub open spec fn is_white_space(c: char) -> bool {
    ('\u{9}' <= c && c <= '\u{d}') || c == ' ' || c == '\u{85}' || c == '\u{a0}' || c == '\u{1680}'
        || ('\u{2000}' <= c && c <= '\u{200a}') || c == '\u{2028}' || c == '\u{2029}'
        || c == '\u{202f}' || c == '\u{205f}' || c == '\u{3000}'
}

/// The text without its leading white space.
pub open spec fn trim_start_seq(s: Seq<char>) -> Seq<char>
    decreases s.len(),
{
    if s.len() > 0 && is_white_space(s[0]) {
        trim_start_seq(s.drop_first())
    } else {
        s
    }
}

/// The text without its trailing white space.
pub open spec fn trim_end_seq(s: Seq<char>) -> Seq<char>
    decreases s.len(),
{
    if s.len() > 0 && is_white_space(s.last()) {
        trim_end_seq(s.drop_last())
    } else {
        s
    }
}

/// The text without its leading and trailing white space.
pub open spec fn trimmed(s: Seq<char>) -> Seq<char> {
    trim_end_seq(trim_start_seq(s))
}

/// Removing white space from the front of a text and then from a suffix of
/// it agree.
proof fn lemma_trim_start_skip(s: Seq<char>, i: int)
    requires
        0 <= i <= s.len(),
        forall|k: int| 0 <= k < i ==> is_white_space(#[trigger] s[k]),
    ensures
        trim_start_seq(s) == trim_start_seq(s.subrange(i, s.len() as int)),
    decreases i,
{
    if i > 0 {
        assert(s.drop_first().subrange(i - 1, s.drop_first().len() as int) =~= s.subrange(i, s.len() as int));
        lemma_trim_start_skip(s.drop_first(), i - 1);
    } else {
        assert(s.subrange(0, s.len() as int) =~= s);
    }
}

/// Removing white space from the back of a text and then from a prefix of
/// it agree.
proof fn lemma_trim_end_skip(s: Seq<char>, j: int)
    requires
        0 <= j <= s.len(),
        forall|k: int| j <= k < s.len() ==> is_white_space(#[trigger] s[k]),
    ensures
        trim_end_seq(s) == trim_end_seq(s.subrange(0, j)),
    decreases s.len() - j,
{
    if j < s.len() {
        assert(s.drop_last().subrange(0, j) =~= s.subrange(0, j));
        lemma_trim_end_skip(s.drop_last(), j);
    } else {
        assert(s.subrange(0, j) =~= s);
    }
}

/// The text without its leading and trailing white space, as `str::trim`
/// gives it.
fn trim(s: &str) -> (r: String)
    ensures
        r@ == trimmed(s@),
{
    let n = s.unicode_len();
    let mut i: usize = 0;
    while i < n && is_white_space_exec(s.get_char(i))
        invariant
            n == s@.len(),
            0 <= i <= n,
            forall|k: int| 0 <= k < i ==> is_white_space(#[trigger] s@[k]),
        decreases n - i,
    {
        i = i + 1;
    }
    let mut j: usize = n;
    while j > i && is_white_space_exec(s.get_char(j - 1))
        invariant
            n == s@.len(),
            0 <= i <= j <= n,
            forall|k: int| j <= k < n ==> is_white_space(#[trigger] s@[k]),
        decreases j,
    {
        j = j - 1;
    }
    proof {
        let rest = s@.subrange(i as int, n as int);
        lemma_trim_start_skip(s@, i as int);
        if i < n {
            assert(rest[0] == s@[i as int]);
            assert(trim_start_seq(rest) == rest);
        } else {
            assert(trim_start_seq(rest) == rest);
        }
        assert forall|k: int| (j - i) <= k < rest.len() implies is_white_space(#[trigger] rest[k]) by {
            assert(rest[k] == s@[i + k]);
        }
        lemma_trim_end_skip(rest, j - i);
        let kept = rest.subrange(0, j - i);
        assert(kept =~= s@.subrange(i as int, j as int));
        if j > i {
            assert(kept.last() == s@[j - 1]);
        }
        assert(trim_end_seq(kept) == kept);
    }
    s.substring_char(i, j).to_owned()
}

/// Whether a character is white space.
fn is_white_space_exec(c: char) -> (b: bool)
    ensures
        b == is_white_space(c),
{
    ('\u{9}' <= c && c <= '\u{d}') || c == ' ' || c == '\u{85}' || c == '\u{a0}' || c == '\u{1680}'
        || ('\u{2000}' <= c && c <= '\u{200a}') || c == '\u{2028}' || c == '\u{2029}'
        || c == '\u{202f}' || c == '\u{205f}' || c == '\u{3000}'
}

/// The query held in a file: its contents without surrounding white space.
pub fn finish_query_file(contents: &str) -> (r: String)
    ensures
        r@ == trimmed(contents@),
{
    trim(contents)
}

impl QueryContent {
    /// An inline query is ready; a file is located under `manifest_dir`, the
    /// crate's root, by [`resolve_path`], whose path or error is passed on.
    pub fn resolve(self, manifest_dir: Option<String>) -> (r: ResolveStep)
        ensures
            self matches QueryContent::Query(q) ==> (r matches ResolveStep::Ready(t) && t@ == q@),
            self matches QueryContent::File(p) ==> (r matches ResolveStep::ReadFile(q) && resolved_as(
                p@,
                manifest_dir,
                Ok(q),
            )) || (r matches ResolveStep::Failed(e) && resolved_as(p@, manifest_dir, Err(e))),
            self matches QueryContent::File(p) && p@.len() == 0 ==> r is Failed,
            self matches QueryContent::File(p) && bare_file_name(p@) ==> r == ResolveStep::Failed(
                ResolvePathError::RelativeToCurrentFile,
            ),
            self is File && manifest_dir is None ==> r is Failed,
            self matches QueryContent::File(p) && simple_relative(p@) && has_slash(p@) && manifest_dir is Some
                ==> r is ReadFile,
            self matches QueryContent::File(p) && simple_relative(p@) && has_slash(p@) && (
            manifest_dir matches Some(b) && separated_base(b@)) ==> (r matches ResolveStep::ReadFile(q) && (
            q@ == manifest_dir->0@ + seq!['/'] + self->File_0@ || q@ == manifest_dir->0@ + seq!['\\'] + self->File_0@)),
    {
        match self {
            QueryContent::Query(query) => ResolveStep::Ready(query),
            QueryContent::File(relative_path) => match resolve_path(relative_path.as_str(), manifest_dir) {
                Ok(path) => ResolveStep::ReadFile(path),
                Err(e) => ResolveStep::Failed(e),
            },
        }
    }
}

} // verus!
