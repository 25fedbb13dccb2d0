use vstd::prelude::*;

verus! {

/// Why the path of a query file is refused.
#[derive(Clone, Copy, Debug, PartialEq, Eq, Structural)]
pub enum ResolvePathError {
    /// Absolute paths only work on the machine that wrote them.
    AbsolutePath,
    /// A bare file name would be relative to the current file, which a macro
    /// cannot know.
    RelativeToCurrentFile,
    /// The crate's root is not known.
    ManifestDirMissing,
}

impl ResolvePathError {
    /// The message the macro reports for the error.
    pub fn message(&self) -> (r: String)
        ensures
            r@ == match *self {
                ResolvePathError::AbsolutePath => "absolute paths will only work on the current machine"@,
                ResolvePathError::RelativeToCurrentFile => "paths relative to the current file's directory are not currently supported"@,
                ResolvePathError::ManifestDirMissing => "CARGO_MANIFEST_DIR is not set; please use Cargo to build"@,
            },
    {
        match self {
            ResolvePathError::AbsolutePath => String::from_str(
                "absolute paths will only work on the current machine",
            ),
            ResolvePathError::RelativeToCurrentFile => String::from_str(
                "paths relative to the current file's directory are not currently supported",
            ),
            ResolvePathError::ManifestDirMissing => String::from_str(
                "CARGO_MANIFEST_DIR is not set; please use Cargo to build",
            ),
        }
    }
}

/// A relative path that no platform reads as rooted or prefixed: not empty,
/// not starting with a separator, and holding no drive colon.
pub open spec fn plain_relative(p: Seq<char>) -> bool {
    &&& p.len() > 0
    &&& p[0] != '/'
    &&& p[0] != '\\'
    &&& forall|i: int| 0 <= i < p.len() ==> p[i] != ':'
}

/// A bare file name: a plain relative path of one component, with no
/// separator of any platform in it.
pub open spec fn bare_file_name(p: Seq<char>) -> bool {
    &&& plain_relative(p)
    &&& forall|i: int| 0 <= i < p.len() ==> p[i] != '/' && p[i] != '\\'
}

/// A Windows verbatim path (`\\?\...`), which joining normalises.
pub open spec fn verbatim(p: Seq<char>) -> bool {
    p.len() >= 4 && p[0] == '\\' && p[1] == '\\' && p[2] == '?' && p[3] == '\\'
}

/// A plain relative path whose components every platform splits alike: it
/// uses only `/` as separator, never twice in a row nor at its end, and has
/// no `.` component.
pub open spec fn simple_relative(p: Seq<char>) -> bool {
    &&& plain_relative(p)
    &&& p.last() != '/'
    &&& forall|i: int| 0 <= i < p.len() ==> p[i] != '\\'
    &&& forall|i: int| 0 <= i < p.len() - 1 && #[trigger] p[i] == '/' ==> p[i + 1] != '/'
    &&& forall|i: int|
        0 <= i < p.len() && #[trigger] p[i] == '.' && (i == 0 || p[i - 1] == '/') ==> i + 1 < p.len()
            && p[i + 1] != '/'
}

/// The path holds a `/`.
pub open spec fn has_slash(p: Seq<char>) -> bool {
    exists|i: int| 0 <= i < p.len() && p[i] == '/'
}

/// `q` is the text of `p` before its last `/`.
pub open spec fn before_last_slash(p: Seq<char>, q: Seq<char>) -> bool {
    &&& q.len() < p.len()
    &&& q == p.subrange(0, q.len() as int)
    &&& p[q.len() as int] == '/'
    &&& forall|k: int| q.len() < k < p.len() ==> p[k] != '/'
}

/// A base that a relative path is adjoined to after a separator on every
/// platform: not empty, not verbatim, and ending in no separator nor drive
/// colon.
pub open spec fn separated_base(b: Seq<char>) -> bool {
    &&& b.len() > 0
    &&& !verbatim(b)
    &&& b.last() != '/'
    &&& b.last() != '\\'
    &&& b.last() != ':'
}

/// What `path_is_absolute` may answer for a path.
pub open spec fn absolute_answer(path: Seq<char>, r: bool) -> bool {
    &&& r ==> path.len() > 0
    &&& plain_relative(path) ==> !r
}

/// What `path_parent` may answer for a path.
pub open spec fn parent_answer(path: Seq<char>, r: Option<Seq<char>>) -> bool {
    &&& path.len() == 0 ==> r is None
    &&& r matches Some(p) ==> p.len() < path.len() && p == path.subrange(0, p.len() as int)
    &&& bare_file_name(path) ==> r == Some(Seq::<char>::empty())
    &&& simple_relative(path) && has_slash(path) ==> (r matches Some(q) && before_last_slash(path, q))
}

/// The possible results of adjoining `path` to `base`: the two side by side,
/// or with either platform's separator between them.
pub open spec fn joined(base: Seq<char>, path: Seq<char>, r: Seq<char>) -> bool {
    r == base + path || r == base + seq!['/'] + path || r == base + seq!['\\'] + path
}

/// What `path_join` may answer for a base and a path.
pub open spec fn join_answer(base: Seq<char>, path: Seq<char>, r: Seq<char>) -> bool {
    &&& plain_relative(path) && !verbatim(base) ==> joined(base, path, r)
    &&& plain_relative(path) && separated_base(base) ==> (r == base + seq!['/'] + path || r == base
        + seq!['\\'] + path)
    &&& plain_relative(path) && !verbatim(base) && base.len() > 0 && base.last() == '/' ==> r == base
        + path
}

/// Calls `std::path::Path::is_absolute`. Its documentation says that an
/// absolute path has a root (a leading separator, and on Windows a prefix
/// too): so the empty path, and a path that starts with no separator and
/// holds no drive colon, are not absolute. That is what is claimed; beyond it
/// the answer depends on the platform.
#[verifier::external_body]
fn path_is_absolute(path: &str) -> (r: bool)
    ensures
        absolute_answer(path@, r),
{
    std::path::Path::new(path).is_absolute()
}

/// Calls `std::path::Path::parent` and gives the parent back as text. Its
/// documentation says that the parent is the path without its final
/// component, that the empty path has none, and that a relative path of one
/// component has the empty parent: a parent is a proper prefix of the path,
/// a bare file name's parent is empty, and for a path whose components every
/// platform splits at its `/` alike, the parent is the text before the last
/// `/`. Which prefix it is otherwise depends on the platform's separators
/// and is not claimed.
#[verifier::external_body]
fn path_parent(path: &str) -> (r: Option<String>)
    ensures
        parent_answer(path@, crate::text::opt_view(r)),
{
    match std::path::Path::new(path).parent() {
        Some(parent) => Some(parent.to_string_lossy().into_owned()),
        None => None,
    }
}

/// Calls `std::path::Path::join` and gives the joined path back as text. By
/// the documentation of `PathBuf::push`, a relative path that has neither a
/// root nor a prefix is appended to the base, after a separator unless the
/// base ends in one (or is a bare drive prefix); a verbatim base is
/// normalised instead. So for a plain relative path and a base that is not
/// verbatim the result is one of the three joinings; the separator is there
/// when the base ends in no separator nor drive colon, and absent when it
/// ends in `/`, a separator on every platform. Which separator is put
/// depends on the platform; nothing is claimed for other paths.
#[verifier::external_body]
fn path_join(base: &str, path: &str) -> (r: String)
    ensures
        join_answer(base@, path@, r@),
{
    std::path::Path::new(base).join(path).to_string_lossy().into_owned()
}

/// The check of a query file's path, given whether it is absolute, its parent
/// directory (if any) and the crate's root (if known): `None` when the path is
/// acceptable.
pub open spec fn path_error(
    is_absolute: bool,
    parent: Option<Seq<char>>,
    manifest_dir: Option<Seq<char>>,
) -> Option<ResolvePathError> {
    if is_absolute {
        Some(ResolvePathError::AbsolutePath)
    } else if parent is None || parent->0.len() == 0 {
        Some(ResolvePathError::RelativeToCurrentFile)
    } else if manifest_dir is None {
        Some(ResolvePathError::ManifestDirMissing)
    } else {
        None
    }
}

/// Checks a query file's path from what the platform says of it: absolute
/// paths and bare file names are refused, and the crate's root must be known.
pub fn check_query_path(
    is_absolute: bool,
    parent: &Option<String>,
    manifest_dir: &Option<String>,
) -> (r: Option<ResolvePathError>)
    ensures
        r == path_error(
            is_absolute,
            crate::text::opt_view(*parent),
            crate::text::opt_view(*manifest_dir),
        ),
{
    if is_absolute {
        return Some(ResolvePathError::AbsolutePath);
    }
    let bare = match parent {
        None => true,
        Some(p) => p.as_str().is_empty(),
    };
    if bare {
        return Some(ResolvePathError::RelativeToCurrentFile);
    }
    if manifest_dir.is_none() {
        return Some(ResolvePathError::ManifestDirMissing);
    }
    None
}

/// What resolving a query file's path may give: an error that the checks
/// give for some answers the platform may make about the path, or, when the
/// checks pass, the crate's root joined with the path.
pub open spec fn resolved_as(
    path: Seq<char>,
    manifest_dir: Option<String>,
    r: Result<String, ResolvePathError>,
) -> bool {
    match r {
        Err(e) => exists|a: bool, p: Option<Seq<char>>|
            absolute_answer(path, a) && parent_answer(path, p) && path_error(
                a,
                p,
                crate::text::opt_view(manifest_dir),
            ) == Some(e),
        Ok(q) => manifest_dir matches Some(b) && (exists|a: bool, p: Option<Seq<char>>|
            absolute_answer(path, a) && parent_answer(path, p) && path_error(
                a,
                p,
                crate::text::opt_view(manifest_dir),
            ) is None) && join_answer(b@, path, q@),
    }
}

/// The path of a query file under the crate's root `manifest_dir`, for a path
/// relative to that root. Absolute paths, bare file names (such as the empty
/// path) and an unknown root are refused.
pub fn resolve_path(path: &str, manifest_dir: Option<String>) -> (r: Result<
    String,
    ResolvePathError,
>)
    ensures
        resolved_as(path@, manifest_dir, r),
        path@.len() == 0 ==> r is Err,
        bare_file_name(path@) ==> r == Err::<String, ResolvePathError>(ResolvePathError::RelativeToCurrentFile),
        manifest_dir is None ==> r is Err,
        r is Ok ==> manifest_dir is Some && path@.len() > 0,
        simple_relative(path@) && has_slash(path@) && manifest_dir is Some ==> r is Ok,
        simple_relative(path@) && has_slash(path@) && (manifest_dir matches Some(b) && separated_base(b@))
            ==> (r matches Ok(q) && (q@ == manifest_dir->0@ + seq!['/'] + path@ || q@ == manifest_dir->0@
            + seq!['\\'] + path@)),
{
    let is_absolute = path_is_absolute(path);
    let parent = path_parent(path);
    let checked = check_query_path(is_absolute, &parent, &manifest_dir);
    proof {
        let p = crate::text::opt_view(parent);
        assert(absolute_answer(path@, is_absolute) && parent_answer(path@, p));
    }
    match checked {
        Some(e) => Err(e),
        None => match manifest_dir {
            Some(base) => Ok(path_join(base.as_str(), path)),
            None => Err(ResolvePathError::ManifestDirMissing),
        },
    }
}

} // verus!
