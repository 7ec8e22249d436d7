//! Repository-root detection and `--repo` override resolution.
//!
//! The decisions live here; looking at the disk, the environment and the
//! current directory is the caller's part. Paths are handled as text.

use vstd::prelude::*;

verus! {

/// Environment variable consulted when no explicit `--repo` is given.
pub const REPO_ENV: &'static str = "AGENT_REPO";

/// An I/O error from the standard library, carried through unchanged.
#[verifier::external_type_specification]
#[verifier::external_body]
pub struct ExIoError(std::io::Error);

/// The category of an I/O error.
#[verifier::external_type_specification]
#[verifier::external_body]
pub struct ExIoErrorKind(std::io::ErrorKind);

/// What `std::path::Path::parent` gives for a path: the path without its
/// final component, or `None` when the path ends in a root or prefix or is
/// empty.
pub uninterp spec fn parent_path(path: Seq<char>) -> Option<Seq<char>>;

/// `p` is a leading part of `s`, shorter than `s`.
pub open spec fn is_strict_prefix(p: Seq<char>, s: Seq<char>) -> bool {
    p.len() < s.len() && p == s.subrange(0, p.len() as int)
}

/// `std::path::Path::new(path).parent()`, as text. The contract claims that
/// the result is the named `parent_path` of the argument, and that a parent
/// is the path without its final component: a leading part of the path,
/// shorter by at least that component (`parent` returns a slice of the
/// path's own text). That leading part of UTF-8 text is UTF-8, so the lossy
/// conversion keeps it whole.
#[verifier::external_body]
fn path_parent(path: &str) -> (r: Option<String>)
    ensures
        r.deep_view() == parent_path(path@),
        r matches Some(p) ==> is_strict_prefix(p@, path@),
{
    match std::path::Path::new(path).parent() {
        Some(p) => Some(p.to_string_lossy().into_owned()),
        None => None,
    }
}

/// What `std::path::Path::join` gives for a base path and a relative
/// path: the base with the relative path pushed onto it (a separator put
/// between them where the base does not end in one).
pub uninterp spec fn joined_path(base: Seq<char>, rel: Seq<char>) -> Seq<char>;

/// `std::path::Path::new(base).join(rel)`, as text. Joining two UTF-8
/// texts gives UTF-8 text, so the lossy conversion keeps it whole. The
/// contract claims that the result is the named `joined_path` of the
/// arguments.
#[verifier::external_body]
fn path_join(base: &str, rel: &str) -> (r: String)
    ensures
        r@ == joined_path(base@, rel@),
{
    std::path::Path::new(base).join(rel).to_string_lossy().into_owned()
}

/// What `std::io::Error::kind` gives for an error: its category.
pub uninterp spec fn io_kind_of(e: std::io::Error) -> std::io::ErrorKind;

/// `std::io::Error::kind`. The contract claims that the kind is the named
/// `io_kind_of` of the error.
#[verifier::external_body]
fn io_error_kind(e: &std::io::Error) -> (r: std::io::ErrorKind)
    ensures
        r == io_kind_of(*e),
{
    e.kind()
}

/// `std::io::Error::new(kind, message)`. The contract claims what the
/// documentation of `kind` and of `Display` shows for such an error: its
/// kind is `kind`, and its display text is the message it carries.
#[verifier::external_body]
fn io_error_new(kind: std::io::ErrorKind, message: String) -> (r: std::io::Error)
    ensures
        io_kind_of(r) == kind,
        forall|s: String|
            #[trigger] vstd::string::to_string_from_display_ensures::<std::io::Error>(&r, s)
                ==> s@ == message@,
{
    std::io::Error::new(kind, message)
}

// ---------------------------------------------------------------------------
// Walking up to the repository root
// ---------------------------------------------------------------------------

/// The entry whose presence marks `dir` as a repository root: `dir/.git`,
/// a directory (a normal checkout) or a file (a worktree or submodule)
/// alike.
pub fn git_marker_path(dir: &str) -> (r: String)
    ensures
        r@ == joined_path(dir@, ".git"@),
{
    path_join(dir, ".git")
}

/// One step of the walk from a start directory up through its ancestors,
/// looking for the first one that holds a `.git` entry.
#[derive(Debug, PartialEq, Eq)]
pub enum WalkStep {
    /// This directory holds `.git`: it is the repository root.
    Found(String),
    /// No `.git` here; look in this parent next.
    Next(String),
    /// No `.git` here and no parent left: there is no repository root.
    Exhausted,
}

/// Decide the walk's next move at `dir`, given whether `dir` holds a `.git`
/// entry (a directory and a file count alike).
pub fn walk_step(dir: String, has_git: bool) -> (r: WalkStep)
    ensures
        has_git ==> r == WalkStep::Found(dir),
        !has_git ==> match parent_path(dir@) {
            Some(p) => r is Next && r->Next_0@ == p,
            None => r is Exhausted,
        },
        r matches WalkStep::Next(p) ==> is_strict_prefix(p@, dir@),
{
    if has_git {
        WalkStep::Found(dir)
    } else {
        match path_parent(dir.as_str()) {
            Some(p) => WalkStep::Next(p),
            None => WalkStep::Exhausted,
        }
    }
}

/// The `n`-th ancestor of `start` (`start` itself for `n == 0`), as
/// `Path::ancestors` yields them; `None` once the chain has ended.
pub open spec fn nth_ancestor(start: Seq<char>, n: nat) -> Option<Seq<char>>
    decreases n,
{
    if n == 0 {
        Some(start)
    } else {
        match parent_path(start) {
            Some(p) => nth_ancestor(p, (n - 1) as nat),
            None => None,
        }
    }
}

/// Where repeated `walk_step`s from `dir` end within `fuel` steps, with
/// `has_git` telling which directories hold `.git`: `Some(Some(root))`,
/// `Some(None)` when the ancestors ran out, `None` when the fuel did.
pub open spec fn walk_from(dir: Seq<char>, has_git: spec_fn(Seq<char>) -> bool, fuel: nat) -> Option<
    Option<Seq<char>>,
>
    decreases fuel,
{
    if fuel == 0 {
        None
    } else if has_git(dir) {
        Some(Some(dir))
    } else {
        match parent_path(dir) {
            Some(p) => walk_from(p, has_git, (fuel - 1) as nat),
            None => Some(None),
        }
    }
}

/// The walk finds the nearest ancestor holding `.git`, the start directory
/// included: when ancestor `k` holds one and none before it does, the walk
/// ends there after `k + 1` steps, and a walk with more fuel ends there too.
pub proof fn lemma_walk_finds_nearest_root(
    start: Seq<char>,
    has_git: spec_fn(Seq<char>) -> bool,
    k: nat,
    fuel: nat,
)
    requires
        nth_ancestor(start, k) is Some,
        has_git(nth_ancestor(start, k)->0),
        forall|j: nat|
            j < k ==> (#[trigger] nth_ancestor(start, j)) is Some && !has_git(
                nth_ancestor(start, j)->0,
            ),
        k < fuel,
    ensures
        walk_from(start, has_git, fuel) == Some(nth_ancestor(start, k)),
    decreases k,
{
    if k > 0 {
        assert(nth_ancestor(start, 0) is Some);
        let p = parent_path(start)->0;
        assert forall|j: nat| j < (k - 1) as nat implies (#[trigger] nth_ancestor(p, j)) is Some
            && !has_git(nth_ancestor(p, j)->0) by {
            assert(nth_ancestor(start, j + 1) == nth_ancestor(p, j));
        }
        lemma_walk_finds_nearest_root(p, has_git, (k - 1) as nat, (fuel - 1) as nat);
    }
}

/// When no ancestor holds `.git`, the walk ends with no root once it has
/// run past the last ancestor.
pub proof fn lemma_walk_without_root(
    start: Seq<char>,
    has_git: spec_fn(Seq<char>) -> bool,
    k: nat,
    fuel: nat,
)
    requires
        nth_ancestor(start, k) is None,
        forall|j: nat|
            j < k ==> (#[trigger] nth_ancestor(start, j)) is Some && !has_git(
                nth_ancestor(start, j)->0,
            ),
        k <= fuel,
    ensures
        walk_from(start, has_git, fuel) == Some(None::<Seq<char>>),
    decreases k,
{
    assert(k > 0);
    assert(nth_ancestor(start, 0) is Some);
    match parent_path(start) {
        Some(p) => {
            assert forall|j: nat| j < (k - 1) as nat implies (#[trigger] nth_ancestor(p, j)) is Some
                && !has_git(nth_ancestor(p, j)->0) by {
                assert(nth_ancestor(start, j + 1) == nth_ancestor(p, j));
            }
            lemma_walk_without_root(p, has_git, (k - 1) as nat, (fuel - 1) as nat);
        },
        None => {},
    }
}

/// Every ancestor the walk reaches is a leading part of the start path,
/// given that each step up went to a leading part of the directory before
/// it (what `walk_step` ensures of every `Next` it gives). So the root
/// found, and every directory probed on the way, lies within the start
/// path's text, and each step is strictly shorter, which ends the walk.
pub proof fn lemma_ancestors_are_prefixes(start: Seq<char>, k: nat)
    requires
        nth_ancestor(start, k) is Some,
        forall|j: nat|
            j < k && (#[trigger] nth_ancestor(start, j + 1)) is Some ==> is_strict_prefix(
                nth_ancestor(start, j + 1)->0,
                nth_ancestor(start, j)->0,
            ),
    ensures
        nth_ancestor(start, k)->0 == start.subrange(0, nth_ancestor(start, k)->0.len() as int),
        nth_ancestor(start, k)->0.len() + k <= start.len(),
    decreases k,
{
    if k > 0 {
        lemma_nth_ancestor_step(start, (k - 1) as nat);
        assert(nth_ancestor(start, (k - 1) as nat) is Some);
        lemma_ancestors_are_prefixes(start, (k - 1) as nat);
        let prev = nth_ancestor(start, (k - 1) as nat)->0;
        let cur = nth_ancestor(start, k)->0;
        assert(is_strict_prefix(cur, prev));
        assert(cur == start.subrange(0, cur.len() as int));
    }
}

/// Ancestor `n + 1` is the parent of ancestor `n`.
proof fn lemma_nth_ancestor_step(start: Seq<char>, n: nat)
    ensures
        nth_ancestor(start, n + 1) == match nth_ancestor(start, n) {
            Some(d) => parent_path(d),
            None => None,
        },
    decreases n,
{
    match parent_path(start) {
        Some(p) => {
            assert(nth_ancestor(start, n + 1) == nth_ancestor(p, n));
            if n > 0 {
                lemma_nth_ancestor_step(p, (n - 1) as nat);
                assert(nth_ancestor(start, n) == nth_ancestor(p, (n - 1) as nat));
            } else {
                assert(nth_ancestor(p, 0) == Some(p));
            }
        },
        None => {
            assert(nth_ancestor(start, n + 1) is None);
            if n > 0 {
                assert(nth_ancestor(start, n) is None);
            }
        },
    }
}

// ---------------------------------------------------------------------------
// Choosing the repository
// ---------------------------------------------------------------------------

/// The override that decides the repository before any detection: the
/// explicit `--repo` path if given, else the `AGENT_REPO` value if it is
/// set and not empty.
pub open spec fn spec_repo_override(explicit: Option<Seq<char>>, env: Option<Seq<char>>) -> Option<
    Seq<char>,
> {
    match explicit {
        Some(p) => Some(p),
        None => match env {
            Some(v) => if v.len() > 0 {
                Some(v)
            } else {
                None
            },
            None => None,
        },
    }
}

/// Precedence of the first two sources: `explicit` (the `--repo` flag)
/// over the `AGENT_REPO` value, which counts only when it is not empty.
/// `None` means detection from the current directory decides.
pub fn repo_override(explicit: Option<String>, env: Option<String>) -> (r: Option<String>)
    ensures
        r.deep_view() == spec_repo_override(explicit.deep_view(), env.deep_view()),
        explicit is Some ==> r == explicit,
        explicit is None && env is Some && env->0@.len() > 0 ==> r == env,
        explicit is None && (env is None || env->0@.len() == 0) ==> r is None,
{
    match explicit {
        Some(p) => Some(p),
        None => match env {
            Some(v) => if v.as_str().is_empty() {
                None
            } else {
                Some(v)
            },
            None => None,
        },
    }
}

/// The override is the explicit path whenever one is given; otherwise it is
/// every non-empty `AGENT_REPO` value, exactly as given (relative or
/// absolute); an empty or unset value gives none.
pub proof fn lemma_override_precedence(p: Seq<char>, v: Seq<char>, env: Option<Seq<char>>)
    ensures
        spec_repo_override(Some(p), env) == Some(p),
        v.len() > 0 ==> spec_repo_override(None, Some(v)) == Some(v),
        v.len() == 0 ==> spec_repo_override(None, Some(v)) is None,
        spec_repo_override(None, None) is None,
{
}

/// Precedence of the last two sources, once no override applies: the root
/// detected from the current directory, else the current directory itself.
/// `cwd` is what reading the current directory gave; when that failed
/// there is no repository, only a `CurrentDir` error carrying the failure.
pub fn detected_or_cwd(cwd: Result<String, std::io::Error>, detected: Option<String>) -> (r: Result<
    String,
    RepoError,
>)
    ensures
        match cwd {
            Ok(c) => r is Ok && r->Ok_0@ == match detected {
                Some(root) => root@,
                None => c@,
            },
            Err(e) => r == Err::<String, RepoError>(RepoError::CurrentDir(e)),
        },
{
    match cwd {
        Ok(c) => match detected {
            Some(root) => Ok(root),
            None => Ok(c),
        },
        Err(e) => Err(RepoError::CurrentDir(e)),
    }
}

/// Why a repo path could not be resolved.
#[derive(Debug)]
pub enum RepoError {
    /// The process has no readable current directory.
    CurrentDir(std::io::Error),
    /// The candidate exists but could not be canonicalized (permissions,
    /// dangling symlink chain).
    Canonicalize { path: String, source: std::io::Error },
}

/// The message of a `CurrentDir` error whose source reads `source_text`.
pub open spec fn current_dir_message(source_text: Seq<char>) -> Seq<char> {
    "cannot determine current directory: "@ + source_text
}

/// The message of a `Canonicalize` error for `path` whose source reads
/// `source_text`.
pub open spec fn canonicalize_message(path: Seq<char>, source_text: Seq<char>) -> Seq<char> {
    "cannot canonicalize repo path "@ + path + ": "@ + source_text
}

/// The message of a failure to canonicalize `path`, given the text of the
/// underlying error.
pub fn describe_canonicalize_failure(path: &str, source_text: &str) -> (r: String)
    ensures
        r@ == canonicalize_message(path@, source_text@),
        r@ == "cannot canonicalize repo path "@ + path@ + ": "@ + source_text@,
{
    let mut out = String::from_str("cannot canonicalize repo path ");
    out.append(path);
    out.append(": ");
    out.append(source_text);
    out
}

impl RepoError {
    /// The error's message (what `Display` writes), built around the text
    /// of the underlying I/O error.
    pub fn to_string(&self) -> (r: String)
        ensures
            match self {
                RepoError::CurrentDir(source) => exists|t: String|
                    vstd::string::to_string_from_display_ensures::<std::io::Error>(source, t)
                        && r@ == current_dir_message(t@) && r@
                        == "cannot determine current directory: "@ + t@,
                RepoError::Canonicalize { path, source } => exists|t: String|
                    vstd::string::to_string_from_display_ensures::<std::io::Error>(source, t)
                        && r@ == canonicalize_message(path@, t@) && r@
                        == "cannot canonicalize repo path "@ + path@ + ": "@ + t@,
            },
    {
        match self {
            RepoError::CurrentDir(source) => {
                let t = source.to_string();
                let mut out = String::from_str("cannot determine current directory: ");
                out.append(t.as_str());
                out
            },
            RepoError::Canonicalize { path, source } => {
                let t = source.to_string();
                describe_canonicalize_failure(path.as_str(), t.as_str())
            },
        }
    }

    /// The plain I/O error for tools whose own error type wraps one: the
    /// current-directory failure is its source unchanged; a canonicalize
    /// failure becomes an error of the source's kind carrying the message.
    pub fn into_io_error(self) -> (r: std::io::Error)
        ensures
            io_conversion(self, r),
    {
        match self {
            RepoError::CurrentDir(source) => source,
            RepoError::Canonicalize { path, source } => {
                let kind = io_error_kind(&source);
                let t = source.to_string();
                let message = describe_canonicalize_failure(path.as_str(), t.as_str());
                let r = io_error_new(kind, message);
                assert forall|s: String|
                    #[trigger] vstd::string::to_string_from_display_ensures::<std::io::Error>(
                        &r,
                        s,
                    ) implies exists|u: String|
                    vstd::string::to_string_from_display_ensures::<std::io::Error>(&source, u)
                        && s@ == canonicalize_message(path@, u@) by {
                    assert(vstd::string::to_string_from_display_ensures::<std::io::Error>(
                        &source,
                        t,
                    ));
                }
                r
            },
        }
    }
}

/// What converting `err` into a plain I/O error gives: a current-directory
/// failure is its source itself; a canonicalize failure is an error of the
/// source's kind whose display text is the canonicalize message around the
/// source's display text.
pub open spec fn io_conversion(err: RepoError, r: std::io::Error) -> bool {
    match err {
        RepoError::CurrentDir(source) => r == source,
        RepoError::Canonicalize { path, source } => {
            &&& io_kind_of(r) == io_kind_of(source)
            &&& forall|s: String|
                #[trigger] vstd::string::to_string_from_display_ensures::<std::io::Error>(&r, s)
                    ==> exists|u: String|
                    vstd::string::to_string_from_display_ensures::<std::io::Error>(&source, u)
                        && s@ == canonicalize_message(path@, u@)
        },
    }
}

impl From<RepoError> for std::io::Error {
    fn from(err: RepoError) -> (r: std::io::Error)
        ensures
            io_conversion(err, r),
    {
        err.into_io_error()
    }
}

/// `From`'s own spec function cannot be given: the error built for a
/// canonicalize failure is opaque, so no expression names it. What the
/// conversion keeps is the `ensures` of `from` above, [`io_conversion`].
impl vstd::std_specs::convert::FromSpecImpl<RepoError> for std::io::Error {
    open spec fn obeys_from_spec() -> bool {
        false
    }

    open spec fn from_spec(v: RepoError) -> std::io::Error {
        arbitrary()
    }
}

/// What the file system says about a candidate path.
#[derive(Debug)]
pub enum PathStatus {
    /// Nothing exists at the path.
    Missing,
    /// Something exists there; this is what canonicalizing it gave.
    Exists(Result<String, std::io::Error>),
}

/// The text `canonical_if_exists` settles on for `path` given what the disk
/// said, or `None` when it fails.
pub open spec fn canonical_text(path: Seq<char>, status: PathStatus) -> Option<Seq<char>> {
    match status {
        PathStatus::Missing => Some(path),
        PathStatus::Exists(Ok(canonical)) => Some(canonical@),
        PathStatus::Exists(Err(_)) => None,
    }
}

/// A path that exists comes back canonicalized; a path that does not is
/// returned as given, so callers can report it; a path that exists but
/// cannot be canonicalized is an error naming it.
pub fn canonical_if_exists(path: String, status: PathStatus) -> (r: Result<String, RepoError>)
    ensures
        match r {
            Ok(q) => canonical_text(path@, status) == Some(q@),
            Err(_) => canonical_text(path@, status) is None,
        },
        match status {
            PathStatus::Missing => r == Ok::<String, RepoError>(path),
            PathStatus::Exists(Ok(canonical)) => r == Ok::<String, RepoError>(canonical),
            PathStatus::Exists(Err(source)) => r == Err::<String, RepoError>(
                RepoError::Canonicalize { path, source },
            ),
        },
{
    match status {
        PathStatus::Missing => Ok(path),
        PathStatus::Exists(Ok(canonical)) => Ok(canonical),
        PathStatus::Exists(Err(source)) => Err(RepoError::Canonicalize { path, source }),
    }
}

/// The candidate path resolution settles on before looking at it on disk:
/// the override, else (when reading the current directory gave `cwd`) the
/// detected root or the current directory; `None` when the current
/// directory could not be read.
pub open spec fn resolution_candidate(
    explicit: Option<Seq<char>>,
    env: Option<Seq<char>>,
    cwd: Option<Seq<char>>,
    detected: Option<Seq<char>>,
) -> Option<Seq<char>> {
    match spec_repo_override(explicit, env) {
        Some(p) => Some(p),
        None => match cwd {
            Some(c) => Some(
                match detected {
                    Some(root) => root,
                    None => c,
                },
            ),
            None => None,
        },
    }
}

/// Resolution reads the current directory (and walks the disk from it)
/// only when no override applies.
pub open spec fn resolution_reads_cwd(explicit: Option<Seq<char>>, env: Option<Seq<char>>) -> bool {
    spec_repo_override(explicit, env) is None
}

/// The text resolution gives, composing `repo_override`,
/// `detected_or_cwd` and `canonical_if_exists`, with `status_of` telling
/// what the disk says of each path; `None` when it fails.
pub open spec fn resolved_text(
    explicit: Option<Seq<char>>,
    env: Option<Seq<char>>,
    cwd: Option<Seq<char>>,
    detected: Option<Seq<char>>,
    status_of: spec_fn(Seq<char>) -> PathStatus,
) -> Option<Seq<char>> {
    match resolution_candidate(explicit, env, cwd, detected) {
        Some(p) => canonical_text(p, status_of(p)),
        None => None,
    }
}

/// An explicit `--repo` path decides alone: the current directory is not
/// read, and whatever `AGENT_REPO`, the current directory and the detected
/// root are, the outcome is that of the explicit path on disk.
pub proof fn lemma_explicit_path_decides(
    p: Seq<char>,
    env: Option<Seq<char>>,
    cwd: Option<Seq<char>>,
    detected: Option<Seq<char>>,
    status_of: spec_fn(Seq<char>) -> PathStatus,
)
    ensures
        !resolution_reads_cwd(Some(p), env),
        resolution_candidate(Some(p), env, cwd, detected) == Some(p),
        resolved_text(Some(p), env, cwd, detected, status_of) == canonical_text(p, status_of(p)),
{
}

/// A resolved path resolves to itself: resolving again with it as the
/// explicit path, on an unchanged disk, gives it back, whatever the
/// environment and the current directory. A missing path is still missing;
/// a canonical path canonicalizes to itself, which is the file system's
/// fact and the one assumption here.
pub proof fn lemma_resolved_path_is_fixed(
    explicit: Option<Seq<char>>,
    env: Option<Seq<char>>,
    cwd: Option<Seq<char>>,
    detected: Option<Seq<char>>,
    q: Seq<char>,
    env2: Option<Seq<char>>,
    cwd2: Option<Seq<char>>,
    detected2: Option<Seq<char>>,
    status_of: spec_fn(Seq<char>) -> PathStatus,
)
    requires
        resolved_text(explicit, env, cwd, detected, status_of) == Some(q),
        forall|x: Seq<char>|
            #![trigger status_of(x)]
            match status_of(x) {
                PathStatus::Exists(Ok(c)) => (status_of(c@) matches PathStatus::Exists(Ok(c2)) && c2@
                    == c@),
                _ => true,
            },
    ensures
        resolved_text(Some(q), env2, cwd2, detected2, status_of) == Some(q),
{
    let p = resolution_candidate(explicit, env, cwd, detected)->0;
    match status_of(p) {
        PathStatus::Missing => {},
        PathStatus::Exists(Ok(c)) => {
            assert(q == c@);
        },
        PathStatus::Exists(Err(_)) => {},
    }
}

} // verus!
