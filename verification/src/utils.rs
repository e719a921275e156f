//! Path expansion and file-status checks.

use vstd::prelude::*;
use vstd::string::*;
use crate::text::{concat, is_prefix, owned, suffix_from};

verus! {

#[verifier::external_type_specification]
#[verifier::external_body]
pub struct ExPathBuf(std::path::PathBuf);

/// Calls `dirs::home_dir`. Nothing is claimed of the result: it depends on
/// the environment and on the user database of the machine.
#[verifier::external_body]
fn home_dir() -> (r: Option<std::path::PathBuf>) {
    dirs::home_dir()
}

/// Calls `std::path::Path::to_str` (and copies the text out). Nothing is
/// claimed of the result: the contents of a `PathBuf` are not visible here.
#[verifier::external_body]
fn path_buf_to_string(path: &std::path::PathBuf) -> (r: Option<String>) {
    path.to_str().map(|s| s.to_string())
}

/// Calls `std::path::Path::exists`. Nothing is claimed of the result: it
/// depends on the file system.
#[verifier::external_body]
pub(crate) fn path_exists(path: &str) -> (r: bool) {
    std::path::Path::new(path).exists()
}

/// The stem of a file path, as `std::path::Path::file_stem` gives it.
pub uninterp spec fn path_file_stem(path: Seq<char>) -> Option<Seq<char>>;

/// Calls `std::path::Path::file_stem`. Claimed: the result is
/// `path_file_stem` of the path, a function of the path's text alone. The
/// stem of a UTF-8 path is UTF-8, so the copy into a `String` loses nothing.
#[verifier::external_body]
pub(crate) fn file_stem(path: &str) -> (r: Option<String>)
    ensures
        match r {
            Some(s) => path_file_stem(path@) == Some(s@),
            None => path_file_stem(path@) is None,
        },
{
    std::path::Path::new(path).file_stem().map(|s| s.to_string_lossy().into_owned())
}

/// Errors of the path helpers.
#[derive(Debug, Clone, PartialEq, Eq)]
pub enum PathError {
    /// The home directory of the user could not be determined.
    NoHomeDirectory,
    /// A path holds characters that are not valid UTF-8.
    InvalidCharacters,
}

/// The text of a path.
pub fn path_to_str(path: &std::path::PathBuf) -> (r: Result<String, PathError>)
    ensures
        r is Err ==> r == Err::<String, PathError>(PathError::InvalidCharacters),
{
    match path_buf_to_string(path) {
        Some(s) => Ok(s),
        None => Err(PathError::InvalidCharacters),
    }
}

/// Whether a path is relative to the home directory: `~` itself, or `~/...`.
pub open spec fn is_home_relative(path: Seq<char>) -> bool {
    path =~= seq!['~'] || is_prefix(seq!['~', '/'], path)
}

/// `s` without the empty and `.` pieces it begins with (each with the `/`
/// that ends it).
pub open spec fn trim_front_pieces(s: Seq<char>) -> Seq<char>
    decreases s.len(),
{
    if s.len() > 0 && s[0] == '/' {
        trim_front_pieces(s.drop_first())
    } else if s == seq!['.'] {
        Seq::empty()
    } else if s.len() >= 2 && s[0] == '.' && s[1] == '/' {
        trim_front_pieces(s.drop_first())
    } else {
        s
    }
}

/// `s` without the empty and `.` pieces it ends with (each with the `/`
/// that begins it).
pub open spec fn trim_back_pieces(s: Seq<char>) -> Seq<char>
    decreases s.len(),
{
    if s.len() > 0 && s.last() == '/' {
        trim_back_pieces(s.drop_last())
    } else if s == seq!['.'] {
        Seq::empty()
    } else if s.len() >= 2 && s.last() == '.' && s[s.len() - 2] == '/' {
        trim_back_pieces(s.drop_last())
    } else {
        s
    }
}

/// The part of a home-relative path that follows `~`, without the empty and
/// `.` pieces at either end; what lies between is kept as written.
pub open spec fn home_suffix(path: Seq<char>) -> Seq<char> {
    trim_back_pieces(trim_front_pieces(path.drop_first()))
}

/// `rest` joined onto `base` as a path: a `/` is put between them unless
/// `base` is empty or already ends with one (also when `rest` is empty).
pub open spec fn join_path(base: Seq<char>, rest: Seq<char>) -> Seq<char> {
    if base.len() == 0 {
        rest
    } else if base.last() == '/' {
        base + rest
    } else {
        base + seq!['/'] + rest
    }
}

/// A home-relative path with `~` replaced by the home directory `home`.
pub open spec fn home_expansion(path: Seq<char>, home: Seq<char>) -> Seq<char> {
    join_path(home, home_suffix(path))
}

/// What expanding `path` may give: a home-relative path becomes its
/// expansion for some home directory; any other path stays as it is.
pub open spec fn is_expansion_of(path: Seq<char>, expanded: Seq<char>) -> bool {
    if is_home_relative(path) {
        exists|home: Seq<char>| expanded == #[trigger] home_expansion(path, home)
    } else {
        expanded == path
    }
}

/// Whether `path` is relative to the home directory.
pub fn home_relative(path: &str) -> (b: bool)
    ensures
        b == is_home_relative(path@),
{
    let n = path.unicode_len();
    if n == 0 || path.get_char(0) != '~' {
        return false;
    }
    if n == 1 {
        assert(path@ =~= seq!['~']);
        return true;
    }
    let r = path.get_char(1) == '/';
    assert(r ==> path@.subrange(0, 2) =~= seq!['~', '/']);
    assert(path@ != seq!['~']);
    r
}

fn front_mark_at(s: &str, a: usize) -> (b: bool)
    requires
        a < s@.len(),
    ensures
        b == (s@[a as int] == '/' || (s@[a as int] == '.' && (a + 1 == s@.len() || s@[a + 1]
            == '/'))),
{
    let n = s.unicode_len();
    let c = s.get_char(a);
    if c == '/' {
        true
    } else if c == '.' {
        a + 1 == n || s.get_char(a + 1) == '/'
    } else {
        false
    }
}

fn back_mark_at(s: &str, a: usize, b: usize) -> (r: bool)
    requires
        a < b <= s@.len(),
    ensures
        r == (s@[b - 1] == '/' || (s@[b - 1] == '.' && (b - 1 == a || s@[b - 2] == '/'))),
{
    let c = s.get_char(b - 1);
    if c == '/' {
        true
    } else if c == '.' {
        b - 1 == a || s.get_char(b - 2) == '/'
    } else {
        false
    }
}

/// The text that follows the `~` of a path, without the empty and `.`
/// pieces at either end.
fn home_suffix_text(path: &str) -> (r: String)
    requires
        path@.len() >= 1,
    ensures
        r@ == home_suffix(path@),
{
    let n = path.unicode_len();
    let mut a: usize = 1;
    while a < n && front_mark_at(path, a)
        invariant
            1 <= a <= n,
            n == path@.len(),
            trim_front_pieces(path@.subrange(1, n as int)) == trim_front_pieces(
                path@.subrange(a as int, n as int),
            ),
        decreases n - a,
    {
        proof {
            let x = path@.subrange(a as int, n as int);
            assert(x.drop_first() =~= path@.subrange(a + 1, n as int));
            assert(x[0] == path@[a as int]);
            if a + 1 == n {
                assert(path@.subrange(a + 1, n as int) =~= Seq::<char>::empty());
                if path@[a as int] == '.' {
                    assert(x =~= seq!['.']);
                }
            } else {
                assert(x[1] == path@[a + 1]);
            }
        }
        a = a + 1;
    }
    proof {
        let x = path@.subrange(a as int, n as int);
        if a < n {
            assert(x[0] == path@[a as int]);
            if x.len() >= 2 {
                assert(x[1] == path@[a + 1]);
            }
            if x == seq!['.'] {
                assert(x.len() == 1);
            }
        }
    }
    let mut b: usize = n;
    while b > a && back_mark_at(path, a, b)
        invariant
            1 <= a <= b <= n,
            n == path@.len(),
            trim_back_pieces(path@.subrange(a as int, n as int)) == trim_back_pieces(
                path@.subrange(a as int, b as int),
            ),
        decreases b,
    {
        proof {
            let y = path@.subrange(a as int, b as int);
            assert(y.drop_last() =~= path@.subrange(a as int, b - 1));
            assert(y.last() == path@[b - 1]);
            if b - 1 == a {
                assert(path@.subrange(a as int, b - 1) =~= Seq::<char>::empty());
                if path@[b - 1] == '.' {
                    assert(y =~= seq!['.']);
                }
            } else {
                assert(y[y.len() - 2] == path@[b - 2]);
            }
        }
        b = b - 1;
    }
    proof {
        let y = path@.subrange(a as int, b as int);
        if b > a {
            assert(y.last() == path@[b - 1]);
            if y.len() >= 2 {
                assert(y[y.len() - 2] == path@[b - 2]);
            }
            if y == seq!['.'] {
                assert(y.len() == 1);
            }
        } else {
            assert(y =~= Seq::<char>::empty());
        }
        assert(path@.drop_first() =~= path@.subrange(1, n as int));
    }
    path.substring_char(a, b).to_owned()
}

/// Replaces the leading `~` of a home-relative path by `home`: what follows
/// the `~` (without empty and `.` pieces at either end) is joined onto
/// `home`.
pub fn expand_home(path: &str, home: &str) -> (r: String)
    requires
        is_home_relative(path@),
    ensures
        r@ == home_expansion(path@, home@),
{
    let rest = home_suffix_text(path);
    let home_len = home.unicode_len();
    if home_len == 0 {
        rest
    } else if home.get_char(home_len - 1) == '/' {
        concat(home, rest.as_str())
    } else {
        let with_separator = concat(home, "/");
        proof {
            reveal_strlit("/");
        }
        concat(with_separator.as_str(), rest.as_str())
    }
}

/// Expands a leading `~` to the home directory of the user: what follows the
/// `~` is joined onto it as written, without empty and `.` pieces at either
/// end (see [`home_expansion`]); other paths are returned unchanged.
pub fn expand(path: &str) -> (r: Result<String, PathError>)
    ensures
        !is_home_relative(path@) ==> (r matches Ok(s) && s@ == path@),
        r matches Ok(s) ==> is_expansion_of(path@, s@),
        r matches Err(e) ==> is_home_relative(path@) && (e == PathError::NoHomeDirectory || e
            == PathError::InvalidCharacters),
{
    if home_relative(path) {
        match home_dir() {
            Some(home) => {
                let home = path_to_str(&home)?;
                let expanded = expand_home(path, home.as_str());
                assert(expanded@ == home_expansion(path@, home@));
                Ok(expanded)
            },
            None => Err(PathError::NoHomeDirectory),
        }
    } else {
        Ok(owned(path))
    }
}

/// Expanding a home-relative path with a home directory that is neither empty
/// nor itself home-relative leaves no leading `~`.
pub proof fn lemma_expansion_removes_home_marker(path: Seq<char>, home: Seq<char>)
    requires
        is_home_relative(path),
        home.len() > 0,
        !is_home_relative(home),
    ensures
        !is_home_relative(home_expansion(path, home)),
{
    let rest = home_suffix(path);
    let e = home_expansion(path, home);
    assert(e.subrange(0, home.len() as int) =~= home);
    assert(e[0] == home[0]);
    if home[0] == '~' {
        if home.len() == 1 {
            assert(home =~= seq!['~']);
        } else {
            assert(e[1] == home[1]);
            assert(home.subrange(0, 2) =~= e.subrange(0, 2));
        }
    }
}

/// The pieces of `s` between its `/` characters, in order (`a//b` has the
/// pieces `a`, an empty piece and `b`; an empty text has one empty piece).
pub open spec fn split_at_slash(s: Seq<char>) -> Seq<Seq<char>>
    decreases s.len(),
{
    if s.len() == 0 {
        seq![Seq::empty()]
    } else {
        let parts = split_at_slash(s.drop_last());
        if s.last() == '/' {
            parts.push(Seq::empty())
        } else {
            parts.update(parts.len() - 1, parts.last().push(s.last()))
        }
    }
}

/// Whether a piece of a path names a component: it is neither empty nor `.`.
pub open spec fn is_path_component(piece: Seq<char>) -> bool {
    piece.len() > 0 && piece != seq!['.']
}

/// `base` with the component `c` pushed on: a `/` is put between them unless
/// `base` is empty or already ends with one.
pub open spec fn push_component(base: Seq<char>, c: Seq<char>) -> Seq<char> {
    if base.len() == 0 {
        c
    } else if base.last() == '/' {
        base + c
    } else {
        base + seq!['/'] + c
    }
}

/// `base` with the components among `pieces` pushed on in order; empty
/// pieces and `.` are skipped.
pub open spec fn push_components(base: Seq<char>, pieces: Seq<Seq<char>>) -> Seq<char>
    decreases pieces.len(),
{
    if pieces.len() == 0 {
        base
    } else {
        let b = push_components(base, pieces.drop_last());
        if is_path_component(pieces.last()) {
            push_component(b, pieces.last())
        } else {
            b
        }
    }
}

/// A home-relative path expanded component by component: each component
/// that follows the `~` is pushed onto the home directory `home`.
pub open spec fn component_expansion(path: Seq<char>, home: Seq<char>) -> Seq<char> {
    push_components(home, split_at_slash(path.drop_first()))
}

/// What expanding `path` component by component may give: a home-relative
/// path becomes its component expansion for some home directory; any other
/// path stays as it is.
pub open spec fn is_component_expansion_of(path: Seq<char>, expanded: Seq<char>) -> bool {
    if is_home_relative(path) {
        exists|home: Seq<char>| expanded == #[trigger] component_expansion(path, home)
    } else {
        expanded == path
    }
}

fn is_component_text(piece: &str) -> (b: bool)
    ensures
        b == is_path_component(piece@),
{
    let n = piece.unicode_len();
    if n == 0 {
        return false;
    }
    if n == 1 && piece.get_char(0) == '.' {
        assert(piece@ =~= seq!['.']);
        return false;
    }
    assert(piece@ != seq!['.']) by {
        if n == 1 {
            assert(piece@[0] != seq!['.'][0]);
        }
    }
    true
}

fn push_component_text(base: String, c: &str) -> (r: String)
    ensures
        r@ == push_component(base@, c@),
{
    let n = base.as_str().unicode_len();
    if n == 0 {
        owned(c)
    } else if base.as_str().get_char(n - 1) == '/' {
        concat(base.as_str(), c)
    } else {
        let with_separator = concat(base.as_str(), "/");
        proof {
            reveal_strlit("/");
        }
        concat(with_separator.as_str(), c)
    }
}

/// Expands a home-relative path with the home directory `home`, component
/// by component.
pub fn expand_home_by_components(path: &str, home: &str) -> (r: String)
    requires
        is_home_relative(path@),
    ensures
        r@ == component_expansion(path@, home@),
{
    let n = path.unicode_len();
    let mut result = owned(home);
    let mut current = String::new();
    let ghost mut done: Seq<Seq<char>> = Seq::empty();
    let mut i: usize = 1;
    assert(path@.subrange(1, 1) =~= Seq::<char>::empty());
    assert(split_at_slash(Seq::<char>::empty()) =~= done.push(current@));
    while i < n
        invariant
            1 <= i <= n,
            n == path@.len(),
            split_at_slash(path@.subrange(1, i as int)) == done.push(current@),
            result@ == push_components(home@, done),
        decreases n - i,
    {
        let c = path.get_char(i);
        let ghost prefix = path@.subrange(1, i as int);
        let ghost parts = done.push(current@);
        assert(path@.subrange(1, i + 1).drop_last() =~= prefix);
        assert(path@.subrange(1, i + 1).last() == c);
        if c == '/' {
            proof {
                assert(done.push(current@).drop_last() =~= done);
            }
            if is_component_text(current.as_str()) {
                result = push_component_text(result, current.as_str());
            }
            proof {
                done = done.push(current@);
            }
            current = String::new();
            assert(split_at_slash(path@.subrange(1, i + 1)) =~= done.push(current@));
        } else {
            let ghost old_current = current@;
            current.append(path.substring_char(i, i + 1));
            assert(current@ =~= old_current.push(c));
            assert(parts.update(parts.len() - 1, parts.last().push(c)) =~= done.push(current@));
        }
        i = i + 1;
    }
    assert(path@.drop_first() =~= path@.subrange(1, n as int));
    assert(done.push(current@).drop_last() =~= done);
    if is_component_text(current.as_str()) {
        result = push_component_text(result, current.as_str());
    }
    result
}

/// Expands a leading `~` to the home directory of the user, pushing each
/// component that follows it onto that directory; other paths are returned
/// unchanged.
pub fn expand_by_components(path: &str) -> (r: Result<String, PathError>)
    ensures
        !is_home_relative(path@) ==> (r matches Ok(s) && s@ == path@),
        r matches Ok(s) ==> is_component_expansion_of(path@, s@),
        r matches Err(e) ==> is_home_relative(path@) && (e == PathError::NoHomeDirectory || e
            == PathError::InvalidCharacters),
{
    if home_relative(path) {
        match home_dir() {
            Some(home) => {
                let home = path_to_str(&home)?;
                let expanded = expand_home_by_components(path, home.as_str());
                assert(expanded@ == component_expansion(path@, home@));
                Ok(expanded)
            },
            None => Err(PathError::NoHomeDirectory),
        }
    } else {
        Ok(owned(path))
    }
}

/// What is found at a path.
#[derive(Debug, Clone, Copy, PartialEq, Eq, Structural)]
pub enum Status {
    DoesNotExist,
    File,
    Directory,
}

/// The ways in which a path can differ from what was expected of it.
#[derive(Debug, Clone, Copy, PartialEq, Eq, Structural)]
pub enum FileStatusError {
    /// Nothing was expected, but a file or directory exists.
    AlreadyExists,
    /// A file or directory was expected, but nothing exists.
    DoesNotExist,
    /// A directory was expected, but a file exists.
    ExpectedDirectoryFoundFile,
    /// A file was expected, but a directory exists.
    ExpectedFileFoundDirectory,
}

/// The outcome of checking the status found at a path against the expected
/// one.
pub open spec fn file_status_outcome(actual: Status, expected: Status) -> Result<
    (),
    FileStatusError,
> {
    if actual == expected {
        Ok(())
    } else if expected is DoesNotExist {
        Err(FileStatusError::AlreadyExists)
    } else if actual is DoesNotExist {
        Err(FileStatusError::DoesNotExist)
    } else if actual is File {
        Err(FileStatusError::ExpectedDirectoryFoundFile)
    } else {
        Err(FileStatusError::ExpectedFileFoundDirectory)
    }
}

/// Checks the status found at a path against the expected one.
pub fn assert_file_status(actual: Status, expected: Status) -> (r: Result<(), FileStatusError>)
    ensures
        r == file_status_outcome(actual, expected),
        r is Ok <==> actual == expected,
{
    match (actual, expected) {
        (Status::DoesNotExist, Status::DoesNotExist)
        | (Status::File, Status::File)
        | (Status::Directory, Status::Directory) => Ok(()),
        (_, Status::DoesNotExist) => Err(FileStatusError::AlreadyExists),
        (Status::DoesNotExist, _) => Err(FileStatusError::DoesNotExist),
        (Status::File, Status::Directory) => Err(FileStatusError::ExpectedDirectoryFoundFile),
        (Status::Directory, Status::File) => Err(FileStatusError::ExpectedFileFoundDirectory),
    }
}

/// The outcome of checking whether a path exists against whether it should.
pub fn existence_outcome(exists: bool, should_exist: bool) -> (r: Result<(), FileStatusError>)
    ensures
        r is Ok <==> exists == should_exist,
        exists && !should_exist ==> r == Err::<(), FileStatusError>(
            FileStatusError::AlreadyExists,
        ),
        !exists && should_exist ==> r == Err::<(), FileStatusError>(
            FileStatusError::DoesNotExist,
        ),
{
    match (exists, should_exist) {
        (true, true) | (false, false) => Ok(()),
        (true, false) => Err(FileStatusError::AlreadyExists),
        (false, true) => Err(FileStatusError::DoesNotExist),
    }
}

/// Checks on the file system whether a path exists as it should.
pub fn assert_file_existence_status(path: &str, should_exist: bool) -> (r: Result<
    (),
    FileStatusError,
>)
    ensures
        should_exist ==> r is Ok || r == Err::<(), FileStatusError>(
            FileStatusError::DoesNotExist,
        ),
        !should_exist ==> r is Ok || r == Err::<(), FileStatusError>(
            FileStatusError::AlreadyExists,
        ),
{
    let exists = path_exists(path);
    existence_outcome(exists, should_exist)
}

/// Calls `std::path::Path::is_dir`. Nothing is claimed of the result: it
/// depends on the file system.
#[verifier::external_body]
pub(crate) fn path_is_dir(path: &str) -> (r: bool) {
    std::path::Path::new(path).is_dir()
}

/// Calls `std::path::Path::is_file`. Nothing is claimed of the result: it
/// depends on the file system.
#[verifier::external_body]
pub(crate) fn path_is_file(path: &str) -> (r: bool) {
    std::path::Path::new(path).is_file()
}

/// A path at which something exists that is neither a file nor a directory.
pub struct NeitherFileNorDirectory {
    pub path: String,
}

/// What the file system's answers about a path say is found there: nothing
/// when it does not exist, else a file or a directory; `None` when something
/// exists that is neither.
pub open spec fn status_of_answers(exists: bool, is_file: bool, is_dir: bool) -> Option<Status> {
    if !exists {
        Some(Status::DoesNotExist)
    } else if is_file {
        Some(Status::File)
    } else if is_dir {
        Some(Status::Directory)
    } else {
        None
    }
}

/// Classifies what is found at a path from the file system's answers.
pub fn classify_status(exists: bool, is_file: bool, is_dir: bool) -> (r: Option<Status>)
    ensures
        r == status_of_answers(exists, is_file, is_dir),
{
    if !exists {
        Some(Status::DoesNotExist)
    } else if is_file {
        Some(Status::File)
    } else if is_dir {
        Some(Status::Directory)
    } else {
        None
    }
}

/// What is found at a path: nothing, a file or a directory, as the file
/// system answers whether the path exists, is a file and is a directory.
pub fn file_status(path: &str) -> (r: Result<Status, NeitherFileNorDirectory>)
    ensures
        r matches Err(e) ==> e.path@ == path@,
{
    let exists = path_exists(path);
    let is_file = path_is_file(path);
    let is_dir = path_is_dir(path);
    match classify_status(exists, is_file, is_dir) {
        Some(s) => Ok(s),
        None => Err(NeitherFileNorDirectory { path: path.to_owned() }),
    }
}

/// The ways in which checking what is found at a path can fail.
pub enum PathStatusError {
    /// Something is found that is neither a file nor a directory.
    Unclassified(NeitherFileNorDirectory),
    /// What is found is not what was expected.
    Unexpected(FileStatusError),
}

/// The outcome of checking what is found at `path` against what was
/// expected, given the file system's answers about the path.
pub fn path_status_outcome(
    path: &str,
    exists: bool,
    is_file: bool,
    is_dir: bool,
    expected: Status,
) -> (r: Result<(), PathStatusError>)
    ensures
        match status_of_answers(exists, is_file, is_dir) {
            None => r matches Err(PathStatusError::Unclassified(e)) && e.path@ == path@,
            Some(actual) => match file_status_outcome(actual, expected) {
                Ok(()) => r is Ok,
                Err(f) => r matches Err(PathStatusError::Unexpected(g)) && g == f,
            },
        },
{
    let actual = match classify_status(exists, is_file, is_dir) {
        Some(s) => s,
        None => {
            return Err(PathStatusError::Unclassified(NeitherFileNorDirectory { path: path.to_owned() }));
        },
    };
    match assert_file_status(actual, expected) {
        Ok(()) => Ok(()),
        Err(e) => Err(PathStatusError::Unexpected(e)),
    }
}

/// Checks on the file system that what is found at a path is what was
/// expected (see [`path_status_outcome`]).
pub fn assert_path_status(path: &str, expected: Status) -> (r: Result<(), PathStatusError>)
    ensures
        r matches Err(PathStatusError::Unclassified(e)) ==> e.path@ == path@,
        r matches Err(PathStatusError::Unexpected(e)) ==> exists|actual: Status|
            actual != expected && file_status_outcome(actual, expected) == Err::<
                (),
                FileStatusError,
            >(e),
{
    let exists = path_exists(path);
    let is_file = path_is_file(path);
    let is_dir = path_is_dir(path);
    path_status_outcome(path, exists, is_file, is_dir, expected)
}

/// Calls `which::which` and reports whether it found the executable. Nothing
/// is claimed of the result: it depends on `PATH` and the file system.
#[verifier::external_body]
fn executable_on_path(name: &str) -> (r: bool) {
    which::which(name).is_ok()
}

/// An executable that is not on the search path.
pub struct MissingExecutable {
    pub name: String,
}

/// The outcome of looking for an executable, given whether it was found.
pub fn executable_outcome(name: &str, found: bool) -> (r: Result<(), MissingExecutable>)
    ensures
        r is Ok <==> found,
        r matches Err(e) ==> e.name@ == name@,
{
    if found {
        Ok(())
    } else {
        Err(MissingExecutable { name: name.to_owned() })
    }
}

/// Checks that an executable of the given name is on the search path: the
/// outcome is [`executable_outcome`] of whether it was found there.
pub fn assert_executable_exists(executable_name: &str) -> (r: Result<(), MissingExecutable>)
    ensures
        r matches Err(e) ==> e.name@ == executable_name@,
{
    let found = executable_on_path(executable_name);
    executable_outcome(executable_name, found)
}

} // verus!
