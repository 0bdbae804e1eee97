//! Paths, held as strings: joining, final components, extensions and parents.
//!
//! Joining and the component-wise operations are those of `std::path::Path` on the build
//! target; extensions, hidden names and sketch files are decided here.
use vstd::prelude::*;

use crate::text::{
    chars_of, eq_ignore_ascii_case, replace_char, replace_char_str, str_eq_ignore_ascii_case,
    string_from_chars,
};

verus! {

/// The final component of `path` as `std::path::Path::file_name` gives it (`None` when the
/// path ends in a root, a prefix or `..`).
pub uninterp spec fn file_name_of(path: Seq<char>) -> Option<Seq<char>>;

/// The final component of `path`.
///
/// Trusted: calls `std::path::Path::file_name`; the contract only names the result.
#[verifier::external_body]
pub(crate) fn path_file_name(path: &str) -> (r: Option<String>)
    ensures
        match r {
            Some(n) => file_name_of(path@) == Some(n@),
            None => file_name_of(path@) is None,
        },
{
    std::path::Path::new(path).file_name().and_then(|s| s.to_str()).map(|s| s.to_string())
}


/// The path without its final component, as `std::path::Path::parent` gives it (`None`
/// when the path ends in a root or a prefix, or is empty).
pub uninterp spec fn parent_of(path: Seq<char>) -> Option<Seq<char>>;

/// The path without its final component.
///
/// Trusted: calls `std::path::Path::parent`; the contract only names the result.
#[verifier::external_body]
pub(crate) fn path_parent(path: &str) -> (r: Option<String>)
    ensures
        match r {
            Some(p) => parent_of(path@) == Some(p@),
            None => parent_of(path@) is None,
        },
{
    std::path::Path::new(path).parent().map(|p| p.to_string_lossy().to_string())
}


/// `part` appended to `base` as `std::path::Path::join` gives it on the build target (on
/// Unix: an absolute `part` replaces `base`; otherwise a `/` separates them unless `base` is
/// empty or already ends in a separator).
pub uninterp spec fn path_join(base: Seq<char>, part: Seq<char>) -> Seq<char>;

/// `part` appended to `base` as a path.
///
/// Trusted: calls `std::path::Path::join`; the contract only names the result.
#[verifier::external_body]
pub(crate) fn join_path(base: &str, part: &str) -> (r: String)
    ensures
        r@ == path_join(base@, part@),
{
    std::path::Path::new(base).join(part).to_string_lossy().to_string()
}

/// The last index of `c` in `s[..end]`, if any.
pub open spec fn last_index_of(s: Seq<char>, c: char, end: int) -> Option<int>
    decreases end,
{
    if end <= 0 || end > s.len() {
        None
    } else if s[end - 1] == c {
        Some(end - 1)
    } else {
        last_index_of(s, c, end - 1)
    }
}

/// The extension of a file name as `Path::extension` takes it: the text after the last `.`,
/// unless there is no `.` or the only `.` is the first character.
pub open spec fn extension_of(file_name: Seq<char>) -> Option<Seq<char>> {
    match last_index_of(file_name, '.', file_name.len() as int) {
        Some(k) => if k == 0 {
            None
        } else {
            Some(file_name.subrange(k + 1, file_name.len() as int))
        },
        None => None,
    }
}

proof fn lemma_last_index_of(s: Seq<char>, c: char, end: int)
    ensures
        last_index_of(s, c, end) matches Some(k) ==> 0 <= k < end <= s.len(),
    decreases end,
{
    if end > 0 && end <= s.len() && s[end - 1] != c {
        lemma_last_index_of(s, c, end - 1);
    }
}

proof fn lemma_last_index_is_last(s: Seq<char>, c: char, end: int)
    requires
        0 <= end <= s.len(),
    ensures
        match last_index_of(s, c, end) {
            Some(k) => 0 <= k < end && s[k] == c && forall|j: int| k < j < end ==> s[j] != c,
            None => forall|j: int| 0 <= j < end ==> s[j] != c,
        },
    decreases end,
{
    if end > 0 && s[end - 1] != c {
        lemma_last_index_is_last(s, c, end - 1);
    }
}

/// The extension of a file name is the text after its last `.`, which holds no `.`; there
/// is none exactly when no `.` comes after the first character.
pub proof fn law_extension_after_last_dot(file_name: Seq<char>)
    ensures
        match extension_of(file_name) {
            Some(e) => exists|k: int|
                0 < k < file_name.len() && file_name[k] == '.' && #[trigger] file_name.subrange(
                    k + 1,
                    file_name.len() as int,
                ) == e && forall|j: int| 0 <= j < e.len() ==> e[j] != '.',
            None => forall|j: int| 0 < j < file_name.len() ==> file_name[j] != '.',
        },
{
    lemma_last_index_is_last(file_name, '.', file_name.len() as int);
    if let Some(k) = last_index_of(file_name, '.', file_name.len() as int) {
        if k > 0 {
            let e = file_name.subrange(k + 1, file_name.len() as int);
            assert forall|j: int| 0 <= j < e.len() implies e[j] != '.' by {
                assert(e[j] == file_name[k + 1 + j]);
            }
            assert(file_name.subrange(k + 1, file_name.len() as int) == e);
        }
    }
}

/// The extension of a file name.
pub fn extension(file_name: &str) -> (r: Option<String>)
    ensures
        match r {
            Some(e) => extension_of(file_name@) == Some(e@),
            None => extension_of(file_name@) is None,
        },
{
    let v = chars_of(file_name);
    let mut end = v.len();
    while end > 0 && v[end - 1] != '.'
        invariant
            end <= v@.len(),
            last_index_of(v@, '.', v@.len() as int) == last_index_of(v@, '.', end as int),
        decreases end,
    {
        end = end - 1;
    }
    if end <= 1 {
        return None;
    }
    let mut out: Vec<char> = Vec::new();
    let mut i = end;
    while i < v.len()
        invariant
            end <= i <= v@.len(),
            out@ == v@.subrange(end as int, i as int),
        decreases v.len() - i,
    {
        out.push(v[i]);
        i = i + 1;
        assert(out@ =~= v@.subrange(end as int, i as int));
    }
    Some(string_from_chars(&out))
}

/// A path whose last component starts with a `.` (a hidden file or directory).
pub open spec fn is_hidden(path: Seq<char>) -> bool {
    match file_name_of(path) {
        Some(n) => n.len() > 0 && n[0] == '.',
        None => false,
    }
}

/// Whether the last component of `path` starts with a `.`.
pub fn is_dir_hidden(path: &str) -> (r: bool)
    ensures
        r == is_hidden(path@),
{
    match path_file_name(path) {
        Some(n) => {
            let v = chars_of(n.as_str());
            v.len() > 0 && v[0] == '.'
        },
        None => false,
    }
}

/// A path with the extension of an Arduino sketch: `.ino` or the older `.pde`, in any
/// ASCII case.
pub open spec fn has_sketch_extension(path: Seq<char>) -> bool {
    match file_name_of(path) {
        Some(n) => match extension_of(n) {
            Some(e) => eq_ignore_ascii_case(e, "ino"@) || eq_ignore_ascii_case(e, "pde"@),
            None => false,
        },
        None => false,
    }
}

/// Whether `path` has the extension of an Arduino sketch (`.ino` or `.pde`, any ASCII
/// case). Whether the path is a file is left to the caller, which reads the file system.
pub fn path_has_sketch_extension(path: &str) -> (r: bool)
    ensures
        r == has_sketch_extension(path@),
{
    match path_file_name(path) {
        Some(n) => match extension(n.as_str()) {
            Some(e) => str_eq_ignore_ascii_case(e.as_str(), "ino") || str_eq_ignore_ascii_case(
                e.as_str(),
                "pde",
            ),
            None => false,
        },
        None => false,
    }
}

/// `path` relative to `base` as `std::path::Path::strip_prefix` computes it (`None` when
/// `base` is not a prefix of `path`, component-wise).
pub uninterp spec fn strip_prefix_of(path: Seq<char>, base: Seq<char>) -> Option<Seq<char>>;

/// `path` relative to `base`, or `None` when `base` is not a prefix of `path`.
///
/// Trusted: calls `std::path::Path::strip_prefix`; the contract only names the result.
#[verifier::external_body]
fn strip_path_prefix(path: &str, base: &str) -> (r: Option<String>)
    ensures
        match r {
            Some(p) => strip_prefix_of(path@, base@) == Some(p@),
            None => strip_prefix_of(path@, base@) is None,
        },
{
    match std::path::Path::new(path).strip_prefix(base) {
        Ok(p) => Some(p.to_string_lossy().to_string()),
        Err(_) => None,
    }
}

/// The name of a sketch in reports: its resolved path relative to the workspace when it
/// lies inside, otherwise the path as given; with `\` turned into `/`.
pub open spec fn sketch_report_name(
    resolved: Seq<char>,
    workspace: Seq<char>,
    given: Seq<char>,
) -> Seq<char> {
    match strip_prefix_of(resolved, workspace) {
        Some(rel) => replace_char(rel, '\\', '/'),
        None => replace_char(given, '\\', '/'),
    }
}

/// The name of a sketch in reports, from its resolved (canonical) path, the working
/// directory, and the path as given.
pub fn path_relative_to_workspace(resolved: &str, workspace: &str, given: &str) -> (r: String)
    ensures
        r@ == sketch_report_name(resolved@, workspace@, given@),
{
    match strip_path_prefix(resolved, workspace) {
        Some(rel) => replace_char_str(rel.as_str(), '\\', '/'),
        None => replace_char_str(given, '\\', '/'),
    }
}

} // verus!
