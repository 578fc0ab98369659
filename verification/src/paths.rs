//! File-system paths as text. The parsing itself is the standard library's,
//! by the rules of the platform that the library is built for; this module
//! gives each of its answers a name that contracts can speak of.

use std::path::Path;
use vstd::arithmetic::div_mod::lemma_fundamental_div_mod_converse;
use vstd::prelude::*;

verus! {

/// What `Path::extension` answers for the path written `path`.
pub uninterp spec fn path_extension(path: Seq<char>) -> Option<Seq<char>>;

/// What `Path::file_name` answers for the path written `path`.
pub uninterp spec fn path_file_name(path: Seq<char>) -> Option<Seq<char>>;

/// What `Path::with_extension` makes of `path` and `ext`.
pub uninterp spec fn path_with_extension(path: Seq<char>, ext: Seq<char>) -> Seq<char>;

/// What `Path::join` makes of `dir` and `name`.
pub uninterp spec fn path_join(dir: Seq<char>, name: Seq<char>) -> Seq<char>;

/// The characters of an optional string.
pub open spec fn opt_text(s: Option<String>) -> Option<Seq<char>> {
    match s {
        Some(t) => Some(t@),
        None => None,
    }
}

/// An optional text, or the empty text in its absence.
pub open spec fn text_or_empty(s: Option<Seq<char>>) -> Seq<char> {
    match s {
        Some(t) => t,
        None => Seq::empty(),
    }
}

/// Whether `c` separates path components on some supported platform.
pub open spec fn is_separator(c: char) -> bool {
    c == '/' || c == '\\'
}

/// Whether no character of `s` is a path separator.
pub open spec fn separator_free(s: Seq<char>) -> bool {
    forall|i: int| 0 <= i < s.len() ==> !is_separator(#[trigger] s[i])
}

/// Calls `std::path::Path::extension` on `path` and hands the answer back as
/// text. Nothing is claimed beyond the answer being the one that the name
/// `path_extension` stands for.
#[verifier::external_body]
pub(crate) fn extension(path: &str) -> (ext: Option<String>)
    ensures
        opt_text(ext) == path_extension(path@),
{
    match Path::new(path).extension() {
        Some(e) => Some(e.to_string_lossy().into_owned()),
        None => None,
    }
}

/// Calls `std::path::Path::file_name` on `path` and hands the answer back as
/// text, named by `path_file_name`.
#[verifier::external_body]
pub(crate) fn file_name(path: &str) -> (name: Option<String>)
    ensures
        opt_text(name) == path_file_name(path@),
{
    match Path::new(path).file_name() {
        Some(n) => Some(n.to_string_lossy().into_owned()),
        None => None,
    }
}

/// Calls `std::path::Path::with_extension`, named by `path_with_extension`.
/// The standard library panics on an extension that holds a path separator,
/// so such an extension is left out.
#[verifier::external_body]
pub(crate) fn with_extension(path: &str, ext: &str) -> (out: String)
    requires
        separator_free(ext@),
    ensures
        out@ == path_with_extension(path@, ext@),
{
    Path::new(path).with_extension(ext).to_string_lossy().into_owned()
}

/// Calls `std::path::Path::join`, named by `path_join`.
#[verifier::external_body]
pub(crate) fn join(dir: &str, name: &str) -> (out: String)
    ensures
        out@ == path_join(dir@, name@),
{
    Path::new(dir).join(name).to_string_lossy().into_owned()
}

/// The extension of `path`, or the empty string where it has none.
pub fn extension_or_empty(path: &str) -> (ext: String)
    ensures
        ext@ == text_or_empty(path_extension(path@)),
{
    match extension(path) {
        Some(e) => e,
        None => String::new(),
    }
}

/// The final component of `path`, or the empty string where it has none.
pub fn file_name_or_empty(path: &str) -> (name: String)
    ensures
        name@ == text_or_empty(path_file_name(path@)),
{
    match file_name(path) {
        Some(n) => n,
        None => String::new(),
    }
}

/// Whether `s` holds no path separator.
pub fn is_separator_free(s: &str) -> (free: bool)
    ensures
        free == separator_free(s@),
{
    let cs = crate::text::chars_of(s);
    let mut i: usize = 0;
    while i < cs.len()
        invariant
            cs@ == s@,
            i <= cs.len(),
            forall|k: int| 0 <= k < i ==> !is_separator(#[trigger] cs@[k]),
        decreases cs.len() - i,
    {
        if cs[i] == '/' || cs[i] == '\\' {
            return false;
        }
        i = i + 1;
    }
    true
}

/// The glob pattern that finds, at any depth below `dir`, the files whose
/// extension is `ext`.
pub open spec fn glob_pattern(dir: Seq<char>, ext: Seq<char>) -> Seq<char> {
    dir + "/**/*."@ + ext
}

/// Builds `glob_pattern(dir, ext)`.
pub fn make_glob_pattern(dir: &str, ext: &str) -> (pattern: String)
    ensures
        pattern@ == glob_pattern(dir@, ext@),
{
    let mut pattern = dir.to_owned();
    pattern.append("/**/*.");
    pattern.append(ext);
    pattern
}

/// One pattern per folder and extension: all extensions of the first folder,
/// then those of the second, and so on.
pub fn glob_patterns(folders: &Vec<String>, exts: &Vec<String>) -> (patterns: Vec<String>)
    ensures
        patterns@.len() == folders@.len() * exts@.len(),
        forall|k: int|
            0 <= k < patterns@.len() ==> (#[trigger] patterns@[k])@ == glob_pattern(
                folders@[k / exts@.len() as int]@,
                exts@[k % exts@.len() as int]@,
            ),
{
    let mut patterns: Vec<String> = Vec::new();
    let ghost w = exts@.len() as int;
    let mut i: usize = 0;
    while i < folders.len()
        invariant
            w == exts@.len(),
            i <= folders.len(),
            patterns@.len() == i * w,
            forall|k: int|
                0 <= k < patterns@.len() ==> (#[trigger] patterns@[k])@ == glob_pattern(
                    folders@[k / w]@,
                    exts@[k % w]@,
                ),
        decreases folders.len() - i,
    {
        let mut j: usize = 0;
        while j < exts.len()
            invariant
                w == exts@.len(),
                i < folders.len(),
                j <= exts.len(),
                patterns@.len() == i * w + j,
                forall|k: int|
                    0 <= k < patterns@.len() ==> (#[trigger] patterns@[k])@ == glob_pattern(
                        folders@[k / w]@,
                        exts@[k % w]@,
                    ),
            decreases exts.len() - j,
        {
            let p = make_glob_pattern(folders[i].as_str(), exts[j].as_str());
            proof {
                lemma_fundamental_div_mod_converse(i * w + j, w, i as int, j as int);
            }
            patterns.push(p);
            j = j + 1;
        }
        proof {
            assert((i + 1) * w == i * w + w) by (nonlinear_arith);
        }
        i = i + 1;
    }
    patterns
}

} // verus!
