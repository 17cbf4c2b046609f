//! The queries on paths that the library asks of `std::path::Path`.
//!
//! How `Path` splits a path into components depends on the target: Unix
//! separates by `/` only, Windows also by `\` and knows drive and UNC
//! prefixes. Each contract below states what Unix and Windows agree on, so
//! a function that asks one of these questions takes the answer as it comes,
//! and a verified function beside it says what follows from each answer.

use crate::text::option_str_text;
use std::path::Path;
use vstd::prelude::*;

verus! {

/// A path that no target reads as having a root: it does not start with
/// `/` and holds no `\` and no `:`.
pub open spec fn is_plain_relative(p: Seq<char>) -> bool {
    &&& !(p.len() > 0 && p[0] == '/')
    &&& !p.contains('\\')
    &&& !p.contains(':')
}

/// The index of the last `c` in `s`, if there is one.
pub open spec fn last_index_of(s: Seq<char>, c: char) -> Option<int>
    decreases s.len(),
{
    if s.len() == 0 {
        None
    } else if s.last() == c {
        Some(s.len() - 1)
    } else {
        last_index_of(s.drop_last(), c)
    }
}

/// The last name of `p`, what follows its last `/` (all of `p` when it has
/// none), when Unix and Windows read it alike as the path's file name: `p`
/// holds no `\` and no `:`, does not start with `//` (which Windows may
/// read as a network share), and ends in a name that is neither empty, `.`
/// nor `..`. Both targets then split `p` at `/` alone and take that name as
/// the file name.
pub open spec fn portable_final_name(p: Seq<char>) -> Option<Seq<char>> {
    let name = match last_index_of(p, '/') {
        Some(i) => p.skip(i + 1),
        None => p,
    };
    if !p.contains('\\') && !p.contains(':') && !(p.len() >= 2 && p[0] == '/' && p[1] == '/')
        && name.len() > 0 && name != seq!['.'] && name != seq!['.', '.'] {
        Some(name)
    } else {
        None
    }
}

/// Where a file name splits into stem and extension: at its last `.`,
/// unless it has none or its only `.` is its first character.
pub open spec fn name_split(n: Seq<char>) -> Option<int> {
    match last_index_of(n, '.') {
        Some(k) => if k > 0 {
            Some(k)
        } else {
            None
        },
        None => None,
    }
}

/// The stem of a file name: the part before the last `.`, or all of it when
/// it does not split (see [`name_split`]).
pub open spec fn name_stem(n: Seq<char>) -> Seq<char> {
    match name_split(n) {
        Some(k) => n.take(k),
        None => n,
    }
}

/// The extension of a file name: the part after the last `.`, if it splits
/// (see [`name_split`]).
pub open spec fn name_extension(n: Seq<char>) -> Option<Seq<char>> {
    match name_split(n) {
        Some(k) => Some(n.skip(k + 1)),
        None => None,
    }
}

/// `Path::is_absolute` on `p`. On every target an absolute path has a root,
/// so it is neither empty nor plainly relative (see [`is_plain_relative`]);
/// which other paths are absolute depends on the target (on Unix those that
/// start with `/`, on Windows those with a drive or UNC prefix) and is left
/// unsaid.
#[verifier::external_body]
pub(crate) fn path_is_absolute(p: &str) -> (res: bool)
    ensures
        res ==> p@.len() > 0,
        is_plain_relative(p@) ==> !res,
{
    Path::new(p).is_absolute()
}

/// `Path::has_root` on `p`. On every target a path that starts with `/` has
/// a root, and a plainly relative one (see [`is_plain_relative`]) has none;
/// for paths with a `\` or a `:` the answer depends on the target and is
/// left unsaid.
#[verifier::external_body]
pub(crate) fn path_has_root(p: &str) -> (res: bool)
    ensures
        res ==> p@.len() > 0,
        p@.len() > 0 && p@[0] == '/' ==> res,
        is_plain_relative(p@) ==> !res,
{
    Path::new(p).has_root()
}

/// `Path::extension` on `p`, as text. The extension is the part of the last
/// component after its last `.`, so it holds no `.` and no `/`, and a path
/// without a `.` has none. When the file name is read alike on Unix and
/// Windows (see [`portable_final_name`]) it is that name's extension, as
/// std documents it; how other paths split into components depends on the
/// target and is left unsaid.
#[verifier::external_body]
pub(crate) fn path_extension(p: &str) -> (res: Option<&str>)
    ensures
        res matches Some(e) ==> !e@.contains('.') && !e@.contains('/') && p@.contains('.'),
        portable_final_name(p@) is Some ==> option_str_text(res) == name_extension(
            portable_final_name(p@).unwrap(),
        ),
{
    Path::new(p).extension()?.to_str()
}

/// `Path::file_stem` on `p`, as text: the last component without its
/// extension. It holds no `/`, and the empty path has none. When the file
/// name is read alike on Unix and Windows (see [`portable_final_name`]) it
/// is that name's stem, as std documents it; how other paths split into
/// components depends on the target and is left unsaid.
#[verifier::external_body]
pub(crate) fn path_file_stem(p: &str) -> (res: Option<&str>)
    ensures
        res matches Some(s) ==> !s@.contains('/'),
        p@.len() == 0 ==> res is None,
        portable_final_name(p@) is Some ==> res is Some && res.unwrap()@ == name_stem(
            portable_final_name(p@).unwrap(),
        ),
{
    Path::new(p).file_stem()?.to_str()
}

} // verus!
