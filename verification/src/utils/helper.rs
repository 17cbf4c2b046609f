//! Choosing how a transfer between two paths is carried out.

use crate::pathnames::{is_plain_relative, path_is_absolute};
use crate::text::find_char;
use crate::zipmod::zipperman::UnzipRoute;
use vstd::prelude::*;

verus! {

pub open spec fn source_not_absolute_message() -> Seq<char> {
    "Invalid Source Path: Not an absolute path"@
}

pub open spec fn destination_not_absolute_message() -> Seq<char> {
    "Invalid Destination Path: Not an absolute path"@
}

/// Both paths must be absolute, the source checked first; a path with a
/// `:` (as in `host:/dir`) is reached over the network.
pub open spec fn spec_route_for_paths(
    src_absolute: bool,
    dest_absolute: bool,
    src: Seq<char>,
    dest: Seq<char>,
) -> Result<UnzipRoute, Seq<char>> {
    if !src_absolute {
        Err(source_not_absolute_message())
    } else if !dest_absolute {
        Err(destination_not_absolute_message())
    } else if !src.contains(':') && !dest.contains(':') {
        Ok(UnzipRoute::Local)
    } else {
        Ok(UnzipRoute::Network)
    }
}

/// The route for a transfer from `src` to `dest`, given whether each path
/// is absolute.
pub fn route_for_paths(src_absolute: bool, dest_absolute: bool, src: &str, dest: &str) -> (res:
    Result<UnzipRoute, &'static str>)
    ensures
        match spec_route_for_paths(src_absolute, dest_absolute, src@, dest@) {
            Ok(r) => res == Ok::<UnzipRoute, &'static str>(r),
            Err(m) => res matches Err(msg) && msg@ == m,
        },
{
    if !src_absolute {
        return Err("Invalid Source Path: Not an absolute path");
    }
    if !dest_absolute {
        return Err("Invalid Destination Path: Not an absolute path");
    }
    if find_char(src, ':').is_none() && find_char(dest, ':').is_none() {
        Ok(UnzipRoute::Local)
    } else {
        Ok(UnzipRoute::Network)
    }
}

/// Decides how the tree at `src` is unzipped into `dest` (see
/// [`route_for_paths`]), each path's absoluteness judged by
/// `std::path::Path`. A plainly relative path (see [`is_plain_relative`]),
/// the empty path among them, is never absolute, and the source is judged
/// first; once both paths are accepted the route depends on the `:` in them
/// alone. Which other paths are absolute depends on the target.
pub fn determine_locality_and_unzip(src: &str, dest: &str) -> (res: Result<UnzipRoute, &'static str>)
    ensures
        is_plain_relative(src@) ==> (res matches Err(m) && m@ == source_not_absolute_message()),
        is_plain_relative(dest@) ==> res is Err,
        res matches Ok(r) ==> src@.len() > 0 && dest@.len() > 0 && r == (if !src@.contains(':')
            && !dest@.contains(':') {
            UnzipRoute::Local
        } else {
            UnzipRoute::Network
        }),
        res matches Err(m) ==> m@ == source_not_absolute_message() || m@
            == destination_not_absolute_message(),
{
    let src_absolute = path_is_absolute(src);
    let dest_absolute = path_is_absolute(dest);
    route_for_paths(src_absolute, dest_absolute, src, dest)
}

} // verus!
