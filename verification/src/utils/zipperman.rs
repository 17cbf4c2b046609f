//! The older, simpler walk over a source tree: archives are announced,
//! everything else is copied.

use crate::pathnames::{name_extension, path_extension, portable_final_name};
use crate::text::{option_str_text, text_equals};
use crate::zipmod::ziperror::ZIPError;
use vstd::prelude::*;

verus! {

/// Transfers a tree over the network. Nothing is transferred yet: the
/// transfer always reports success.
pub fn unzip_pantz_net(src: &str, dest: &str) -> (res: Result<(), ZIPError>)
    ensures
        res is Ok,
{
    Ok(())
}

/// What the simple walk does with an entry of the source tree.
#[derive(Clone, Copy, Debug, PartialEq, Eq, Structural)]
pub enum LocalEntryAction {
    /// A directory: created at the destination and walked in turn.
    Recurse,
    /// A `.zip` archive: reported, not copied.
    AnnounceZip,
    /// A `.rar` archive: reported, not copied.
    AnnounceRar,
    /// Any other file: copied.
    Copy,
}

pub open spec fn spec_local_entry_action(is_dir: bool, ext: Option<Seq<char>>) -> LocalEntryAction {
    if is_dir {
        LocalEntryAction::Recurse
    } else if ext == Some("zip"@) {
        LocalEntryAction::AnnounceZip
    } else if ext == Some("rar"@) {
        LocalEntryAction::AnnounceRar
    } else {
        LocalEntryAction::Copy
    }
}

/// The action for an entry, given whether it is a directory and its
/// extension.
pub fn local_entry_action(is_dir: bool, ext: Option<&str>) -> (action: LocalEntryAction)
    ensures
        action == spec_local_entry_action(is_dir, option_str_text(ext)),
        is_dir ==> action == LocalEntryAction::Recurse,
        !is_dir && option_str_text(ext) == Some("zip"@) ==> action == LocalEntryAction::AnnounceZip,
        !is_dir && option_str_text(ext) == Some("rar"@) ==> action == LocalEntryAction::AnnounceRar,
        !is_dir && option_str_text(ext) != Some("zip"@) && option_str_text(ext) != Some("rar"@)
            ==> action == LocalEntryAction::Copy,
{
    proof {
        reveal_strlit("rar");
        reveal_strlit("zip");
        assert("rar"@[0] != "zip"@[0]);
    }
    if is_dir {
        return LocalEntryAction::Recurse;
    }
    match ext {
        Some(e) => {
            if text_equals(e, "zip") {
                LocalEntryAction::AnnounceZip
            } else if text_equals(e, "rar") {
                LocalEntryAction::AnnounceRar
            } else {
                LocalEntryAction::Copy
            }
        },
        None => LocalEntryAction::Copy,
    }
}

/// The action for the entry at `path` (see [`local_entry_action`]). A
/// directory is walked; a path whose file name is read alike on every target
/// (see [`portable_final_name`]) is judged by that name's extension.
pub fn classify_local_entry(is_dir: bool, path: &str) -> (action: LocalEntryAction)
    ensures
        is_dir ==> action == LocalEntryAction::Recurse,
        portable_final_name(path@) is Some ==> action == spec_local_entry_action(
            is_dir,
            name_extension(portable_final_name(path@).unwrap()),
        ),
{
    local_entry_action(is_dir, path_extension(path))
}

} // verus!
