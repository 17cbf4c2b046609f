//! The decisions taken while unzipping a directory tree: which route a
//! transfer takes, what is done with each file met, when a failed copy is
//! tried again, and which archive entries are directories.

use crate::pathnames::{
    name_extension, name_stem, path_extension, path_file_stem, portable_final_name,
};
use crate::text::{
    ascii_lower_char, ascii_lowercase, is_ascii_text,
    is_blank, lemma_trimmed, lowered, option_str_text, option_text, text_equals, to_lowercase,
    trim_white_space, trimmed,
};
use crate::zipmod::zipackage::ZIPackage;
use vstd::prelude::*;

verus! {

/// How a transfer is carried out.
#[derive(Clone, Copy, Debug, PartialEq, Eq, Structural)]
pub enum UnzipRoute {
    /// Both ends are directories of this machine.
    Local,
    /// At least one end is reached over the network.
    Network,
}

/// A transfer is local when neither end names a host (a host of only
/// whitespace names none).
pub open spec fn spec_route(src_host: Seq<char>, dest_host: Seq<char>) -> UnzipRoute {
    if trimmed(src_host).len() == 0 && trimmed(dest_host).len() == 0 {
        UnzipRoute::Local
    } else {
        UnzipRoute::Network
    }
}

/// A transfer is local exactly when neither end names a host, a host of
/// only whitespace naming none.
pub proof fn lemma_route_is_local_iff_hostless(src_host: Seq<char>, dest_host: Seq<char>)
    ensures
        spec_route(src_host, dest_host) == UnzipRoute::Local <==> is_blank(src_host) && is_blank(
            dest_host,
        ),
{
    lemma_trimmed(src_host);
    lemma_trimmed(dest_host);
}

/// Decides how `src` is unzipped into `dest`: locally when neither names a
/// host, over the network otherwise.
pub fn determine_locality_and_unzip(src: &ZIPackage, dest: &ZIPackage) -> (route: UnzipRoute)
    ensures
        route == spec_route(src.host@, dest.host@),
{
    if trim_white_space(src.host.as_str()).is_empty() && trim_white_space(
        dest.host.as_str(),
    ).is_empty() {
        UnzipRoute::Local
    } else {
        UnzipRoute::Network
    }
}

/// The extensions, in lowercase, of the video, audio, image and subtitle
/// files that are copied.
pub open spec fn is_media_name(e: Seq<char>) -> bool {
    // video
    ||| e == "mp4"@
    ||| e == "avi"@
    ||| e == "mov"@
    ||| e == "mkv"@
    ||| e == "webm"@
    ||| e == "wmv"@
    // audio
    ||| e == "mp3"@
    ||| e == "wav"@
    ||| e == "flac"@
    ||| e == "aac"@
    ||| e == "ogg"@
    ||| e == "wma"@
    // image
    ||| e == "jpg"@
    ||| e == "jpeg"@
    ||| e == "png"@
    ||| e == "gif"@
    ||| e == "bmp"@
    ||| e == "webp"@
    ||| e == "tiff"@
    ||| e == "svg"@
    // subtitles
    ||| e == "srt"@
    ||| e == "sub"@
    ||| e == "ssa"@
    ||| e == "ass"@
    ||| e == "vtt"@
    ||| e == "smi"@
}

/// The extensions of the video, audio, image and subtitle files that are
/// copied, in lowercase: `mp4`, `avi`, `mov`, `mkv`, `webm`, `wmv`, `mp3`,
/// `wav`, `flac`, `aac`, `ogg`, `wma`, `jpg`, `jpeg`, `png`, `gif`, `bmp`,
/// `webp`, `tiff`, `svg`, `srt`, `sub`, `ssa`, `ass`, `vtt`, `smi`.
pub open spec fn media_list() -> Seq<Seq<char>> {
    seq![
        "mp4"@,
        "avi"@,
        "mov"@,
        "mkv"@,
        "webm"@,
        "wmv"@,
        "mp3"@,
        "wav"@,
        "flac"@,
        "aac"@,
        "ogg"@,
        "wma"@,
        "jpg"@,
        "jpeg"@,
        "png"@,
        "gif"@,
        "bmp"@,
        "webp"@,
        "tiff"@,
        "svg"@,
        "srt"@,
        "sub"@,
        "ssa"@,
        "ass"@,
        "vtt"@,
        "smi"@,
    ]
}

/// An extension is a media name exactly when it is on [`media_list`].
pub proof fn lemma_media_names_are_the_list(x: Seq<char>)
    ensures
        is_media_name(x) <==> media_list().contains(x),
{
    assert(media_list().len() == 26);
    if x == "mp4"@ {
        assert(media_list()[0] == x);
    }
    if x == "avi"@ {
        assert(media_list()[1] == x);
    }
    if x == "mov"@ {
        assert(media_list()[2] == x);
    }
    if x == "mkv"@ {
        assert(media_list()[3] == x);
    }
    if x == "webm"@ {
        assert(media_list()[4] == x);
    }
    if x == "wmv"@ {
        assert(media_list()[5] == x);
    }
    if x == "mp3"@ {
        assert(media_list()[6] == x);
    }
    if x == "wav"@ {
        assert(media_list()[7] == x);
    }
    if x == "flac"@ {
        assert(media_list()[8] == x);
    }
    if x == "aac"@ {
        assert(media_list()[9] == x);
    }
    if x == "ogg"@ {
        assert(media_list()[10] == x);
    }
    if x == "wma"@ {
        assert(media_list()[11] == x);
    }
    if x == "jpg"@ {
        assert(media_list()[12] == x);
    }
    if x == "jpeg"@ {
        assert(media_list()[13] == x);
    }
    if x == "png"@ {
        assert(media_list()[14] == x);
    }
    if x == "gif"@ {
        assert(media_list()[15] == x);
    }
    if x == "bmp"@ {
        assert(media_list()[16] == x);
    }
    if x == "webp"@ {
        assert(media_list()[17] == x);
    }
    if x == "tiff"@ {
        assert(media_list()[18] == x);
    }
    if x == "svg"@ {
        assert(media_list()[19] == x);
    }
    if x == "srt"@ {
        assert(media_list()[20] == x);
    }
    if x == "sub"@ {
        assert(media_list()[21] == x);
    }
    if x == "ssa"@ {
        assert(media_list()[22] == x);
    }
    if x == "ass"@ {
        assert(media_list()[23] == x);
    }
    if x == "vtt"@ {
        assert(media_list()[24] == x);
    }
    if x == "smi"@ {
        assert(media_list()[25] == x);
    }
    if media_list().contains(x) {
        let k = choose|k: int| 0 <= k < media_list().len() && media_list()[k] == x;
        if k == 0 {
            assert(media_list()[0] == "mp4"@);
        }
        else if k == 1 {
            assert(media_list()[1] == "avi"@);
        }
        else if k == 2 {
            assert(media_list()[2] == "mov"@);
        }
        else if k == 3 {
            assert(media_list()[3] == "mkv"@);
        }
        else if k == 4 {
            assert(media_list()[4] == "webm"@);
        }
        else if k == 5 {
            assert(media_list()[5] == "wmv"@);
        }
        else if k == 6 {
            assert(media_list()[6] == "mp3"@);
        }
        else if k == 7 {
            assert(media_list()[7] == "wav"@);
        }
        else if k == 8 {
            assert(media_list()[8] == "flac"@);
        }
        else if k == 9 {
            assert(media_list()[9] == "aac"@);
        }
        else if k == 10 {
            assert(media_list()[10] == "ogg"@);
        }
        else if k == 11 {
            assert(media_list()[11] == "wma"@);
        }
        else if k == 12 {
            assert(media_list()[12] == "jpg"@);
        }
        else if k == 13 {
            assert(media_list()[13] == "jpeg"@);
        }
        else if k == 14 {
            assert(media_list()[14] == "png"@);
        }
        else if k == 15 {
            assert(media_list()[15] == "gif"@);
        }
        else if k == 16 {
            assert(media_list()[16] == "bmp"@);
        }
        else if k == 17 {
            assert(media_list()[17] == "webp"@);
        }
        else if k == 18 {
            assert(media_list()[18] == "tiff"@);
        }
        else if k == 19 {
            assert(media_list()[19] == "svg"@);
        }
        else if k == 20 {
            assert(media_list()[20] == "srt"@);
        }
        else if k == 21 {
            assert(media_list()[21] == "sub"@);
        }
        else if k == 22 {
            assert(media_list()[22] == "ssa"@);
        }
        else if k == 23 {
            assert(media_list()[23] == "ass"@);
        }
        else if k == 24 {
            assert(media_list()[24] == "vtt"@);
        }
        else if k == 25 {
            assert(media_list()[25] == "smi"@);
        }
    }
}

/// Every extension on [`media_list`] marks a media file, whatever the case
/// of its letters: an ASCII extension that lowercases to one of them is
/// media.
pub proof fn lemma_listed_extensions_are_media(e: Seq<char>, k: int)
    requires
        0 <= k < media_list().len(),
        is_ascii_text(e),
        ascii_lowercase(e) == media_list()[k],
    ensures
        spec_is_media_extension(Some(e)),
{
    lemma_media_names_are_the_list(lowered(e));
}

/// A file with extension `ext` is a media file when the extension, in
/// lowercase, is one of [`is_media_name`].
pub open spec fn spec_is_media_extension(ext: Option<Seq<char>>) -> bool {
    match ext {
        Some(e) => is_media_name(lowered(e)),
        None => false,
    }
}

/// Whether a file with extension `ext` is a media file: one whose
/// extension lowercases to a name on [`media_list`].
pub fn is_media_extension(ext: Option<&str>) -> (res: bool)
    ensures
        res == spec_is_media_extension(option_str_text(ext)),
        res <==> ext is Some && media_list().contains(lowered(ext.unwrap()@)),
{
    proof {
        if ext is Some {
            lemma_media_names_are_the_list(lowered(ext.unwrap()@));
        }
    }
    match ext {
        None => false,
        Some(e) => {
            let lower = to_lowercase(e);
            let l = lower.as_str();
            text_equals(l, "mp4") || text_equals(l, "avi") || text_equals(l, "mov")
                || text_equals(l, "mkv") || text_equals(l, "webm") || text_equals(l, "wmv")
                || text_equals(l, "mp3") || text_equals(l, "wav") || text_equals(l, "flac")
                || text_equals(l, "aac") || text_equals(l, "ogg") || text_equals(l, "wma")
                || text_equals(l, "jpg") || text_equals(l, "jpeg") || text_equals(l, "png")
                || text_equals(l, "gif") || text_equals(l, "bmp") || text_equals(l, "webp")
                || text_equals(l, "tiff") || text_equals(l, "svg") || text_equals(l, "srt")
                || text_equals(l, "sub") || text_equals(l, "ssa") || text_equals(l, "ass")
                || text_equals(l, "vtt") || text_equals(l, "smi")
        },
    }
}

/// Whether the file at `path` is a media file, judged by its extension
/// (see [`is_media_extension`]). A path without a `.` never is; a path whose
/// file name is read alike on every target (see [`portable_final_name`]) is
/// judged by that name's extension.
pub fn is_media_file(path: &str) -> (res: bool)
    ensures
        res ==> path@.contains('.'),
        portable_final_name(path@) is Some ==> res == spec_is_media_extension(
            name_extension(portable_final_name(path@).unwrap()),
        ),
{
    is_media_extension(path_extension(path))
}

/// Two stems match when the first equals the lowercase of the second, or
/// when neither exists.
pub open spec fn stems_match(src_stem: Option<Seq<char>>, dest_stem: Option<Seq<char>>) -> bool {
    match (src_stem, dest_stem) {
        (Some(s), Some(d)) => s == lowered(d),
        (None, None) => true,
        _ => false,
    }
}

/// Two existing stems match exactly when the source stem has the length of
/// the destination stem's lowercase and the same character at every index;
/// for an ASCII destination stem, that lowercase makes each capital letter
/// small. A missing stem matches only a missing stem.
pub proof fn lemma_stems_match_exactly(s: Seq<char>, d: Seq<char>)
    ensures
        stems_match(Some(s), Some(d)) <==> s.len() == lowered(d).len() && forall|j: int|
            0 <= j < s.len() ==> s[j] == lowered(d)[j],
        is_ascii_text(d) ==> (stems_match(Some(s), Some(d)) <==> s.len() == d.len() && forall|
            j: int,
        |
            0 <= j < s.len() ==> s[j] == ascii_lower_char(d[j])),
        stems_match(None, None),
        !stems_match(Some(s), None),
        !stems_match(None, Some(d)),
{
    if s.len() == lowered(d).len() && forall|j: int| 0 <= j < s.len() ==> s[j] == lowered(d)[j] {
        assert(s =~= lowered(d));
    }
}

/// Whether `src_stem` matches (see [`stems_match`]) one of `dest_stems`.
pub fn stem_in_list(src_stem: Option<&str>, dest_stems: &Vec<Option<String>>) -> (res: bool)
    ensures
        res == exists|i: int|
            0 <= i < dest_stems@.len() && #[trigger] stems_match(
                option_str_text(src_stem),
                option_text(dest_stems@[i]),
            ),
{
    let ghost src = option_str_text(src_stem);
    let mut i: usize = 0;
    while i < dest_stems.len()
        invariant
            i <= dest_stems@.len(),
            src == option_str_text(src_stem),
            forall|j: int| 0 <= j < i ==> !#[trigger] stems_match(src, option_text(dest_stems@[j])),
        decreases dest_stems.len() - i,
    {
        let found = match (&dest_stems[i], src_stem) {
            (Some(d), Some(s)) => {
                let lower = to_lowercase(d.as_str());
                text_equals(s, lower.as_str())
            },
            (None, None) => true,
            _ => false,
        };
        if found {
            assert(stems_match(src, option_text(dest_stems@[i as int])));
            return true;
        }
        i = i + 1;
    }
    false
}

/// The stem of a path whose file name is read alike on every target (see
/// [`portable_final_name`]); none for other paths, whose stem depends on the
/// target's path rules.
pub open spec fn portable_stem(p: Seq<char>) -> Option<Seq<char>> {
    match portable_final_name(p) {
        Some(n) => Some(name_stem(n)),
        None => None,
    }
}

/// Every path in `files` has a file name read alike on every target.
pub open spec fn all_portable(files: Seq<String>) -> bool {
    forall|i: int| 0 <= i < files.len() ==> #[trigger] portable_stem(files[i]@) is Some
}

/// The stem of `src` matches (see [`stems_match`]) that of one of `files`.
pub open spec fn stem_listed(src: Seq<char>, files: Seq<String>) -> bool {
    exists|i: int|
        0 <= i < files.len() && #[trigger] stems_match(portable_stem(src), portable_stem(files[i]@))
}

/// Whether one of the files `dest_files` (the files beside the destination
/// path) has the stem of `src_path`, compared as [`stem_in_list`] does.
/// With no files there is none; when every file name is read alike on every
/// target (see [`portable_final_name`]), the stems are those names without
/// their extensions.
pub fn file_stem_exists(src_path: &str, dest_files: &Vec<String>) -> (res: bool)
    ensures
        dest_files@.len() == 0 ==> !res,
        portable_stem(src_path@) is Some && all_portable(dest_files@) ==> res == stem_listed(
            src_path@,
            dest_files@,
        ),
{
    let src_stem = path_file_stem(src_path);
    let mut dest_stems: Vec<Option<String>> = Vec::new();
    let mut i: usize = 0;
    while i < dest_files.len()
        invariant
            i <= dest_files@.len(),
            dest_stems@.len() == i,
            forall|j: int|
                0 <= j < i ==> (#[trigger] portable_stem(dest_files@[j]@) is Some ==> option_text(
                    dest_stems@[j],
                ) == portable_stem(dest_files@[j]@)),
        decreases dest_files.len() - i,
    {
        let stem = match path_file_stem(dest_files[i].as_str()) {
            Some(s) => Some(s.to_string()),
            None => None,
        };
        dest_stems.push(stem);
        i = i + 1;
    }
    let res = stem_in_list(src_stem, &dest_stems);
    proof {
        if portable_stem(src_path@) is Some && all_portable(dest_files@) {
            assert(option_str_text(src_stem) == portable_stem(src_path@));
            if res {
                let k = choose|k: int|
                    0 <= k < dest_stems@.len() && #[trigger] stems_match(
                        option_str_text(src_stem),
                        option_text(dest_stems@[k]),
                    );
                assert(portable_stem(dest_files@[k]@) is Some);
                assert(stems_match(portable_stem(src_path@), portable_stem(dest_files@[k]@)));
            } else {
                assert forall|k: int| 0 <= k < dest_files@.len() implies !#[trigger] stems_match(
                    portable_stem(src_path@),
                    portable_stem(dest_files@[k]@),
                ) by {
                    assert(portable_stem(dest_files@[k]@) is Some);
                    assert(!stems_match(option_str_text(src_stem), option_text(dest_stems@[k])));
                }
            }
        }
    }
    res
}

/// What is done with a file met while unzipping a tree.
#[derive(Clone, Copy, Debug, PartialEq, Eq, Structural)]
pub enum FileAction {
    /// A file with its stem already stands at the destination.
    SkipExisting,
    /// A `.zip` archive, extracted and its contents copied.
    ExtractZip,
    /// A `.rar` archive, extracted and its contents copied.
    ExtractRar,
    /// A media file, copied as it is.
    CopyMedia,
    /// Anything else, left alone.
    Ignore,
}

/// The action for a file whose stem is, or is not, already at the
/// destination, and whose extension is `ext`. The archive extensions are
/// matched as written; media extensions in any case.
pub open spec fn spec_file_action(stem_exists: bool, ext: Option<Seq<char>>) -> FileAction {
    if stem_exists {
        FileAction::SkipExisting
    } else if ext == Some("zip"@) {
        FileAction::ExtractZip
    } else if ext == Some("rar"@) {
        FileAction::ExtractRar
    } else if spec_is_media_extension(ext) {
        FileAction::CopyMedia
    } else {
        FileAction::Ignore
    }
}

/// A file whose stem already stands at the destination is skipped,
/// whatever its extension; otherwise a `.zip` or `.rar` archive is
/// extracted and never skipped.
pub proof fn lemma_existing_stems_are_skipped(stem_exists: bool, ext: Option<Seq<char>>)
    ensures
        stem_exists ==> spec_file_action(stem_exists, ext) == FileAction::SkipExisting,
        !stem_exists ==> spec_file_action(stem_exists, ext) != FileAction::SkipExisting,
        !stem_exists && ext == Some("zip"@) ==> spec_file_action(stem_exists, ext)
            == FileAction::ExtractZip,
        !stem_exists && ext == Some("rar"@) ==> spec_file_action(stem_exists, ext)
            == FileAction::ExtractRar,
{
    reveal_strlit("rar");
    reveal_strlit("zip");
    assert("rar"@[0] != "zip"@[0]);
}

/// The action for a file, given whether its stem is already at the
/// destination and its extension.
pub fn file_action(stem_exists: bool, ext: Option<&str>) -> (action: FileAction)
    ensures
        action == spec_file_action(stem_exists, option_str_text(ext)),
        stem_exists ==> action == FileAction::SkipExisting,
        !stem_exists && option_str_text(ext) == Some("zip"@) ==> action == FileAction::ExtractZip,
        !stem_exists && option_str_text(ext) == Some("rar"@) ==> action == FileAction::ExtractRar,
        !stem_exists && option_str_text(ext) != Some("zip"@) && option_str_text(ext) != Some(
            "rar"@,
        ) ==> (action == FileAction::CopyMedia <==> ext is Some && media_list().contains(
            lowered(ext.unwrap()@),
        )) && (action == FileAction::Ignore <==> !(ext is Some && media_list().contains(
            lowered(ext.unwrap()@),
        ))),
{
    proof {
        lemma_existing_stems_are_skipped(stem_exists, option_str_text(ext));
        if ext is Some {
            lemma_media_names_are_the_list(lowered(ext.unwrap()@));
        }
    }
    if stem_exists {
        return FileAction::SkipExisting;
    }
    match ext {
        Some(e) => {
            if text_equals(e, "zip") {
                return FileAction::ExtractZip;
            }
            if text_equals(e, "rar") {
                return FileAction::ExtractRar;
            }
        },
        None => {},
    }
    if is_media_extension(ext) {
        FileAction::CopyMedia
    } else {
        FileAction::Ignore
    }
}

/// The action for the file at `src_path`, `dest_files` being the files
/// beside its destination (see [`file_stem_exists`] and [`file_action`]).
/// When every file name is read alike on every target (see
/// [`portable_final_name`]), the action follows from those names' stems and
/// the source's extension.
pub fn classify_file(src_path: &str, dest_files: &Vec<String>) -> (action: FileAction)
    ensures
        portable_final_name(src_path@) is Some && all_portable(dest_files@) ==> action
            == spec_file_action(
            stem_listed(src_path@, dest_files@),
            name_extension(portable_final_name(src_path@).unwrap()),
        ),
        portable_final_name(src_path@) is Some && all_portable(dest_files@) && stem_listed(
            src_path@,
            dest_files@,
        ) ==> action == FileAction::SkipExisting,
{
    let stem_exists = file_stem_exists(src_path, dest_files);
    file_action(stem_exists, path_extension(src_path))
}

/// What follows one attempt at copying a file.
#[derive(Clone, Copy, Debug, PartialEq, Eq, Structural)]
pub enum CopyStep {
    /// The copy succeeded; nothing more to do.
    Copied,
    /// The copy failed and is tried again after a pause.
    RetryAfterDelay,
    /// The copy failed for the last time; its error is the result.
    GiveUp,
}

/// After attempt `attempt` (counting from 0) of `retries`: done on success,
/// another try while attempts are left, and the failure as the result on
/// the last attempt.
pub open spec fn spec_after_copy_attempt(attempt: int, retries: int, copied: bool) -> CopyStep {
    if copied {
        CopyStep::Copied
    } else if attempt + 1 < retries {
        CopyStep::RetryAfterDelay
    } else {
        CopyStep::GiveUp
    }
}

/// What follows attempt `attempt` (counting from 0) of `retries` at copying
/// a file (see [`spec_after_copy_attempt`]).
pub fn after_copy_attempt(attempt: u32, retries: u32, copied: bool) -> (step: CopyStep)
    requires
        attempt < retries,
    ensures
        step == spec_after_copy_attempt(attempt as int, retries as int, copied),
        copied ==> step == CopyStep::Copied,
        !copied && attempt + 1 < retries ==> step == CopyStep::RetryAfterDelay,
        !copied && attempt + 1 == retries ==> step == CopyStep::GiveUp,
{
    if copied {
        CopyStep::Copied
    } else if attempt < retries - 1 {
        CopyStep::RetryAfterDelay
    } else {
        CopyStep::GiveUp
    }
}

/// A run of copy attempts from attempt `attempt` on, out of `retries`,
/// `outcomes[i]` telling whether attempt `i` succeeds, each step decided by
/// [`spec_after_copy_attempt`]: the attempts made, the pauses taken between
/// them, and whether the file ends up copied.
pub open spec fn copy_run(attempt: int, retries: int, outcomes: Seq<bool>) -> (int, int, bool)
    decreases retries - attempt,
{
    if attempt < 0 || attempt >= retries {
        (0, 0, false)
    } else {
        match spec_after_copy_attempt(attempt, retries, outcomes[attempt]) {
            CopyStep::Copied => (1, 0, true),
            CopyStep::GiveUp => (1, 0, false),
            CopyStep::RetryAfterDelay => {
                let rest = copy_run(attempt + 1, retries, outcomes);
                (rest.0 + 1, rest.1 + 1, rest.2)
            },
        }
    }
}

/// The first attempt from `attempt` on, below `retries`, that succeeds.
pub open spec fn first_success(attempt: int, retries: int, outcomes: Seq<bool>) -> Option<int>
    decreases retries - attempt,
{
    if attempt < 0 || attempt >= retries {
        None
    } else if outcomes[attempt] {
        Some(attempt)
    } else {
        first_success(attempt + 1, retries, outcomes)
    }
}

proof fn lemma_copy_run_from(attempt: int, retries: int, outcomes: Seq<bool>)
    requires
        0 <= attempt <= retries,
        outcomes.len() >= retries,
    ensures
        match first_success(attempt, retries, outcomes) {
            Some(f) => copy_run(attempt, retries, outcomes) == (f - attempt + 1, f - attempt, true),
            None => copy_run(attempt, retries, outcomes) == (
                retries - attempt,
                if retries > attempt {
                    retries - attempt - 1
                } else {
                    0
                },
                false,
            ),
        },
    decreases retries - attempt,
{
    if attempt < retries && !outcomes[attempt] {
        lemma_copy_run_from(attempt + 1, retries, outcomes);
        assert(first_success(attempt, retries, outcomes) == first_success(
            attempt + 1,
            retries,
            outcomes,
        ));
        if attempt + 1 == retries {
            assert(first_success(attempt + 1, retries, outcomes) is None);
        }
    }
}

/// A copy tried up to `retries` times, each outcome decided by
/// [`after_copy_attempt`]: when an attempt succeeds, the run stops there,
/// having made one attempt more than the failures before it and paused once
/// after each failure; when none succeeds, exactly `retries` attempts are
/// made, with a pause between each two, and the file is not copied.
pub proof fn lemma_copy_run(retries: int, outcomes: Seq<bool>)
    requires
        0 <= retries <= outcomes.len(),
    ensures
        match first_success(0, retries, outcomes) {
            Some(f) => copy_run(0, retries, outcomes) == (f + 1, f, true),
            None => copy_run(0, retries, outcomes) == (
                retries,
                if retries > 0 {
                    retries - 1
                } else {
                    0
                },
                false,
            ),
        },
{
    lemma_copy_run_from(0, retries, outcomes);
}

/// An archive entry whose name ends in `/` is a directory.
pub fn zip_entry_is_dir(name: &str) -> (res: bool)
    ensures
        res == (name@.len() > 0 && name@.last() == '/'),
{
    let len = name.unicode_len();
    len > 0 && name.get_char(len - 1) == '/'
}

} // verus!
