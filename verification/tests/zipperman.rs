use cc_unzip_media::zipmod::zipackage::ZIPackage;
use cc_unzip_media::zipmod::zipassist::{map_network_creds, validate_args, CredentialForm};
use cc_unzip_media::zipmod::zipperman::{
    after_copy_attempt, classify_file, determine_locality_and_unzip, file_action,
    file_stem_exists, is_media_extension, is_media_file, stem_in_list, zip_entry_is_dir, CopyStep,
    FileAction, UnzipRoute,
};

fn with_host(host: &str) -> ZIPackage {
    let mut pkg = ZIPackage::local("/p".to_string());
    pkg.host = host.to_string();
    pkg
}

fn strings(list: &[&str]) -> Vec<String> {
    list.iter().map(|s| s.to_string()).collect()
}

#[test]
fn route_is_local_without_hosts() {
    assert_eq!(determine_locality_and_unzip(&with_host(""), &with_host("")), UnzipRoute::Local);
    assert_eq!(determine_locality_and_unzip(&with_host(" \t"), &with_host("\n")), UnzipRoute::Local);
    assert_eq!(determine_locality_and_unzip(&with_host("h"), &with_host("")), UnzipRoute::Network);
    assert_eq!(determine_locality_and_unzip(&with_host(""), &with_host(" h ")), UnzipRoute::Network);
}

#[test]
fn law_route_follows_network_flags() {
    for (line, expected) in [
        (vec!["prog", "/a", "/b"], UnzipRoute::Local),
        (vec!["prog", "-n", "/a", "/b"], UnzipRoute::Network),
        (vec!["prog", "/a", "-n", "/b"], UnzipRoute::Network),
        (vec!["prog", "-n", "/a", "-n", "/b"], UnzipRoute::Network),
    ] {
        let mut v = validate_args(&strings(&line)).unwrap();
        for (needs, pkg) in [(v.src_needs_network, &mut v.src), (v.dest_needs_network, &mut v.dest)] {
            if needs {
                let mut form = CredentialForm::new();
                for entry in [" remote ", "", "me", "pw"] {
                    form.submit(entry).unwrap();
                }
                map_network_creds(pkg, form.inputs());
            }
        }
        assert_eq!(determine_locality_and_unzip(&v.src, &v.dest), expected);
    }
}

#[test]
fn media_extensions_in_any_case() {
    for ext in ["mp4", "MKV", "Jpeg", "srt", "SMI", "webm", "flac", "svg"] {
        assert!(is_media_extension(Some(ext)), "{}", ext);
    }
    for ext in ["txt", "zip", "rar", "mp", "", "mp4 "] {
        assert!(!is_media_extension(Some(ext)), "{}", ext);
    }
    assert!(!is_media_extension(None));
}

#[test]
fn media_files_by_path() {
    assert!(is_media_file("/films/Movie.MP4"));
    assert!(is_media_file("song.mp3"));
    assert!(!is_media_file("/films/readme.txt"));
    assert!(!is_media_file("/films/mp4"));
    assert!(!is_media_file("/films/.mp4"));
    assert!(!is_media_file(""));
}

#[test]
fn stems_compare_against_lowercased_destination_stems() {
    assert!(stem_in_list(Some("movie"), &vec![Some("MOVIE".to_string())]));
    assert!(!stem_in_list(Some("Movie"), &vec![Some("movie".to_string())]));
    assert!(!stem_in_list(Some("movie"), &vec![None, Some("other".to_string())]));
    assert!(stem_in_list(None, &vec![Some("x".to_string()), None]));
    assert!(!stem_in_list(None, &vec![Some("x".to_string())]));
    assert!(!stem_in_list(Some("x"), &vec![]));
}

#[test]
fn existing_stems_are_found() {
    let beside = strings(&["/dest/Movie.srt", "/dest/notes.txt"]);
    assert!(file_stem_exists("/src/movie.mkv", &beside));
    assert!(!file_stem_exists("/src/Movie.mkv", &beside));
    assert!(file_stem_exists("/src/notes.mp4", &beside));
    assert!(!file_stem_exists("/src/other.mp4", &beside));
    assert!(!file_stem_exists("/src/movie.mkv", &Vec::new()));
}

#[test]
fn file_actions() {
    assert_eq!(file_action(true, Some("zip")), FileAction::SkipExisting);
    assert_eq!(file_action(false, Some("zip")), FileAction::ExtractZip);
    assert_eq!(file_action(false, Some("rar")), FileAction::ExtractRar);
    assert_eq!(file_action(false, Some("ZIP")), FileAction::Ignore);
    assert_eq!(file_action(false, Some("AVI")), FileAction::CopyMedia);
    assert_eq!(file_action(false, Some("doc")), FileAction::Ignore);
    assert_eq!(file_action(false, None), FileAction::Ignore);
}

#[test]
fn files_are_classified() {
    let none: Vec<String> = Vec::new();
    assert_eq!(classify_file("/src/a.zip", &none), FileAction::ExtractZip);
    assert_eq!(classify_file("/src/a.rar", &none), FileAction::ExtractRar);
    assert_eq!(classify_file("/src/a.Mp3", &none), FileAction::CopyMedia);
    assert_eq!(classify_file("/src/a.txt", &none), FileAction::Ignore);
    assert_eq!(classify_file("/src/a", &none), FileAction::Ignore);
    let beside = strings(&["/dest/a.srt"]);
    assert_eq!(classify_file("/src/a.zip", &beside), FileAction::SkipExisting);
}

#[test]
fn copy_retries() {
    assert_eq!(after_copy_attempt(0, 3, true), CopyStep::Copied);
    assert_eq!(after_copy_attempt(0, 3, false), CopyStep::RetryAfterDelay);
    assert_eq!(after_copy_attempt(1, 3, false), CopyStep::RetryAfterDelay);
    assert_eq!(after_copy_attempt(2, 3, false), CopyStep::GiveUp);
    assert_eq!(after_copy_attempt(2, 3, true), CopyStep::Copied);
    assert_eq!(after_copy_attempt(0, 1, false), CopyStep::GiveUp);
}

#[test]
fn law_copy_gives_up_after_the_last_attempt() {
    for retries in 1..6u32 {
        let mut attempts = 0;
        for attempt in 0..retries {
            attempts += 1;
            if after_copy_attempt(attempt, retries, false) == CopyStep::GiveUp {
                break;
            }
        }
        assert_eq!(attempts, retries);
    }
}

#[test]
fn zip_directories_end_in_slash() {
    assert!(zip_entry_is_dir("photos/"));
    assert!(zip_entry_is_dir("/"));
    assert!(!zip_entry_is_dir("photos/a.jpg"));
    assert!(!zip_entry_is_dir(""));
}

#[test]
fn law_paths_with_simple_last_names() {
    assert!(is_media_file("/home/user/doc/src/Clip.MOV"));
    assert!(!is_media_file("/home/user/doc/src/clip.doc"));
    let beside = strings(&["/dest/Clip.srt"]);
    assert_eq!(classify_file("/src/clip.mov", &beside), FileAction::SkipExisting);
    assert_eq!(classify_file("/src/Clip.mov", &beside), FileAction::CopyMedia);
}

#[test]
fn ordinary_file_names() {
    assert!(is_media_file("/films/My Movie.mkv"));
    assert!(is_media_file("/films/show-01.SRT"));
    assert!(is_media_file("/films/a.b.mkv"));
    assert!(!is_media_file("/films/.mkv"));
    assert!(!is_media_file("/films/movie.mkv."));
    assert!(file_stem_exists("/src/my movie.mkv", &strings(&["/dest/My Movie.srt"])));
    assert!(file_stem_exists("/src/a.b.mkv", &strings(&["/dest/A.B.srt"])));
    assert!(!file_stem_exists("/src/a.b.mkv", &strings(&["/dest/a.srt"])));
    assert_eq!(classify_file("/src/show-01.Mp4", &Vec::new()), FileAction::CopyMedia);
    assert_eq!(classify_file("/src/pack.v2.zip", &Vec::new()), FileAction::ExtractZip);
    assert_eq!(
        classify_file("/src/show-01.Mp4", &strings(&["/dest/show-01.nfo"])),
        FileAction::SkipExisting
    );
}
