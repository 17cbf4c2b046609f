use cc_unzip_media::zipmod::zipackage::ZIPackage;
use cc_unzip_media::zipmod::zipassist::{
    check_path_roots, map_network_creds, validate_and_set_paths, validate_args, CredentialForm,
    CredentialStep,
};

fn args(list: &[&str]) -> Vec<String> {
    list.iter().map(|s| s.to_string()).collect()
}

const PATHS_MSG: &str = "One of the paths provided did not validate as an absolute path.";
const ORIENT_MSG: &str = "Argument orientation not recognized...";

#[test]
fn local_command_line() {
    let v = validate_args(&args(&["prog", "/src", "/dest"])).unwrap();
    assert_eq!(v.src.path, "/src");
    assert_eq!(v.dest.path, "/dest");
    assert!(!v.src_needs_network);
    assert!(!v.dest_needs_network);
    assert_eq!(v.src.host, "");
    assert_eq!(v.src.port, 0);
    assert_eq!(v.dest.username, "");
    assert_eq!(v.dest.password, "");
}

#[test]
fn remote_destination_command_line() {
    let v = validate_args(&args(&["prog", "/src", "-n", "/dest"])).unwrap();
    assert_eq!(v.src.path, "/src");
    assert_eq!(v.dest.path, "/dest");
    assert!(!v.src_needs_network);
    assert!(v.dest_needs_network);
}

#[test]
fn remote_source_command_line() {
    let v = validate_args(&args(&["prog", "-n", "/src", "/dest"])).unwrap();
    assert_eq!(v.src.path, "/src");
    assert_eq!(v.dest.path, "/dest");
    assert!(v.src_needs_network);
    assert!(!v.dest_needs_network);
}

#[test]
fn both_remote_command_line() {
    let v = validate_args(&args(&["prog", "-n", "/src", "-n", "/dest"])).unwrap();
    assert_eq!(v.src.path, "/src");
    assert_eq!(v.dest.path, "/dest");
    assert!(v.src_needs_network);
    assert!(v.dest_needs_network);
}

#[test]
fn unknown_flags_are_rejected() {
    for line in [
        ["prog", "x", "/src", "y", "/dest"],
        ["prog", "-n", "/src", "x", "/dest"],
        ["prog", "x", "/src", "-n", "/dest"],
        ["cc-unzip-media", "-n", "/home/user/doc/src", "-x", "/home/user/doc/dest"],
    ] {
        let e = validate_args(&args(&line)).err().unwrap();
        assert_eq!(e.message, "Flags are not recognized.");
    }
}

#[test]
fn misplaced_flags_are_rejected() {
    for line in [["prog", "-n", "-n", "/dest"], ["prog", "/src", "/x", "/dest"]] {
        let e = validate_args(&args(&line)).err().unwrap();
        assert_eq!(e.message, ORIENT_MSG);
    }
}

#[test]
fn wrong_argument_counts_are_rejected() {
    for line in [vec!["prog"], vec!["prog", "/src"], vec!["prog", "a", "b", "c", "d", "e"], vec![]] {
        let e = validate_args(&args(&line)).err().unwrap();
        assert_eq!(e.message, ORIENT_MSG);
    }
}

#[test]
fn relative_paths_are_rejected() {
    for line in [["prog", "src", "/dest"], ["prog", "/src", "dest"], ["prog", "", "/dest"]] {
        let e = validate_args(&args(&line)).err().unwrap();
        assert_eq!(e.message, PATHS_MSG);
    }
    let e = validate_args(&args(&["prog", "-n", "rel", "/dest"])).err().unwrap();
    assert_eq!(e.message, PATHS_MSG);
}

#[test]
fn paths_are_stored_before_they_are_judged() {
    let mut s = String::from("old");
    let mut d = String::new();
    let r = validate_and_set_paths(&mut s, &mut d, &"rel".to_string(), &"/d".to_string());
    assert_eq!(r.err().unwrap().message, PATHS_MSG);
    assert_eq!(s, "rel");
    assert_eq!(d, "/d");
    assert!(validate_and_set_paths(&mut s, &mut d, &"/a".to_string(), &"/b".to_string()).is_ok());
    assert_eq!((s.as_str(), d.as_str()), ("/a", "/b"));
}

#[test]
fn path_roots_verdict() {
    assert!(check_path_roots(true, true).is_ok());
    assert_eq!(check_path_roots(true, false).err().unwrap().message, PATHS_MSG);
    assert_eq!(check_path_roots(false, true).err().unwrap().message, PATHS_MSG);
    assert_eq!(check_path_roots(false, false).err().unwrap().message, PATHS_MSG);
}

#[test]
fn credentials_fill_a_package() {
    let mut pkg = ZIPackage::local("/p".to_string());
    map_network_creds(&mut pkg, args(&["host", "2022", "user", "pw"]));
    assert_eq!(pkg.path, "/p");
    assert_eq!(pkg.host, "host");
    assert_eq!(pkg.port, 2022);
    assert_eq!(pkg.username, "user");
    assert_eq!(pkg.password, "pw");
}

#[test]
fn missing_credentials_leave_fields_and_extra_ones_are_ignored() {
    let mut pkg = ZIPackage::local("/p".to_string());
    map_network_creds(&mut pkg, args(&["h", "+7"]));
    assert_eq!(pkg.host, "h");
    assert_eq!(pkg.port, 7);
    assert_eq!(pkg.username, "");
    map_network_creds(&mut pkg, args(&["h2", "8", "u", "p", "extra", "more"]));
    assert_eq!(pkg.host, "h2");
    assert_eq!(pkg.port, 8);
    assert_eq!(pkg.username, "u");
    assert_eq!(pkg.password, "p");
    map_network_creds(&mut pkg, Vec::new());
    assert_eq!(pkg.host, "h2");
}

#[test]
fn credential_form_flow() {
    let mut form = CredentialForm::new();
    assert_eq!(form.step(), CredentialStep::Host);
    assert_eq!(form.submit("  \t\n"), Err("Host must not be blank."));
    assert_eq!(form.step(), CredentialStep::Host);
    assert_eq!(form.submit("  media.local \n"), Ok(()));
    assert_eq!(form.step(), CredentialStep::Port);
    assert_eq!(form.submit("abc\n"), Err("Invalid Port Number. Please enter a valid port."));
    assert_eq!(form.submit("70000\n"), Err("Invalid Port Number. Please enter a valid port."));
    assert_eq!(form.submit("-1\n"), Err("Invalid Port Number. Please enter a valid port."));
    assert_eq!(form.step(), CredentialStep::Port);
    assert_eq!(form.submit(" 2200 \n"), Ok(()));
    assert_eq!(form.step(), CredentialStep::UserName);
    assert_eq!(form.submit("\u{3000}\n"), Err("UserName must not be blank."));
    assert_eq!(form.submit("\u{a0}bob\u{2003}\n"), Ok(()));
    assert_eq!(form.step(), CredentialStep::Password);
    assert_eq!(form.submit("  secret \n"), Ok(()));
    assert_eq!(form.step(), CredentialStep::Done);
    assert_eq!(form.inputs(), args(&["media.local", "2200", "bob", "secret"]));
}

#[test]
fn blank_port_defaults_to_22_and_blank_password_is_kept() {
    let mut form = CredentialForm::new();
    form.submit("h").unwrap();
    form.submit("   \n").unwrap();
    form.submit("u").unwrap();
    form.submit("\n").unwrap();
    let data = form.inputs();
    assert_eq!(data, args(&["h", "22", "u", ""]));
    let mut pkg = ZIPackage::local("/p".to_string());
    map_network_creds(&mut pkg, data);
    assert_eq!(pkg.port, 22);
}
