use cc_unzip_media::zipmod::zipackage::ZIPackage;
use cc_unzip_media::zipmod::ziperror::ZIPError;

#[test]
fn error_keeps_its_message() {
    let e = ZIPError::new("Something broke");
    assert_eq!(e.message, "Something broke");
    assert_eq!(ZIPError::new("").message, "");
}

#[test]
fn local_package_has_no_credentials() {
    let pkg = ZIPackage::local("/srv/media".to_string());
    assert_eq!(pkg.path, "/srv/media");
    assert_eq!(pkg.host, "");
    assert_eq!(pkg.port, 0);
    assert_eq!(pkg.username, "");
    assert_eq!(pkg.password, "");
}
