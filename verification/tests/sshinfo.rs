use cc_unzip_media::utils::sshinfo::SSHInfo;

#[test]
fn parses_user_host_and_port() {
    let info = SSHInfo::parse_ssh_info("alice@media.local:2222").unwrap();
    assert_eq!(info.username(), Some("alice".to_string()));
    assert_eq!(info.host(), "media.local");
    assert_eq!(info.port(), 2222);
    assert_eq!(info.password(), None);
}

#[test]
fn bare_host_uses_default_port() {
    let info = SSHInfo::parse_ssh_info("media.local").unwrap();
    assert_eq!(info.username(), None);
    assert_eq!(info.host(), "media.local");
    assert_eq!(info.port(), 22);
    assert_eq!(info.password(), None);
}

#[test]
fn host_and_port_without_user() {
    let info = SSHInfo::parse_ssh_info("10.0.0.5:8022").unwrap();
    assert_eq!(info.username(), None);
    assert_eq!(info.host(), "10.0.0.5");
    assert_eq!(info.port(), 8022);
}

#[test]
fn user_is_everything_before_the_first_at() {
    let info = SSHInfo::parse_ssh_info("a:b@c@d").unwrap();
    assert_eq!(info.username(), Some("a:b".to_string()));
    assert_eq!(info.host(), "c@d");
    assert_eq!(info.port(), 22);
}

#[test]
fn empty_user_and_host_are_kept() {
    let info = SSHInfo::parse_ssh_info("@").unwrap();
    assert_eq!(info.username(), Some(String::new()));
    assert_eq!(info.host(), "");
    assert_eq!(info.port(), 22);
}

#[test]
fn signed_ports_are_read_as_i32() {
    assert_eq!(SSHInfo::parse_ssh_info("h:+22").unwrap().port(), 22);
    assert_eq!(SSHInfo::parse_ssh_info("h:-1").unwrap().port(), -1);
    assert_eq!(SSHInfo::parse_ssh_info("h:2147483647").unwrap().port(), 2147483647);
    assert_eq!(SSHInfo::parse_ssh_info("h:-2147483648").unwrap().port(), -2147483648);
}

#[test]
fn invalid_ports_are_rejected() {
    for target in [
        "h:",
        "h:abc",
        "h:22 ",
        "h: 22",
        "h:1:2",
        "u@h:2147483648",
        "h:-",
        "h:+",
        "h:٣",
    ] {
        assert_eq!(SSHInfo::parse_ssh_info(target).unwrap_err(), "Invalid port", "{}", target);
    }
}

#[test]
fn law_parts_are_given_back() {
    for (user, host, port) in [("bob", "box", "7"), ("", "h.example", "0"), ("x-y", "[::1]", "65535")] {
        let target = format!("{}@{}:{}", user, host, port);
        if host.contains(':') {
            assert!(SSHInfo::parse_ssh_info(&target).is_err());
            continue;
        }
        let info = SSHInfo::parse_ssh_info(&target).unwrap();
        assert_eq!(info.username(), Some(user.to_string()));
        assert_eq!(info.host(), host);
        assert_eq!(info.port(), port.parse::<i32>().unwrap());
        assert_eq!(info.password(), None);
    }
}
