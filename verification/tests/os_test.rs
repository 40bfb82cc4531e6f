use vps_config::os::apt::AptManager;
use vps_config::os::detect::{parse_os_release, Distro, OsReleaseError};
use vps_config::os::dnf::DnfManager;
use vps_config::os::PackageManager;

#[test]
fn test_parse_ubuntu() {
    let content = r#"NAME="Ubuntu"
VERSION="22.04.3 LTS (Jammy Jellyfish)"
ID=ubuntu
ID_LIKE=debian"#;
    let distro = parse_os_release(content).unwrap();
    assert_eq!(distro, Distro::Ubuntu);
}

#[test]
fn test_parse_fedora() {
    let content = r#"NAME="Fedora Linux"
VERSION="39 (Workstation Edition)"
ID=fedora"#;
    let distro = parse_os_release(content).unwrap();
    assert_eq!(distro, Distro::Fedora);
}

#[test]
fn test_parse_debian() {
    let content = r#"NAME="Debian GNU/Linux"
VERSION="12 (bookworm)"
ID=debian"#;
    let distro = parse_os_release(content).unwrap();
    assert_eq!(distro, Distro::Debian);
}

#[test]
fn test_parse_rhel() {
    let content = r#"NAME="Red Hat Enterprise Linux"
VERSION="9.2 (Plow)"
ID=rhel"#;
    let distro = parse_os_release(content).unwrap();
    assert_eq!(distro, Distro::RHEL);
}

#[test]
fn test_parse_centos_mapped_to_rhel() {
    let content = r#"NAME="CentOS Linux"
VERSION="7 (Core)"
ID=centos"#;
    let distro = parse_os_release(content).unwrap();
    assert_eq!(distro, Distro::RHEL);
}

#[test]
fn test_parse_rocky_mapped_to_rhel() {
    let content = r#"NAME="Rocky Linux"
VERSION="9.3 (Blue Onyx)"
ID=rocky"#;
    let distro = parse_os_release(content).unwrap();
    assert_eq!(distro, Distro::RHEL);
}

#[test]
fn test_parse_unsupported_distro() {
    let content = r#"NAME="Alpine Linux"
VERSION="3.18.0"
ID=alpine"#;
    let result = parse_os_release(content);
    assert!(result.is_err());
}

#[test]
fn test_parse_missing_id() {
    let content = r#"NAME="Unknown Linux"
VERSION="1.0"#;
    let result = parse_os_release(content);
    assert!(result.is_err());
}

#[test]
fn parse_almalinux_is_rhel() {
    assert_eq!(parse_os_release("ID=almalinux\n").unwrap(), Distro::RHEL);
}

#[test]
fn parse_strips_quotes_around_id() {
    assert_eq!(parse_os_release("NAME=x\nID=\"ubuntu\"\n").unwrap(), Distro::Ubuntu);
    assert_eq!(parse_os_release("ID=\"\"fedora\"\"").unwrap(), Distro::Fedora);
}

#[test]
fn parse_handles_crlf_line_ends() {
    assert_eq!(parse_os_release("NAME=Debian\r\nID=debian\r\n").unwrap(), Distro::Debian);
}

#[test]
fn parse_keeps_carriage_return_on_last_line() {
    // str::lines keeps a '\r' that no '\n' follows, so the ID is "debian\r"
    match parse_os_release("ID=debian\r") {
        Err(OsReleaseError::UnsupportedDistro(id)) => assert_eq!(id, "debian\r"),
        other => panic!("unexpected result: {:?}", other),
    }
}

#[test]
fn parse_last_id_line_wins() {
    assert_eq!(parse_os_release("ID=debian\nID=fedora\n").unwrap(), Distro::Fedora);
}

#[test]
fn parse_ignores_id_like() {
    assert_eq!(parse_os_release("ID_LIKE=debian\nID=rhel").unwrap(), Distro::RHEL);
    assert!(matches!(parse_os_release("ID_LIKE=debian"), Err(OsReleaseError::MissingId)));
}

#[test]
fn parse_reports_unsupported_id() {
    match parse_os_release("ID=alpine") {
        Err(OsReleaseError::UnsupportedDistro(id)) => assert_eq!(id, "alpine"),
        other => panic!("unexpected result: {:?}", other),
    }
    assert!(matches!(parse_os_release(""), Err(OsReleaseError::MissingId)));
    assert!(matches!(parse_os_release(" ID=ubuntu"), Err(OsReleaseError::MissingId)));
}

#[test]
fn os_release_error_messages() {
    assert_eq!(OsReleaseError::MissingId.message(), "Could not find ID in os-release");
    assert_eq!(
        OsReleaseError::UnsupportedDistro("alpine".to_string()).message(),
        "Unsupported distro: alpine"
    );
}

#[test]
fn apt_commands() {
    let apt = AptManager::new();
    assert_eq!(apt.update().unwrap(), "apt-get update -qq");
    assert_eq!(
        apt.install(&["nginx", "curl"]).unwrap(),
        "DEBIAN_FRONTEND=noninteractive apt-get install -y -qq nginx curl"
    );
    assert_eq!(
        apt.install(&[]).unwrap(),
        "DEBIAN_FRONTEND=noninteractive apt-get install -y -qq "
    );
    assert_eq!(apt.is_installed("docker").unwrap(), "dpkg -l docker 2>/dev/null | grep -q ii");
    assert!(apt.is_installed_status(0));
    assert!(!apt.is_installed_status(1));
    assert_eq!(apt.enable_service("nginx").unwrap(), "systemctl enable nginx");
    assert_eq!(apt.start_service("redis").unwrap(), "systemctl start redis");
}

#[test]
fn dnf_does_nothing() {
    let dnf = DnfManager;
    assert!(dnf.update().is_none());
    assert!(dnf.install(&["nginx"]).is_none());
    assert!(dnf.is_installed("nginx").is_none());
    assert!(!dnf.is_installed_status(0));
    assert!(dnf.enable_service("nginx").is_none());
    assert!(dnf.start_service("nginx").is_none());
}

#[test]
fn quoted_and_plain_id_agree() {
    let pre = "NAME=\"Rocky Linux\"\nVERSION=9\n";
    let plain = format!("{}ID=rocky", pre);
    let quoted = format!("{}ID=\"rocky\"", pre);
    assert_eq!(parse_os_release(&plain).unwrap(), parse_os_release(&quoted).unwrap());
    assert_eq!(parse_os_release(&quoted).unwrap(), Distro::RHEL);
}

#[test]
fn quoting_an_id_line_in_the_middle_agrees() {
    let plain = "NAME=Fedora\nID=fedora\nVERSION_ID=40\n";
    let quoted = "NAME=Fedora\nID=\"fedora\"\nVERSION_ID=40\n";
    assert_eq!(parse_os_release(plain).unwrap(), Distro::Fedora);
    assert_eq!(parse_os_release(quoted).unwrap(), Distro::Fedora);
    let plain_other = "ID=arch\nBUILD_ID=rolling\n";
    let quoted_other = "ID=\"arch\"\nBUILD_ID=rolling\n";
    assert_eq!(
        parse_os_release(plain_other).unwrap_err().message(),
        parse_os_release(quoted_other).unwrap_err().message()
    );
}

#[test]
fn quoting_an_id_line_with_crlf_endings_agrees() {
    let plain = "NAME=Ubuntu\r\nID=ubuntu\r\nVERSION_ID=24.04\r\n";
    let quoted = "NAME=Ubuntu\r\nID=\"ubuntu\"\r\nVERSION_ID=24.04\r\n";
    assert_eq!(parse_os_release(plain).unwrap(), Distro::Ubuntu);
    assert_eq!(parse_os_release(quoted).unwrap(), Distro::Ubuntu);
}
