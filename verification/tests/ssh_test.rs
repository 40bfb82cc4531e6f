use vps_config::config::schema::VpsConfig;
use vps_config::ssh::client::{
    call_result, query_result, AuthPlan, CallError, ConnectError, SshClient, Transcript,
};
use vps_config::ssh::executor::{escape_single_quotes, prepare};

#[test]
fn test_ssh_client_creation() {
    let config = VpsConfig {
        ip: "127.0.0.1".to_string(),
        port: 22,
        user: "root".to_string(),
        auth: "key".to_string(),
        key_path: Some("~/.ssh/id_rsa".to_string()),
        password: None,
    };
    let client = SshClient::new(&config);
    assert!(client.is_ok());
}

#[test]
fn test_ssh_client_stores_config() {
    let config = VpsConfig {
        ip: "192.168.1.100".to_string(),
        port: 2222,
        user: "deploy".to_string(),
        auth: "key".to_string(),
        key_path: Some("~/.ssh/deploy_key".to_string()),
        password: None,
    };
    let client = SshClient::new(&config).unwrap();
    let retrieved = client.config();
    assert_eq!(retrieved.ip, "192.168.1.100");
    assert_eq!(retrieved.port, 2222);
    assert_eq!(retrieved.user, "deploy");
}

fn config_with_key(key_path: Option<&str>) -> VpsConfig {
    VpsConfig {
        ip: "10.0.0.1".to_string(),
        port: 22,
        user: "root".to_string(),
        auth: "key".to_string(),
        key_path: key_path.map(|k| k.to_string()),
        password: None,
    }
}

#[test]
fn key_path_is_required() {
    let client = SshClient::new(&config_with_key(None)).unwrap();
    assert!(matches!(client.key_path(), Err(ConnectError::KeyPathRequired)));
    assert_eq!(ConnectError::KeyPathRequired.message(), "SSH key path required");
}

#[test]
fn key_path_without_tilde_is_kept() {
    let client = SshClient::new(&config_with_key(Some("/keys/id_ed25519"))).unwrap();
    assert_eq!(client.key_path().unwrap(), "/keys/id_ed25519");
}

#[test]
fn key_path_tilde_is_expanded() {
    let client = SshClient::new(&config_with_key(Some("~/.ssh/id_rsa"))).unwrap();
    let path = client.key_path().unwrap();
    assert!(path.ends_with("/.ssh/id_rsa"));
    assert!(!path.starts_with('~'));
}

#[test]
fn key_path_of_other_user_is_kept() {
    let client = SshClient::new(&config_with_key(Some("~alice/.ssh/id_rsa"))).unwrap();
    assert_eq!(client.key_path().unwrap(), "~alice/.ssh/id_rsa");
}

#[test]
fn call_result_needs_status_zero() {
    assert_eq!(call_result("ok\n".to_string(), Some(0)).unwrap(), "ok\n");
    match call_result("boom".to_string(), Some(2)) {
        Err(e @ CallError::Failed(2, _)) => assert_eq!(e.message(), "Command failed (exit 2): boom"),
        _ => panic!("expected a failure"),
    }
    let e = call_result("x".to_string(), None).unwrap_err();
    assert!(matches!(e, CallError::NoExitStatus));
    assert_eq!(e.message(), "Channel did not exit cleanly");
}

#[test]
fn query_result_keeps_status() {
    assert_eq!(query_result("out".to_string(), Some(1)).unwrap(), ("out".to_string(), 1));
    assert_eq!(query_result(String::new(), Some(4294967295)).unwrap().1, -1);
    assert!(query_result(String::new(), None).is_err());
}

#[test]
fn transcript_collects_output() {
    let mut t = Transcript::new();
    t.record_data("hello ");
    t.record_exit_status(3);
    t.record_data("world");
    t.record_exit_status(0);
    assert_eq!(t.output, "hello world");
    assert_eq!(t.exit_status, Some(0));
}

#[test]
fn escape_replaces_single_quotes() {
    assert_eq!(escape_single_quotes("plain"), "plain");
    assert_eq!(escape_single_quotes("it's"), "it'\\''s");
    assert_eq!(escape_single_quotes("''"), "'\\'''\\''");
    assert_eq!(escape_single_quotes(""), "");
}

#[test]
fn prepare_feeds_sudo_password() {
    assert_eq!(prepare(Some("pw"), "sudo apt-get update"), "echo 'pw' | sudo -S apt-get update");
    assert_eq!(prepare(Some("p'w"), "  sudo sudo ls"), "echo 'p'\\''w' | sudo -S ls");
}

#[test]
fn prepare_leaves_other_commands() {
    assert_eq!(prepare(None, "sudo ls"), "sudo ls");
    assert_eq!(prepare(Some("pw"), "ls -la"), "ls -la");
    assert_eq!(prepare(Some("pw"), "sudoedit x"), "sudoedit x");
    assert_eq!(prepare(Some("pw"), "sudo"), "sudo");
}

fn config_with(auth: &str, key_path: Option<&str>, password: Option<&str>) -> VpsConfig {
    VpsConfig {
        ip: "10.0.0.2".to_string(),
        port: 22,
        user: "root".to_string(),
        auth: auth.to_string(),
        key_path: key_path.map(|k| k.to_string()),
        password: password.map(|p| p.to_string()),
    }
}

#[test]
fn auth_plan_password() {
    let client = SshClient::new(&config_with("password", None, Some("hunter2"))).unwrap();
    assert!(matches!(client.auth_plan(), Ok(AuthPlan::Password(p)) if p == "hunter2"));
    let client = SshClient::new(&config_with("password", Some("/k"), None)).unwrap();
    let e = client.auth_plan().unwrap_err();
    assert!(matches!(e, ConnectError::PasswordRequired));
    assert_eq!(e.message(), "SSH password required");
}

#[test]
fn auth_plan_key() {
    let client = SshClient::new(&config_with("key", Some("/keys/id"), Some("pw"))).unwrap();
    assert!(matches!(client.auth_plan(), Ok(AuthPlan::Key(p)) if p == "/keys/id"));
    let client = SshClient::new(&config_with("key", None, Some("pw"))).unwrap();
    assert!(matches!(client.auth_plan(), Err(ConnectError::KeyPathRequired)));
}

#[test]
fn auth_plan_unknown_method() {
    let client = SshClient::new(&config_with("kerberos", None, None)).unwrap();
    let e = client.auth_plan().unwrap_err();
    assert!(matches!(&e, ConnectError::UnsupportedAuth(a) if a == "kerberos"));
    assert_eq!(e.message(), "Unsupported auth method: kerberos");
}
