use vps_config::cli::args::{xdg_config_file, Args};
use vps_config::cli::prompts::{
    asks_key_path, asks_password, auth_from_choice, auth_menu, config_from_answers, WizardAnswers,
};
use vps_config::config::schema::{default_port, default_true, default_user};
use vps_config::text::{decimal_text, trimmed, contains_text};

#[test]
fn schema_defaults() {
    assert_eq!(default_port(), 22);
    assert_eq!(default_user(), "root");
    assert!(default_true());
}

#[test]
fn args_config_path() {
    let args = Args { config: None, ip: None, port: 22, user: "root".to_string() };
    assert_eq!(args.config_path(), "config.toml");
    let args = Args { config: Some("/etc/vps.toml".to_string()), ip: None, port: 22, user: "root".to_string() };
    assert_eq!(args.config_path(), "/etc/vps.toml");
}

#[test]
fn wizard_defaults() {
    let a = WizardAnswers::defaults();
    assert_eq!(a.port, 22);
    assert_eq!(a.user, "root");
    assert_eq!(a.key_path.as_deref(), Some("~/.ssh/id_rsa"));
    assert_eq!(a.create_user, "deploy");
    assert!(!a.ssh_password_auth && a.firewall && a.fail2ban);
    assert!(a.docker && a.nginx && a.postgres && !a.redis);
    assert_eq!(a.node_version.as_deref(), Some("22"));
    assert_eq!(a.python_version.as_deref(), Some("3.12"));
    assert_eq!(a.go_version.as_deref(), Some("1.22.0"));
    assert_eq!(auth_menu(), vec!["Password", "SSH Key"]);
}

#[test]
fn wizard_auth_choice() {
    assert_eq!(auth_from_choice(0), "password");
    assert_eq!(auth_from_choice(1), "key");
    assert!(asks_password(0) && !asks_key_path(0));
    assert!(asks_key_path(1) && !asks_password(1));
}

#[test]
fn wizard_answers_to_config() {
    let mut a = WizardAnswers::defaults();
    a.ip = "1.2.3.4".to_string();
    a.auth_choice = 1;
    a.password = Some("ignored".to_string());
    a.create_user = String::new();
    a.node = false;
    let c = config_from_answers(a);
    assert_eq!(c.vps.ip, "1.2.3.4");
    assert_eq!(c.vps.auth, "key");
    assert_eq!(c.vps.key_path.as_deref(), Some("~/.ssh/id_rsa"));
    assert!(c.vps.password.is_none());
    assert!(c.security.create_user.is_none());
    assert!(!c.devtools.node && c.devtools.node_version.is_none());
    assert_eq!(c.devtools.python_version.as_deref(), Some("3.12"));
    assert!(c.services.docker && !c.services.redis);
}

#[test]
fn wizard_password_auth_drops_key_path() {
    let mut a = WizardAnswers::defaults();
    a.password = Some("hunter2".to_string());
    let c = config_from_answers(a);
    assert_eq!(c.vps.auth, "password");
    assert!(c.vps.key_path.is_none());
    assert_eq!(c.vps.password.as_deref(), Some("hunter2"));
    assert_eq!(c.security.create_user.as_deref(), Some("deploy"));
}

#[test]
fn text_helpers() {
    assert_eq!(decimal_text(0), "0");
    assert_eq!(decimal_text(65535), "65535");
    assert_eq!(decimal_text(u64::MAX), "18446744073709551615");
    assert_eq!(trimmed("  x86_64\n"), "x86_64");
    assert_eq!(trimmed("\u{3000}a b\t"), "a b");
    assert!(contains_text("golang go", "go"));
    assert!(!contains_text("g o", "go"));
    assert!(contains_text("", ""));
}

#[test]
fn xdg_config_location() {
    assert_eq!(
        xdg_config_file(Some("/home/a/.cfg".to_string()), Some("/home/a".to_string())).as_deref(),
        Some("/home/a/.cfg/vps-config/config.toml")
    );
    assert_eq!(
        xdg_config_file(Some(String::new()), Some("/home/a".to_string())).as_deref(),
        Some("/home/a/.config/vps-config/config.toml")
    );
    assert_eq!(xdg_config_file(None, None), None);
    let args = Args { config: None, ip: None, port: 22, user: "root".to_string() };
    assert_eq!(args.config_path_with(Some("/x/vps-config/config.toml".to_string())), "/x/vps-config/config.toml");
    assert_eq!(args.config_path_with(None), "config.toml");
    let args = Args { config: Some("mine.toml".to_string()), ip: None, port: 22, user: "root".to_string() };
    assert_eq!(args.config_path_with(Some("/x/vps-config/config.toml".to_string())), "mine.toml");
}
