use vstd::prelude::*;

use crate::config::schema::{Config, DevtoolsConfig, SecurityConfig, ServicesConfig, VpsConfig};

verus! {

/// The answers given to the interactive wizard, as typed. The wizard asks for the key path
/// only with key authentication, for the password only with password authentication, and
/// for a tool's version only when the tool is to be installed; unasked answers are `None`.
#[derive(Debug)]
pub struct WizardAnswers {
    pub ip: String,
    pub port: u16,
    pub user: String,
    /// The chosen entry of the authentication menu: 0 is "Password", any other "SSH Key".
    pub auth_choice: usize,
    pub key_path: Option<String>,
    pub password: Option<String>,
    /// The user to create; empty to create none.
    pub create_user: String,
    pub ssh_password_auth: bool,
    pub firewall: bool,
    pub fail2ban: bool,
    pub docker: bool,
    pub nginx: bool,
    pub postgres: bool,
    pub redis: bool,
    pub node: bool,
    pub node_version: Option<String>,
    pub python: bool,
    pub python_version: Option<String>,
    pub go: bool,
    pub go_version: Option<String>,
}

/// The entries of the authentication menu.
pub fn auth_menu() -> (items: Vec<&'static str>)
    ensures
        items@.len() == 2,
        items@[0]@ == "Password"@,
        items@[1]@ == "SSH Key"@,
{
    vec!["Password", "SSH Key"]
}

/// The authentication method for an entry of the authentication menu.
pub open spec fn auth_for_choice(choice: usize) -> Seq<char> {
    if choice == 0 {
        "password"@
    } else {
        "key"@
    }
}

/// The authentication method for an entry of the authentication menu.
pub fn auth_from_choice(choice: usize) -> (auth: String)
    ensures
        auth@ == auth_for_choice(choice),
{
    if choice == 0 {
        String::from_str("password")
    } else {
        String::from_str("key")
    }
}

/// Whether the wizard asks for an SSH key path after this menu entry.
pub fn asks_key_path(choice: usize) -> (b: bool)
    ensures
        b == (auth_for_choice(choice) == "key"@),
{
    proof {
        reveal_strlit("key");
        reveal_strlit("password");
        assert("key"@.len() != "password"@.len());
    }
    choice != 0
}

/// Whether the wizard asks for a password after this menu entry.
pub fn asks_password(choice: usize) -> (b: bool)
    ensures
        b == (auth_for_choice(choice) == "password"@),
{
    proof {
        reveal_strlit("key");
        reveal_strlit("password");
        assert("key"@.len() != "password"@.len());
    }
    choice == 0
}

/// `answer` when the question was asked, else nothing.
pub open spec fn if_asked(asked: bool, answer: Option<String>) -> Option<String> {
    if asked {
        answer
    } else {
        None
    }
}

fn keep_if(asked: bool, answer: Option<String>) -> (r: Option<String>)
    ensures
        r == if_asked(asked, answer),
{
    if asked {
        answer
    } else {
        None
    }
}

impl WizardAnswers {
    /// The answers the wizard offers before anything is typed.
    pub fn defaults() -> (a: WizardAnswers)
        ensures
            a.ip@ == Seq::<char>::empty(),
            a.port == 22,
            a.user@ == "root"@,
            a.auth_choice == 0,
            a.key_path matches Some(k) && k@ == "~/.ssh/id_rsa"@,
            a.password is None,
            a.create_user@ == "deploy"@,
            !a.ssh_password_auth,
            a.firewall,
            a.fail2ban,
            a.docker,
            a.nginx,
            a.postgres,
            !a.redis,
            a.node,
            a.node_version matches Some(v) && v@ == "22"@,
            a.python,
            a.python_version matches Some(v) && v@ == "3.12"@,
            a.go,
            a.go_version matches Some(v) && v@ == "1.22.0"@,
    {
        WizardAnswers {
            ip: String::new(),
            port: 22,
            user: String::from_str("root"),
            auth_choice: 0,
            key_path: Some(String::from_str("~/.ssh/id_rsa")),
            password: None,
            create_user: String::from_str("deploy"),
            ssh_password_auth: false,
            firewall: true,
            fail2ban: true,
            docker: true,
            nginx: true,
            postgres: true,
            redis: false,
            node: true,
            node_version: Some(String::from_str("22")),
            python: true,
            python_version: Some(String::from_str("3.12")),
            go: true,
            go_version: Some(String::from_str("1.22.0")),
        }
    }
}

/// The configuration that the wizard's answers describe. The key path is kept only with key
/// authentication and the password only with password authentication; an empty user name
/// means that no user is created; a version is kept only for a tool that is installed.
pub fn config_from_answers(a: WizardAnswers) -> (c: Config)
    ensures
        c.vps.ip == a.ip,
        c.vps.port == a.port,
        c.vps.user == a.user,
        c.vps.auth@ == auth_for_choice(a.auth_choice),
        c.vps.key_path == if_asked(auth_for_choice(a.auth_choice) == "key"@, a.key_path),
        c.vps.password == if_asked(auth_for_choice(a.auth_choice) == "password"@, a.password),
        c.security.create_user == (if a.create_user@.len() == 0 {
            None
        } else {
            Some(a.create_user)
        }),
        c.security.ssh_password_auth == a.ssh_password_auth,
        c.security.firewall == a.firewall,
        c.security.fail2ban == a.fail2ban,
        c.services.docker == a.docker,
        c.services.nginx == a.nginx,
        c.services.postgres == a.postgres,
        c.services.redis == a.redis,
        c.devtools.node == a.node,
        c.devtools.node_version == if_asked(a.node, a.node_version),
        c.devtools.python == a.python,
        c.devtools.python_version == if_asked(a.python, a.python_version),
        c.devtools.go == a.go,
        c.devtools.go_version == if_asked(a.go, a.go_version),
{
    let auth = auth_from_choice(a.auth_choice);
    let key_path = keep_if(asks_key_path(a.auth_choice), a.key_path);
    let password = keep_if(asks_password(a.auth_choice), a.password);
    let create_user = if a.create_user.as_str().is_empty() {
        None
    } else {
        Some(a.create_user)
    };
    Config {
        vps: VpsConfig { ip: a.ip, port: a.port, user: a.user, auth, key_path, password },
        security: SecurityConfig {
            create_user,
            ssh_password_auth: a.ssh_password_auth,
            firewall: a.firewall,
            fail2ban: a.fail2ban,
        },
        services: ServicesConfig {
            docker: a.docker,
            nginx: a.nginx,
            postgres: a.postgres,
            redis: a.redis,
        },
        devtools: DevtoolsConfig {
            node: a.node,
            node_version: keep_if(a.node, a.node_version),
            python: a.python,
            python_version: keep_if(a.python, a.python_version),
            go: a.go,
            go_version: keep_if(a.go, a.go_version),
        },
    }
}

} // verus!
