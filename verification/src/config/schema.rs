use vstd::prelude::*;

verus! {

/// The whole configuration: where the host is and what to set up on it.
#[derive(Debug)]
pub struct Config {
    pub vps: VpsConfig,
    pub security: SecurityConfig,
    pub services: ServicesConfig,
    pub devtools: DevtoolsConfig,
}

/// How to reach the host.
#[derive(Debug)]
pub struct VpsConfig {
    pub ip: String,
    pub port: u16,
    pub user: String,
    /// `"password"` or `"key"`.
    pub auth: String,
    pub key_path: Option<String>,
    pub password: Option<String>,
}

/// Security hardening to apply.
#[derive(Debug)]
pub struct SecurityConfig {
    /// The non-root user to create, if any.
    pub create_user: Option<String>,
    pub ssh_password_auth: bool,
    pub firewall: bool,
    pub fail2ban: bool,
}

/// Services to install.
#[derive(Debug)]
pub struct ServicesConfig {
    pub docker: bool,
    pub nginx: bool,
    pub postgres: bool,
    pub redis: bool,
}

/// Development tools to install, with their versions.
#[derive(Debug)]
pub struct DevtoolsConfig {
    pub node: bool,
    pub node_version: Option<String>,
    pub python: bool,
    pub python_version: Option<String>,
    pub go: bool,
    pub go_version: Option<String>,
}

/// The SSH port used when the configuration names none.
pub fn default_port() -> (p: u16)
    ensures
        p == 22,
{
    22
}

/// The SSH user used when the configuration names none.
pub fn default_user() -> (u: String)
    ensures
        u@ == "root"@,
{
    String::from_str("root")
}

/// The value of the security switches that the configuration leaves out.
pub fn default_true() -> (b: bool)
    ensures
        b,
{
    true
}

/// A copy of an optional text.
pub fn copy_text(s: &Option<String>) -> (r: Option<String>)
    ensures
        r == *s,
{
    match s {
        Some(t) => Some(t.clone()),
        None => None,
    }
}

impl VpsConfig {
    /// A field-by-field copy.
    pub fn copy(&self) -> (c: VpsConfig)
        ensures
            c == *self,
    {
        VpsConfig {
            ip: self.ip.clone(),
            port: self.port,
            user: self.user.clone(),
            auth: self.auth.clone(),
            key_path: copy_text(&self.key_path),
            password: copy_text(&self.password),
        }
    }
}

} // verus!
