use vstd::prelude::*;

use crate::config::schema::VpsConfig;
use crate::text::{decimal, decimal_text};

verus! {

/// Why a connection could not be set up before any network traffic.
#[derive(Debug)]
pub enum ConnectError {
    /// Key authentication needs a key file, and the configuration names none.
    KeyPathRequired,
    /// Password authentication needs a password, and the configuration names none.
    PasswordRequired,
    /// The configuration asks for an authentication method other than `key` and `password`.
    UnsupportedAuth(String),
}

impl ConnectError {
    /// The message shown for the error.
    pub fn message(&self) -> (m: String)
        ensures
            m@ == match self {
                ConnectError::KeyPathRequired => "SSH key path required"@,
                ConnectError::PasswordRequired => "SSH password required"@,
                ConnectError::UnsupportedAuth(a) => "Unsupported auth method: "@ + a@,
            },
    {
        match self {
            ConnectError::KeyPathRequired => String::from_str("SSH key path required"),
            ConnectError::PasswordRequired => String::from_str("SSH password required"),
            ConnectError::UnsupportedAuth(a) => {
                let mut m = String::from_str("Unsupported auth method: ");
                m.append(a.as_str());
                m
            },
        }
    }
}

/// How to log in to the host.
#[derive(Debug)]
pub enum AuthPlan {
    /// With the private key in this file.
    Key(String),
    /// With this password.
    Password(String),
}

/// What `path` may come back as from `~` expansion, whatever the home directory is.
pub open spec fn tilde_outcome(path: Seq<char>, r: Seq<char>) -> bool {
    &&& !starts_with_tilde(path) ==> r == path
    &&& starts_with_tilde(path) && path.len() > 1 && path[1] != '/' && path[1] != '\\' ==> r
        == path
    &&& r == path || (r.len() >= path.len() - 1 && r.subrange(
        r.len() - (path.len() - 1),
        r.len() as int,
    ) == path.drop_first())
}

/// Why a remote command did not give a usable result.
#[derive(Debug)]
pub enum CallError {
    /// The channel closed without reporting an exit status.
    NoExitStatus,
    /// The command exited with a nonzero status; its output.
    Failed(u32, String),
}

impl CallError {
    /// The message shown for the error.
    pub fn message(&self) -> (m: String)
        ensures
            m@ == match self {
                CallError::NoExitStatus => "Channel did not exit cleanly"@,
                CallError::Failed(status, output) => "Command failed (exit "@ + decimal(
                    *status as nat,
                ) + "): "@ + output@,
            },
    {
        match self {
            CallError::NoExitStatus => String::from_str("Channel did not exit cleanly"),
            CallError::Failed(status, output) => {
                let mut m = String::from_str("Command failed (exit ");
                let digits = decimal_text(*status as u64);
                m.append(digits.as_str());
                m.append("): ");
                m.append(output.as_str());
                m
            },
        }
    }
}

/// The result of a command that must succeed: its output when it exited with status 0.
pub fn call_result(output: String, exit_status: Option<u32>) -> (r: Result<String, CallError>)
    ensures
        match exit_status {
            None => r matches Err(CallError::NoExitStatus),
            Some(0) => r == Ok::<String, CallError>(output),
            Some(s) => r == Err::<String, CallError>(CallError::Failed(s, output)),
        },
{
    match exit_status {
        None => Err(CallError::NoExitStatus),
        Some(status) => if status != 0 {
            Err(CallError::Failed(status, output))
        } else {
            Ok(output)
        },
    }
}

/// The result of a command whose status is wanted: its output and its exit status, read as
/// a signed number (`u32 as i32`).
pub fn query_result(output: String, exit_status: Option<u32>) -> (r: Result<(String, i32), CallError>)
    ensures
        match exit_status {
            None => r matches Err(CallError::NoExitStatus),
            Some(s) => r == Ok::<(String, i32), CallError>((output, s as i32)),
        },
{
    match exit_status {
        None => Err(CallError::NoExitStatus),
        Some(status) => Ok((output, status as i32)),
    }
}

/// What a command's channel has reported so far: the text of its data messages, in order,
/// and the last exit status it announced.
pub struct Transcript {
    pub output: String,
    pub exit_status: Option<u32>,
}

impl Transcript {
    pub fn new() -> (t: Transcript)
        ensures
            t.output@ == Seq::<char>::empty(),
            t.exit_status is None,
    {
        Transcript { output: String::new(), exit_status: None }
    }

    /// A data message arrived.
    pub fn record_data(&mut self, text: &str)
        ensures
            final(self).output@ == old(self).output@ + text@,
            final(self).exit_status == old(self).exit_status,
    {
        self.output.append(text);
    }

    /// An exit status message arrived.
    pub fn record_exit_status(&mut self, status: u32)
        ensures
            final(self).output == old(self).output,
            final(self).exit_status == Some(status),
    {
        self.exit_status = Some(status);
    }
}

/// Whether the home directory may stand for the leading `~` of `path`.
pub open spec fn starts_with_tilde(path: Seq<char>) -> bool {
    path.len() > 0 && path[0] == '~'
}

/// Calls `shellexpand::tilde`: a leading `~` that stands alone or before a path separator
/// is replaced by the home directory, when one is known. What holds of every outcome: a path
/// that does not start with `~`, or whose `~` is followed by anything but a separator
/// (`~user/...`), comes back unchanged, and any other comes back either unchanged or as some
/// directory followed by the rest of the path. Which directory is not stated: it comes from
/// the environment.
#[verifier::external_body]
fn expand_tilde(path: &str) -> (r: String)
    ensures
        !starts_with_tilde(path@) ==> r@ == path@,
        starts_with_tilde(path@) && path@.len() > 1 && path@[1] != '/' && path@[1] != '\\' ==> r@
            == path@,
        r@ == path@ || (r@.len() >= path@.len() - 1 && r@.subrange(
            r@.len() - (path@.len() - 1),
            r@.len() as int,
        ) == path@.drop_first()),
{
    shellexpand::tilde(path).into_owned()
}

/// Connects to the host described by a configuration.
#[derive(Debug)]
pub struct SshClient {
    config: VpsConfig,
}

impl SshClient {
    /// A client for `config`; it keeps its own copy.
    pub fn new(config: &VpsConfig) -> (r: Result<SshClient, ConnectError>)
        ensures
            r matches Ok(c) && c.spec_config() == *config,
    {
        Ok(SshClient { config: config.copy() })
    }

    pub closed spec fn spec_config(&self) -> VpsConfig {
        self.config
    }

    /// The configuration the client was made with.
    pub fn config(&self) -> (c: &VpsConfig)
        ensures
            *c == self.spec_config(),
    {
        &self.config
    }

    /// The private key file to authenticate with, `~` expanded: an error when the
    /// configuration names none.
    pub fn key_path(&self) -> (r: Result<String, ConnectError>)
        ensures
            self.spec_config().key_path is None <==> r matches Err(ConnectError::KeyPathRequired),
            self.spec_config().key_path matches Some(k) ==> r matches Ok(p) && tilde_outcome(
                k@,
                p@,
            ),
    {
        match &self.config.key_path {
            None => Err(ConnectError::KeyPathRequired),
            Some(k) => Ok(expand_tilde(k.as_str())),
        }
    }

    /// How to log in, chosen by the configuration's `auth`: with `key`, the key file (`~`
    /// expanded), an error when none is named; with `password`, the password, an error when
    /// none is given; any other method is refused.
    pub fn auth_plan(&self) -> (r: Result<AuthPlan, ConnectError>)
        ensures
            self.spec_config().auth@ == "key"@ ==> match self.spec_config().key_path {
                None => r matches Err(ConnectError::KeyPathRequired),
                Some(k) => r matches Ok(AuthPlan::Key(p)) && tilde_outcome(k@, p@),
            },
            self.spec_config().auth@ == "password"@ ==> match self.spec_config().password {
                None => r matches Err(ConnectError::PasswordRequired),
                Some(pw) => r == Ok::<AuthPlan, ConnectError>(AuthPlan::Password(pw)),
            },
            self.spec_config().auth@ != "key"@ && self.spec_config().auth@ != "password"@ ==> r
                == Err::<AuthPlan, ConnectError>(ConnectError::UnsupportedAuth(
                self.spec_config().auth,
            )),
    {
        let auth = self.config.auth.as_str();
        proof {
            reveal_strlit("key");
            reveal_strlit("password");
            assert("key"@.len() != "password"@.len());
        }
        if crate::text::text_eq(auth, "key") {
            match self.key_path() {
                Ok(p) => Ok(AuthPlan::Key(p)),
                Err(e) => Err(e),
            }
        } else if crate::text::text_eq(auth, "password") {
            match &self.config.password {
                Some(pw) => Ok(AuthPlan::Password(pw.clone())),
                None => Err(ConnectError::PasswordRequired),
            }
        } else {
            Err(ConnectError::UnsupportedAuth(self.config.auth.clone()))
        }
    }
}

} // verus!
