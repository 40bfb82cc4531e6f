use vstd::prelude::*;

verus! {

/// The command line: an optional configuration file, and the host to reach.
#[derive(Debug)]
pub struct Args {
    /// Path to the configuration file.
    pub config: Option<String>,
    /// The host's IP address.
    pub ip: Option<String>,
    /// The SSH port.
    pub port: u16,
    /// The SSH user.
    pub user: String,
}

/// The configuration file read when the command line names none.
pub fn default_config_path() -> (p: &'static str)
    ensures
        p@ == "config.toml"@,
{
    "config.toml"
}

/// The base directory for configuration under the XDG rules: `$XDG_CONFIG_HOME` when it is
/// set and not empty, else `$HOME/.config`, else none.
pub open spec fn xdg_base(xdg_config_home: Option<Seq<char>>, home: Option<Seq<char>>) -> Option<
    Seq<char>,
> {
    match xdg_config_home {
        Some(x) if x.len() > 0 => Some(x),
        _ => match home {
            Some(h) => Some(h + "/.config"@),
            None => None,
        },
    }
}

/// The text of an optional text.
pub open spec fn opt_view(s: Option<String>) -> Option<Seq<char>> {
    match s {
        Some(t) => Some(t@),
        None => None,
    }
}

/// The configuration file under the XDG rules, given the values of `XDG_CONFIG_HOME` and
/// `HOME`: `<base>/vps-config/config.toml`, where the base is as `xdg_base` says.
pub fn xdg_config_file(xdg_config_home: Option<String>, home: Option<String>) -> (r: Option<
    String,
>)
    ensures
        opt_view(r) == match xdg_base(opt_view(xdg_config_home), opt_view(home)) {
            Some(b) => Some(b + "/vps-config/config.toml"@),
            None => None,
        },
{
    let base = match xdg_config_home {
        Some(x) if !x.as_str().is_empty() => x,
        _ => match home {
            Some(h) => {
                let mut b = h;
                b.append("/.config");
                b
            },
            None => {
                return None;
            },
        },
    };
    let mut f = base;
    f.append("/vps-config/config.toml");
    Some(f)
}

impl Args {
    /// The configuration file to read: the one given on the command line; else the XDG file,
    /// when it exists (`xdg_file` is `None` when it does not); else `config.toml`.
    pub fn config_path_with(&self, xdg_file: Option<String>) -> (p: String)
        ensures
            p@ == match self.config {
                Some(c) => c@,
                None => match xdg_file {
                    Some(f) => f@,
                    None => "config.toml"@,
                },
            },
    {
        match &self.config {
            Some(c) => c.clone(),
            None => match xdg_file {
                Some(f) => f,
                None => String::from_str(default_config_path()),
            },
        }
    }

    /// The configuration file to read: the one given, else `config.toml`.
    pub fn config_path(&self) -> (p: String)
        ensures
            p@ == match self.config {
                Some(c) => c@,
                None => "config.toml"@,
            },
    {
        match &self.config {
            Some(c) => c.clone(),
            None => String::from_str(default_config_path()),
        }
    }
}

} // verus!
