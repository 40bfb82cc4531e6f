pub mod apt;
pub mod detect;
pub mod dnf;

use vstd::prelude::*;

verus! {

/// A command that may or may not be needed, by its text.
pub open spec fn opt_text(c: Option<String>) -> Option<Seq<char>> {
    match c {
        Some(s) => Some(s@),
        None => None,
    }
}

/// What a package manager does on the remote host, stated as the shell commands it
/// would have run there. `None` means that the operation runs nothing.
pub trait PackageManager {
    /// The command that refreshes the package index.
    spec fn update_command(&self) -> Option<Seq<char>>;

    /// The command that installs all of `packages`.
    spec fn install_command(&self, packages: Seq<Seq<char>>) -> Option<Seq<char>>;

    /// The command whose exit status tells whether `package` is installed.
    spec fn installed_query(&self, package: Seq<char>) -> Option<Seq<char>>;

    /// Whether an exit status of the `installed_query` command means "installed".
    spec fn installed_status(&self, status: i32) -> bool;

    /// The command that enables `service` at boot.
    spec fn enable_command(&self, service: Seq<char>) -> Option<Seq<char>>;

    /// The command that starts `service` now.
    spec fn start_command(&self, service: Seq<char>) -> Option<Seq<char>>;

    fn update(&self) -> (cmd: Option<String>)
        ensures
            opt_text(cmd) == self.update_command(),
    ;

    fn install(&self, packages: &[&str]) -> (cmd: Option<String>)
        ensures
            opt_text(cmd) == self.install_command(crate::text::texts_of(packages@)),
    ;

    fn is_installed(&self, package: &str) -> (query: Option<String>)
        ensures
            opt_text(query) == self.installed_query(package@),
    ;

    fn is_installed_status(&self, status: i32) -> (installed: bool)
        ensures
            installed == self.installed_status(status),
    ;

    fn enable_service(&self, service: &str) -> (cmd: Option<String>)
        ensures
            opt_text(cmd) == self.enable_command(service@),
    ;

    fn start_service(&self, service: &str) -> (cmd: Option<String>)
        ensures
            opt_text(cmd) == self.start_command(service@),
    ;
}

} // verus!
