use vstd::prelude::*;

use crate::os::PackageManager;

verus! {

/// The package manager of RHEL and Fedora. No operation of it runs a command yet,
/// and it reports every package as absent.
pub struct DnfManager;

impl PackageManager for DnfManager {
    open spec fn update_command(&self) -> Option<Seq<char>> {
        None
    }

    open spec fn install_command(&self, packages: Seq<Seq<char>>) -> Option<Seq<char>> {
        None
    }

    open spec fn installed_query(&self, package: Seq<char>) -> Option<Seq<char>> {
        None
    }

    open spec fn installed_status(&self, status: i32) -> bool {
        false
    }

    open spec fn enable_command(&self, service: Seq<char>) -> Option<Seq<char>> {
        None
    }

    open spec fn start_command(&self, service: Seq<char>) -> Option<Seq<char>> {
        None
    }

    fn update(&self) -> (cmd: Option<String>) {
        None
    }

    fn install(&self, packages: &[&str]) -> (cmd: Option<String>) {
        None
    }

    fn is_installed(&self, package: &str) -> (query: Option<String>) {
        None
    }

    fn is_installed_status(&self, status: i32) -> (installed: bool) {
        false
    }

    fn enable_service(&self, service: &str) -> (cmd: Option<String>) {
        None
    }

    fn start_service(&self, service: &str) -> (cmd: Option<String>) {
        None
    }
}

} // verus!
