use vstd::prelude::*;

use crate::os::PackageManager;
use crate::text::{join_with_spaces, join_words};

verus! {

/// The package manager of Debian and Ubuntu (`apt-get`, `dpkg`, `systemctl`).
pub struct AptManager;

impl AptManager {
    pub fn new() -> (m: Self)
        ensures
            m == AptManager,
    {
        AptManager
    }
}

impl Default for AptManager {
    fn default() -> (m: Self)
        ensures
            m == AptManager,
    {
        AptManager
    }
}

impl PackageManager for AptManager {
    open spec fn update_command(&self) -> Option<Seq<char>> {
        Some("apt-get update -qq"@)
    }

    open spec fn install_command(&self, packages: Seq<Seq<char>>) -> Option<Seq<char>> {
        Some("DEBIAN_FRONTEND=noninteractive apt-get install -y -qq "@ + join_words(packages))
    }

    open spec fn installed_query(&self, package: Seq<char>) -> Option<Seq<char>> {
        Some("dpkg -l "@ + package + " 2>/dev/null | grep -q ii"@)
    }

    open spec fn installed_status(&self, status: i32) -> bool {
        status == 0
    }

    open spec fn enable_command(&self, service: Seq<char>) -> Option<Seq<char>> {
        Some("systemctl enable "@ + service)
    }

    open spec fn start_command(&self, service: Seq<char>) -> Option<Seq<char>> {
        Some("systemctl start "@ + service)
    }

    fn update(&self) -> (cmd: Option<String>) {
        Some(String::from_str("apt-get update -qq"))
    }

    fn install(&self, packages: &[&str]) -> (cmd: Option<String>) {
        let mut c = String::from_str("DEBIAN_FRONTEND=noninteractive apt-get install -y -qq ");
        let names = join_with_spaces(packages);
        c.append(names.as_str());
        Some(c)
    }

    fn is_installed(&self, package: &str) -> (query: Option<String>) {
        let mut c = String::from_str("dpkg -l ");
        c.append(package);
        c.append(" 2>/dev/null | grep -q ii");
        Some(c)
    }

    fn is_installed_status(&self, status: i32) -> (installed: bool) {
        status == 0
    }

    fn enable_service(&self, service: &str) -> (cmd: Option<String>) {
        let mut c = String::from_str("systemctl enable ");
        c.append(service);
        Some(c)
    }

    fn start_service(&self, service: &str) -> (cmd: Option<String>) {
        let mut c = String::from_str("systemctl start ");
        c.append(service);
        Some(c)
    }
}

} // verus!
