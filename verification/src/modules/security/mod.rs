pub mod fail2ban;
pub mod firewall;
pub mod ssh_harden;
pub mod users;
