use vps_config::modules::devtools::go::GoModule;
use vps_config::modules::devtools::node::NodeModule;
use vps_config::modules::devtools::python::PythonModule;
use vps_config::modules::security::fail2ban::Fail2BanModule;
use vps_config::modules::security::firewall::FirewallModule;
use vps_config::modules::security::ssh_harden::SshHardenModule;
use vps_config::modules::security::users::UsersModule;
use vps_config::modules::services::docker::DockerModule;
use vps_config::modules::services::nginx::NginxModule;
use vps_config::modules::services::postgres::PostgresModule;
use vps_config::modules::services::redis::RedisModule;
use vps_config::modules::{Action, Event, Module, ModuleError, Tone};
use vps_config::os::apt::AptManager;
use vps_config::os::detect::Distro;
use vps_config::os::dnf::DnfManager;
use vps_config::os::PackageManager;

/// What a module did in a simulated run.
struct Run {
    /// "run: cmd" or "query: cmd", in order.
    commands: Vec<String>,
    notes: Vec<(Tone, String)>,
    /// None when the module finished, else its error.
    error: Option<ModuleError>,
}

/// Drives `m` to its end; `reply` answers each command.
fn drive<P: PackageManager, M: Module<P>>(
    m: &M,
    pkg: &P,
    mut reply: impl FnMut(&str) -> Event,
) -> Run {
    let mut run = Run { commands: Vec::new(), notes: Vec::new(), error: None };
    let mut s = m.start(pkg);
    for _ in 0..100 {
        for n in s.notes.drain(..) {
            run.notes.push((n.tone, n.text));
        }
        let event = match &s.action {
            Action::Run(c) => {
                run.commands.push(format!("run: {}", c));
                reply(c)
            }
            Action::Query(c) => {
                run.commands.push(format!("query: {}", c));
                reply(c)
            }
            Action::Done => return run,
            Action::Fail(_) => {
                if let Action::Fail(e) = s.action {
                    run.error = Some(e);
                }
                return run;
            }
        };
        s = m.resume(pkg, s.phase, event);
    }
    panic!("module did not stop");
}

fn ok(_: &str) -> Event {
    Event::Output(String::new(), 0)
}

#[test]
fn nginx_installs_when_absent() {
    let run = drive(&NginxModule, &AptManager::new(), |c| {
        if c.starts_with("dpkg") {
            Event::Output(String::new(), 1)
        } else {
            Event::Output(String::new(), 0)
        }
    });
    assert_eq!(
        run.commands,
        vec![
            "query: dpkg -l nginx 2>/dev/null | grep -q ii",
            "run: DEBIAN_FRONTEND=noninteractive apt-get install -y -qq nginx",
            "run: systemctl enable nginx",
            "run: systemctl start nginx",
        ]
    );
    assert!(run.error.is_none());
    assert_eq!(run.notes, vec![(Tone::Success, "nginx installed".to_string())]);
}

#[test]
fn nginx_skips_when_installed() {
    let run = drive(&NginxModule, &AptManager::new(), ok);
    assert_eq!(run.commands, vec!["query: dpkg -l nginx 2>/dev/null | grep -q ii"]);
    assert_eq!(run.notes, vec![(Tone::Success, "nginx already installed".to_string())]);
    assert!(run.error.is_none());
}

#[test]
fn nginx_with_dnf_runs_nothing() {
    let run = drive(&NginxModule, &DnfManager, ok);
    assert!(run.commands.is_empty());
    assert_eq!(run.notes, vec![(Tone::Success, "nginx installed".to_string())]);
    assert_eq!(<NginxModule as Module<DnfManager>>::name(&NginxModule), "nginx");
}

#[test]
fn failed_command_stops_module() {
    let run = drive(&NginxModule, &AptManager::new(), |c| {
        if c.starts_with("dpkg") {
            Event::Output(String::new(), 1)
        } else {
            Event::Error("Command failed (exit 100): E: no network".to_string())
        }
    });
    assert_eq!(run.commands.len(), 2);
    match run.error {
        Some(ModuleError::CommandFailed(m)) => assert_eq!(m, "Command failed (exit 100): E: no network"),
        _ => panic!("expected a command failure"),
    }
}

#[test]
fn finished_module_refuses_to_go_on() {
    let m = NginxModule;
    let apt = AptManager::new();
    let s = m.resume(&apt, vps_config::modules::services::nginx::NginxPhase::Finished, Event::Output(String::new(), 0));
    assert!(matches!(s.action, Action::Fail(ModuleError::Finished)));
}

#[test]
fn redis_binds_to_localhost() {
    let deb = Distro::Debian;
    let run = drive(&RedisModule::new(&deb), &AptManager::new(), |c| {
        Event::Output(String::new(), if c.starts_with("dpkg") { 1 } else { 0 })
    });
    assert_eq!(
        run.commands,
        vec![
            "query: dpkg -l redis 2>/dev/null | grep -q ii",
            "run: DEBIAN_FRONTEND=noninteractive apt-get install -y -qq redis",
            "run: sudo sed -i 's/^bind .*/bind 127.0.0.1/' /etc/redis/redis.conf",
            "run: systemctl enable redis",
            "run: systemctl start redis",
        ]
    );
    let fedora = Distro::Fedora;
    let run = drive(&RedisModule::new(&fedora), &DnfManager, ok);
    assert_eq!(run.commands, vec!["run: sudo sed -i 's/^bind .*/bind 127.0.0.1/' /etc/redis.conf"]);
    assert_eq!(run.notes, vec![(Tone::Success, "Redis installed".to_string())]);
}

#[test]
fn docker_on_ubuntu_uses_official_repo() {
    let ubuntu = Distro::Ubuntu;
    let run = drive(&DockerModule::new(&ubuntu, Some("deploy")), &AptManager::new(), |c| {
        Event::Output(String::new(), if c.starts_with("dpkg") { 1 } else { 0 })
    });
    assert_eq!(
        run.commands,
        vec![
            "query: dpkg -l docker 2>/dev/null | grep -q ii",
            "run: DEBIAN_FRONTEND=noninteractive apt-get install -y -qq ca-certificates curl gnupg",
            "run: sudo install -m 0755 -d /etc/apt/keyrings",
            "run: curl -fsSL https://download.docker.com/linux/ubuntu/gpg -o /tmp/docker.gpg",
            "run: sudo sh -c 'gpg --batch --dearmor -o /etc/apt/keyrings/docker.gpg < /tmp/docker.gpg'",
            "run: sudo chmod a+r /etc/apt/keyrings/docker.gpg",
            "run: sudo sh -c 'echo \"deb [arch=$(dpkg --print-architecture) signed-by=/etc/apt/keyrings/docker.gpg] https://download.docker.com/linux/ubuntu $(lsb_release -cs) stable\" > /etc/apt/sources.list.d/docker.list'",
            "run: apt-get update -qq",
            "run: DEBIAN_FRONTEND=noninteractive apt-get install -y -qq docker-ce docker-ce-cli containerd.io docker-compose-plugin",
            "run: systemctl enable docker",
            "run: systemctl start docker",
            "run: sudo usermod -aG docker,wheel deploy",
        ]
    );
    assert_eq!(run.notes, vec![(Tone::Success, "Docker installed".to_string())]);
}

#[test]
fn docker_on_rhel_without_user() {
    let rhel = Distro::RHEL;
    let run = drive(&DockerModule::new(&rhel, None), &DnfManager, ok);
    assert_eq!(
        run.commands,
        vec!["run: sudo dnf config-manager --add-repo https://download.docker.com/linux/rhel/docker-ce.repo"]
    );
}

const UFW_BACKUP: &str = "rm -rf /etc/default/ufw.bak && cp -a /etc/default/ufw /etc/default/ufw.bak && rm -rf /etc/ufw/ufw.conf.bak && cp -a /etc/ufw/ufw.conf /etc/ufw/ufw.conf.bak && rm -rf /etc/ufw/user.rules.bak && cp -a /etc/ufw/user.rules /etc/ufw/user.rules.bak && rm -rf /etc/ufw/user6.rules.bak && cp -a /etc/ufw/user6.rules /etc/ufw/user6.rules.bak";
const UFW_RESTORE: &str = "rm -rf /etc/default/ufw && cp -a /etc/default/ufw.bak /etc/default/ufw && rm -rf /etc/ufw/ufw.conf && cp -a /etc/ufw/ufw.conf.bak /etc/ufw/ufw.conf && rm -rf /etc/ufw/user.rules && cp -a /etc/ufw/user.rules.bak /etc/ufw/user.rules && rm -rf /etc/ufw/user6.rules && cp -a /etc/ufw/user6.rules.bak /etc/ufw/user6.rules";
const FIREWALLD_BACKUP: &str = "rm -rf /etc/firewalld.bak && cp -a /etc/firewalld /etc/firewalld.bak";
const FIREWALLD_RESTORE: &str = "rm -rf /etc/firewalld && cp -a /etc/firewalld.bak /etc/firewalld";

#[test]
fn firewall_on_debian() {
    let deb = Distro::Debian;
    let run = drive(&FirewallModule::new(&deb), &AptManager::new(), ok);
    let backup = format!("run: {}", UFW_BACKUP);
    assert_eq!(
        run.commands,
        vec![
            "run: DEBIAN_FRONTEND=noninteractive apt-get install -y -qq ufw",
            "query: grep -q '^ENABLED=yes' /etc/ufw/ufw.conf",
            backup.as_str(),
            "run: ufw default deny incoming",
            "run: ufw default allow outgoing",
            "run: ufw allow ssh",
            "run: ufw allow 80/tcp",
            "run: ufw allow 443/tcp",
            "run: ufw --force enable",
        ]
    );
    assert_eq!(run.notes, vec![(Tone::Success, "Firewall configured".to_string())]);
}

#[test]
fn firewall_on_fedora() {
    let fedora = Distro::Fedora;
    let run = drive(&FirewallModule::new(&fedora), &DnfManager, ok);
    let backup = format!("run: {}", FIREWALLD_BACKUP);
    assert_eq!(
        run.commands,
        vec![
            "query: systemctl is-active --quiet firewalld",
            "query: systemctl is-enabled --quiet firewalld",
            backup.as_str(),
            "run: firewall-cmd --permanent --add-service=ssh",
            "run: firewall-cmd --permanent --add-service=http",
            "run: firewall-cmd --permanent --add-service=https",
            "run: firewall-cmd --reload",
        ]
    );
    assert!(run.error.is_none());
}

#[test]
fn users_with_password() {
    let run = drive(&UsersModule::new("deploy", Some("s3cr'et"), "root"), &AptManager::new(), ok);
    assert_eq!(
        run.commands,
        vec![
            "run: sudo groupadd -f sudo || sudo groupadd -f wheel",
            "run: id deploy >/dev/null 2>&1 || sudo useradd -m -s /bin/bash -G sudo deploy",
            "run: sudo usermod -aG sudo deploy || sudo usermod -aG wheel deploy",
            "run: sudo sh -c 'echo \"deploy ALL=(ALL) NOPASSWD:ALL\" > /etc/sudoers.d/deploy && chmod 440 /etc/sudoers.d/deploy'",
            "run: sudo sh -c 'echo \"deploy:s3cr'\\''et\" | chpasswd'",
            "run: sudo mkdir -p /home/deploy/.ssh && sudo cp -a /home/root/.ssh/. /home/deploy/.ssh/ && sudo chown -R deploy:deploy /home/deploy/.ssh && sudo chmod 700 /home/deploy/.ssh && sudo chmod 600 /home/deploy/.ssh/*",
        ]
    );
    assert_eq!(
        run.notes,
        vec![
            (Tone::Info, "Creating user: deploy".to_string()),
            (Tone::Success, "User 'deploy' created with sudo access".to_string()),
        ]
    );
}

#[test]
fn users_without_password_skip_chpasswd() {
    let run = drive(&UsersModule::new("ops", None, "admin"), &DnfManager, ok);
    assert_eq!(run.commands.len(), 5);
    assert!(run.commands.iter().all(|c| !c.contains("chpasswd")));
}

#[test]
fn ssh_harden_checks_keys_before_disabling_passwords() {
    let m = SshHardenModule::new(false, Some(2222));
    let run = drive(&m, &AptManager::new(), ok);
    assert_eq!(
        run.commands,
        vec![
            "run: cp /etc/ssh/sshd_config /etc/ssh/sshd_config.bak",
            "query: test -s ~/.ssh/authorized_keys",
            "run: sed -i 's/^#\\?PermitRootLogin.*/PermitRootLogin prohibit-password/' /etc/ssh/sshd_config",
            "run: sed -i 's/^#\\?PasswordAuthentication.*/PasswordAuthentication no/' /etc/ssh/sshd_config",
            "run: sed -i 's/^#\\?Port .*/Port 2222/' /etc/ssh/sshd_config",
            "run: systemctl restart sshd",
        ]
    );
    assert_eq!(
        run.notes,
        vec![
            (Tone::Info, "Hardening SSH configuration...".to_string()),
            (Tone::Success, "SSH hardened".to_string()),
            (Tone::Warning, "WARNING: SSH restart with new config. Verify you can still connect!".to_string()),
        ]
    );
}

#[test]
fn ssh_harden_aborts_without_authorized_keys() {
    let m = SshHardenModule::new(false, None);
    let run = drive(&m, &AptManager::new(), |c| {
        Event::Output(String::new(), if c.starts_with("test -s") { 1 } else { 0 })
    });
    assert_eq!(run.commands.len(), 2);
    let e = run.error.expect("the module must fail");
    assert!(matches!(e, ModuleError::MissingAuthorizedKeys));
    assert_eq!(
        e.message(),
        "SSH hardening aborted: ~/.ssh/authorized_keys does not exist or is empty. Add an SSH public key first, then re-run. Without password auth, you would be locked out of your VPS."
    );
}

#[test]
fn ssh_harden_keeping_passwords_only_moves_port() {
    let m = SshHardenModule::new(true, Some(22));
    let run = drive(&m, &DnfManager, ok);
    assert_eq!(
        run.commands,
        vec![
            "run: cp /etc/ssh/sshd_config /etc/ssh/sshd_config.bak",
            "run: sed -i 's/^#\\?Port .*/Port 22/' /etc/ssh/sshd_config",
            "run: systemctl restart sshd",
        ]
    );
}

#[test]
fn ssh_harden_rolls_back_failed_restart() {
    let m = SshHardenModule::new(true, None);
    let mut restarts = 0;
    let run = drive(&m, &AptManager::new(), |c| {
        if c == "systemctl restart sshd" {
            restarts += 1;
            if restarts == 1 {
                return Event::Error("Command failed (exit 1): bad config".to_string());
            }
        }
        Event::Output(String::new(), 0)
    });
    assert_eq!(
        run.commands,
        vec![
            "run: cp /etc/ssh/sshd_config /etc/ssh/sshd_config.bak",
            "run: systemctl restart sshd",
            "run: cp /etc/ssh/sshd_config.bak /etc/ssh/sshd_config",
            "run: systemctl restart sshd",
        ]
    );
    assert_eq!(
        run.notes[1],
        (Tone::Failure, "SSH restart failed, rolling back configuration: Command failed (exit 1): bad config".to_string())
    );
    let e = run.error.expect("the module must fail");
    assert_eq!(
        e.message(),
        "SSH hardening failed and configuration was rolled back: Command failed (exit 1): bad config"
    );
}

#[test]
fn python_installs_pyenv_when_missing() {
    let run = drive(&PythonModule::new("3.12"), &AptManager::new(), ok);
    assert_eq!(run.commands.len(), 4);
    assert!(run.commands[0].starts_with("run: DEBIAN_FRONTEND=noninteractive apt-get install -y -qq build-essential libssl-dev"));
    assert!(run.commands[0].ends_with("libffi-dev liblzma-dev"));
    assert_eq!(run.commands[1], "query: command -v pyenv || true");
    assert_eq!(run.commands[2], "run: curl https://pyenv.run | bash");
    assert_eq!(
        run.commands[3],
        "run: export PYENV_ROOT=\"$HOME/.pyenv\" && export PATH=\"$PYENV_ROOT/bin:$PATH\" && pyenv install -s 3.12 && pyenv global 3.12"
    );
    assert_eq!(run.notes, vec![(Tone::Success, "Python 3.12 installed".to_string())]);
}

#[test]
fn python_keeps_present_pyenv() {
    let run = drive(&PythonModule::new("3.11.4"), &DnfManager, |c| {
        Event::Output(if c.starts_with("command") { "/root/.pyenv/bin/pyenv\n".to_string() } else { String::new() }, 0)
    });
    assert_eq!(run.commands.len(), 2);
    assert_eq!(run.commands[0], "query: command -v pyenv || true");
}

#[test]
fn go_installs_for_arm64() {
    let run = drive(&GoModule::new("1.22.0"), &AptManager::new(), |c| {
        Event::Output(if c == "uname -m" { "aarch64\n".to_string() } else { String::new() }, 0)
    });
    assert_eq!(
        run.commands,
        vec![
            "query: go version 2>/dev/null || true",
            "query: uname -m",
            "run: wget -q https://go.dev/dl/go1.22.0.linux-arm64.tar.gz -O /tmp/go.tar.gz",
            "run: sudo sh -c 'rm -rf /usr/local/go && tar -C /usr/local -xzf /tmp/go.tar.gz'",
            "run: sudo sh -c 'echo \"export PATH=$PATH:/usr/local/go/bin\" > /etc/profile.d/go.sh'",
            "run: rm /tmp/go.tar.gz",
        ]
    );
    assert_eq!(run.notes, vec![(Tone::Success, "Go 1.22.0 installed".to_string())]);
}

#[test]
fn go_skips_when_present() {
    let run = drive(&GoModule::new("1.22.0"), &AptManager::new(), |_| {
        Event::Output("go version go1.21.5 linux/amd64\n".to_string(), 0)
    });
    assert_eq!(run.commands.len(), 1);
    assert_eq!(run.notes, vec![(Tone::Success, "Go already installed".to_string())]);
}

#[test]
fn go_rejects_unknown_architecture() {
    let run = drive(&GoModule::new("1.22.0"), &AptManager::new(), |c| {
        Event::Output(if c == "uname -m" { " riscv64\n".to_string() } else { String::new() }, 0)
    });
    let e = run.error.expect("the module must fail");
    assert!(matches!(&e, ModuleError::UnsupportedArchitecture(a) if a == "riscv64"));
    assert_eq!(e.message(), "Unsupported architecture: riscv64");
}

#[test]
fn fail2ban_installs_with_ssh_jail() {
    let run = drive(&Fail2BanModule, &AptManager::new(), |c| {
        Event::Output(String::new(), if c.starts_with("dpkg") { 1 } else { 0 })
    });
    assert_eq!(
        run.commands,
        vec![
            "query: dpkg -l fail2ban 2>/dev/null | grep -q ii",
            "run: DEBIAN_FRONTEND=noninteractive apt-get install -y -qq fail2ban",
            "run: sudo sh -c 'printf \"[sshd]\\nenabled = true\\n\" > /etc/fail2ban/jail.d/sshd.local'",
            "run: systemctl enable fail2ban",
            "run: systemctl start fail2ban",
        ]
    );
    assert_eq!(run.notes, vec![(Tone::Success, "fail2ban installed".to_string())]);
    let run = drive(&Fail2BanModule, &AptManager::new(), ok);
    assert_eq!(run.notes, vec![(Tone::Success, "fail2ban already installed".to_string())]);
}

#[test]
fn postgres_installs_and_starts() {
    let run = drive(&PostgresModule::new(None), &AptManager::new(), |c| {
        Event::Output(String::new(), if c.starts_with("dpkg") { 1 } else { 0 })
    });
    assert_eq!(
        run.commands,
        vec![
            "query: dpkg -l postgresql 2>/dev/null | grep -q ii",
            "run: DEBIAN_FRONTEND=noninteractive apt-get install -y -qq postgresql",
            "run: systemctl enable postgresql",
            "run: systemctl start postgresql",
        ]
    );
    assert_eq!(run.notes, vec![(Tone::Success, "PostgreSQL installed".to_string())]);
}

#[test]
fn node_installs_nvm_then_node() {
    let run = drive(&NodeModule::new(Some("22")), &AptManager::new(), |c| {
        Event::Output(String::new(), if c.starts_with("test -s") { 1 } else { 0 })
    });
    assert_eq!(
        run.commands,
        vec![
            "query: test -s \"$HOME/.nvm/nvm.sh\"",
            "run: curl -o- https://raw.githubusercontent.com/nvm-sh/nvm/v0.39.7/install.sh | bash",
            "run: . \"$HOME/.nvm/nvm.sh\" && nvm install 22",
        ]
    );
    assert_eq!(run.notes, vec![(Tone::Success, "Node.js 22 installed".to_string())]);
}

#[test]
fn node_lts_with_existing_nvm() {
    let run = drive(&NodeModule::new(None), &DnfManager, ok);
    assert_eq!(
        run.commands,
        vec!["query: test -s \"$HOME/.nvm/nvm.sh\"", "run: . \"$HOME/.nvm/nvm.sh\" && nvm install --lts"]
    );
    assert_eq!(run.notes, vec![(Tone::Success, "Node.js LTS installed".to_string())]);
}

#[test]
fn module_names() {
    assert_eq!(<PostgresModule as Module<AptManager>>::name(&PostgresModule::new(None)), "postgres");
    assert_eq!(<NodeModule as Module<AptManager>>::name(&NodeModule::new(None)), "node");
    assert_eq!(<Fail2BanModule as Module<AptManager>>::name(&Fail2BanModule), "fail2ban");
}

#[test]
fn firewall_rolls_back_on_debian() {
    let deb = Distro::Debian;
    let run = drive(&FirewallModule::new(&deb), &AptManager::new(), |c| {
        if c == "ufw allow 80/tcp" {
            Event::Error("Command failed (exit 1): ERROR".to_string())
        } else {
            Event::Output(String::new(), 0)
        }
    });
    let backup = format!("run: {}", UFW_BACKUP);
    let restore = format!("run: {}", UFW_RESTORE);
    assert_eq!(
        run.commands,
        vec![
            "run: DEBIAN_FRONTEND=noninteractive apt-get install -y -qq ufw",
            "query: grep -q '^ENABLED=yes' /etc/ufw/ufw.conf",
            backup.as_str(),
            "run: ufw default deny incoming",
            "run: ufw default allow outgoing",
            "run: ufw allow ssh",
            "run: ufw allow 80/tcp",
            restore.as_str(),
            "run: ufw reload",
        ]
    );
    assert_eq!(
        run.notes,
        vec![(Tone::Failure, "Firewall configuration failed, rolling back: Command failed (exit 1): ERROR".to_string())]
    );
    let e = run.error.expect("the module must fail");
    assert!(matches!(e, ModuleError::FirewallRolledBack(_)));
    assert_eq!(e.message(), "Firewall configuration failed and was rolled back: Command failed (exit 1): ERROR");
}

#[test]
fn firewall_rollback_disables_ufw_found_disabled() {
    let deb = Distro::Ubuntu;
    let run = drive(&FirewallModule::new(&deb), &AptManager::new(), |c| {
        if c.starts_with("grep") {
            Event::Output(String::new(), 1)
        } else if c == "ufw --force enable" {
            Event::Output("ERROR: problem running iptables".to_string(), 1)
        } else {
            Event::Output(String::new(), 0)
        }
    });
    let restore = format!("run: {}", UFW_RESTORE);
    assert_eq!(run.commands[run.commands.len() - 3..], ["run: ufw --force enable", restore.as_str(), "run: ufw disable"]);
    let e = run.error.expect("the module must fail");
    assert_eq!(
        e.message(),
        "Firewall configuration failed and was rolled back: ERROR: problem running iptables"
    );
}

#[test]
fn firewall_rolls_back_on_fedora() {
    let fedora = Distro::Fedora;
    let mut reloads = 0;
    let run = drive(&FirewallModule::new(&fedora), &DnfManager, |c| {
        if c == "firewall-cmd --reload" {
            reloads += 1;
        }
        if c == "firewall-cmd --reload" && reloads == 1 {
            Event::Error("reload failed".to_string())
        } else {
            Event::Output(String::new(), 0)
        }
    });
    let restore = format!("run: {}", FIREWALLD_RESTORE);
    assert_eq!(run.commands[7..], [restore.as_str(), "run: firewall-cmd --reload"]);
    assert!(matches!(run.error, Some(ModuleError::FirewallRolledBack(_))));
}

#[test]
fn firewall_rollback_stops_firewalld_found_stopped() {
    let fedora = Distro::RHEL;
    let run = drive(&FirewallModule::new(&fedora), &DnfManager, |c| {
        if c.starts_with("systemctl is-") {
            Event::Output(String::new(), 3)
        } else if c == "firewall-cmd --permanent --add-service=ssh" {
            Event::Error("FirewallD is not running".to_string())
        } else {
            Event::Output(String::new(), 0)
        }
    });
    let restore = format!("run: {}", FIREWALLD_RESTORE);
    assert_eq!(
        run.commands[3..],
        [
            "run: firewall-cmd --permanent --add-service=ssh",
            restore.as_str(),
            "run: systemctl disable firewalld",
            "run: systemctl stop firewalld",
        ]
    );
    assert!(matches!(run.error, Some(ModuleError::FirewallRolledBack(_))));
}

#[test]
fn firewall_failed_backup_changes_nothing() {
    let fedora = Distro::Fedora;
    let run = drive(&FirewallModule::new(&fedora), &DnfManager, |c| {
        if c.starts_with("rm -rf") {
            Event::Output("cp: cannot stat".to_string(), 1)
        } else {
            Event::Output(String::new(), 0)
        }
    });
    assert_eq!(run.commands.len(), 3);
    match run.error {
        Some(ModuleError::CommandFailed(m)) => assert_eq!(m, "cp: cannot stat"),
        _ => panic!("the module must fail with the command's output"),
    }
}

#[test]
fn firewall_first_failure_changes_nothing() {
    let deb = Distro::Ubuntu;
    let run = drive(&FirewallModule::new(&deb), &AptManager::new(), |_| Event::Error("no apt".to_string()));
    assert_eq!(run.commands.len(), 1);
    assert!(matches!(run.error, Some(ModuleError::CommandFailed(_))));
}

#[test]
fn postgres_sets_up_user_and_database() {
    let run = drive(&PostgresModule::new(Some("deploy")), &AptManager::new(), |c| {
        Event::Output(String::new(), if c.starts_with("dpkg") { 1 } else { 0 })
    });
    assert_eq!(
        run.commands,
        vec![
            "query: dpkg -l postgresql 2>/dev/null | grep -q ii",
            "run: DEBIAN_FRONTEND=noninteractive apt-get install -y -qq postgresql",
            "run: systemctl enable postgresql",
            "run: systemctl start postgresql",
            "run: runuser -u postgres -- psql -tAc \"SELECT 1 FROM pg_roles WHERE rolname='deploy'\" | grep -q 1 || runuser -u postgres -- createuser deploy",
            "run: runuser -u postgres -- psql -tAc \"SELECT 1 FROM pg_database WHERE datname='deploy'\" | grep -q 1 || runuser -u postgres -- createdb -O deploy deploy",
        ]
    );
    assert_eq!(
        run.notes,
        vec![
            (Tone::Success, "PostgreSQL installed".to_string()),
            (Tone::Success, "PostgreSQL user and database deploy ready".to_string()),
        ]
    );
}

#[test]
fn postgres_already_installed_still_sets_up_database() {
    let run = drive(&PostgresModule::new(Some("app_user")), &AptManager::new(), ok);
    assert_eq!(run.commands.len(), 3);
    assert!(run.commands[1].ends_with("createuser app_user"));
    assert!(run.commands[2].ends_with("createdb -O app_user app_user"));
    assert_eq!(run.notes[0], (Tone::Success, "PostgreSQL already installed".to_string()));
}

#[test]
fn postgres_refuses_a_name_that_is_not_plain() {
    let run = drive(&PostgresModule::new(Some("bob'; DROP")), &AptManager::new(), ok);
    assert_eq!(run.commands, vec!["query: dpkg -l postgresql 2>/dev/null | grep -q ii"]);
    assert_eq!(
        run.notes,
        vec![
            (Tone::Success, "PostgreSQL already installed".to_string()),
            (Tone::Warning, "PostgreSQL user and database not created: bob'; DROP is not a plain name".to_string()),
        ]
    );
    assert!(run.error.is_none());
}

#[test]
fn postgres_database_failure_stops_the_module() {
    let run = drive(&PostgresModule::new(Some("deploy")), &AptManager::new(), |c| {
        if c.contains("createdb") {
            Event::Output("createdb: error".to_string(), 1)
        } else {
            Event::Output(String::new(), 0)
        }
    });
    match run.error {
        Some(ModuleError::CommandFailed(m)) => assert_eq!(m, "createdb: error"),
        _ => panic!("the module must fail with the command's output"),
    }
}

#[test]
fn a_nonzero_exit_status_fails_a_run_step() {
    let run = drive(&NginxModule, &AptManager::new(), |c| {
        if c.starts_with("dpkg") {
            Event::Output(String::new(), 1)
        } else if c.starts_with("DEBIAN_FRONTEND") {
            Event::Output("E: Unable to locate package nginx".to_string(), 100)
        } else {
            Event::Output(String::new(), 0)
        }
    });
    assert_eq!(run.commands.len(), 2);
    match run.error {
        Some(ModuleError::CommandFailed(m)) => assert_eq!(m, "E: Unable to locate package nginx"),
        _ => panic!("the install must fail"),
    }
}
