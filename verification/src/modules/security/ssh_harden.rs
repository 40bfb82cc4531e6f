use vstd::prelude::*;

use crate::modules::{
    as_run_answer, to_run_answer,
    failed_step, finished_step, next_index, no_notes, one_note, push_text, step, texts,
    two_notes, Action, ActionView, Event, Module, ModuleError, ModuleErrorView, Step, StepView,
    Tone,
};
use crate::os::PackageManager;
use crate::text::{decimal, decimal_text};

verus! {

/// Hardens the SSH daemon: root may log in with keys only, password login is switched off
/// (unless it is to stay allowed), and the port is changed when a new one is given. The
/// configuration is backed up first, password login is switched off only when
/// `~/.ssh/authorized_keys` holds a key, and a failed restart puts the backup back.
pub struct SshHardenModule {
    password_auth: bool,
    new_port: Option<u16>,
}

/// Where the SSH hardening module stands.
#[derive(Debug)]
pub enum SshHardenPhase {
    /// Waiting for the backup of `sshd_config`.
    BackingUp,
    /// Waiting for the answer to the `authorized_keys` check.
    CheckingKeys,
    /// Waiting for the edit at this index of the edit plan.
    Editing(usize),
    /// Waiting for `sshd` to restart with the new configuration.
    Restarting,
    /// The restart failed with this message; waiting for the backup to be put back.
    RollingBack(String),
    /// The restart failed with this message; waiting for `sshd` to restart with the backup.
    Restoring(String),
    /// Done or failed.
    Finished,
}

pub open spec fn backup_command() -> Seq<char> {
    "cp /etc/ssh/sshd_config /etc/ssh/sshd_config.bak"@
}

pub open spec fn key_check_command() -> Seq<char> {
    "test -s ~/.ssh/authorized_keys"@
}

pub open spec fn root_login_command() -> Seq<char> {
    "sed -i 's/^#\\?PermitRootLogin.*/PermitRootLogin prohibit-password/' /etc/ssh/sshd_config"@
}

pub open spec fn password_login_command() -> Seq<char> {
    "sed -i 's/^#\\?PasswordAuthentication.*/PasswordAuthentication no/' /etc/ssh/sshd_config"@
}

pub open spec fn port_command(port: u16) -> Seq<char> {
    "sed -i 's/^#\\?Port .*/Port "@ + decimal(port as nat) + "/' /etc/ssh/sshd_config"@
}

pub open spec fn restart_command() -> Seq<char> {
    "systemctl restart sshd"@
}

pub open spec fn restore_command() -> Seq<char> {
    "cp /etc/ssh/sshd_config.bak /etc/ssh/sshd_config"@
}

/// The edits of `sshd_config`: keys-only root login and no password login unless password
/// login stays allowed, then the new port if there is one.
pub open spec fn edit_plan(password_auth: bool, new_port: Option<u16>) -> Seq<Seq<char>> {
    (if password_auth {
        Seq::empty()
    } else {
        seq![root_login_command(), password_login_command()]
    }) + match new_port {
        Some(p) => seq![port_command(p)],
        None => Seq::empty(),
    }
}

impl SshHardenModule {
    pub fn new(password_auth: bool, new_port: Option<u16>) -> (m: Self)
        ensures
            m.password_auth() == password_auth,
            m.new_port() == new_port,
    {
        SshHardenModule { password_auth, new_port }
    }

    pub closed spec fn password_auth(&self) -> bool {
        self.password_auth
    }

    pub closed spec fn new_port(&self) -> Option<u16> {
        self.new_port
    }

    /// The edit at `index`, or the restart once the edits are done.
    pub open spec fn edits_from(&self, index: int) -> StepView<SshHardenPhase> {
        let plan = edit_plan(self.password_auth(), self.new_port());
        if 0 <= index < plan.len() {
            StepView {
                phase: SshHardenPhase::Editing(index as usize),
                notes: Seq::empty(),
                action: ActionView::Run(plan[index]),
            }
        } else {
            StepView {
                phase: SshHardenPhase::Restarting,
                notes: Seq::empty(),
                action: ActionView::Run(restart_command()),
            }
        }
    }

    fn edits(&self) -> (v: Vec<String>)
        ensures
            texts(v@) == edit_plan(self.password_auth(), self.new_port()),
    {
        let mut v: Vec<String> = Vec::new();
        if !self.password_auth {
            push_text(
                &mut v,
                String::from_str(
                    "sed -i 's/^#\\?PermitRootLogin.*/PermitRootLogin prohibit-password/' /etc/ssh/sshd_config",
                ),
            );
            push_text(
                &mut v,
                String::from_str(
                    "sed -i 's/^#\\?PasswordAuthentication.*/PasswordAuthentication no/' /etc/ssh/sshd_config",
                ),
            );
        }
        match self.new_port {
            Some(p) => {
                let mut c = String::from_str("sed -i 's/^#\\?Port .*/Port ");
                let digits = decimal_text(p as u64);
                c.append(digits.as_str());
                c.append("/' /etc/ssh/sshd_config");
                push_text(&mut v, c);
            },
            None => {},
        }
        assert(texts(v@) =~= edit_plan(self.password_auth(), self.new_port()));
        v
    }

    fn from_edit(&self, index: usize) -> (s: Step<SshHardenPhase>)
        ensures
            s@ == self.edits_from(index as int),
    {
        let plan = self.edits();
        if index < plan.len() {
            let c = plan[index].clone();
            assert(texts(plan@)[index as int] == plan@[index as int]@);
            step(SshHardenPhase::Editing(index), no_notes(), Action::Run(c))
        } else {
            step(
                SshHardenPhase::Restarting,
                no_notes(),
                Action::Run(String::from_str("systemctl restart sshd")),
            )
        }
    }
}

impl<P: PackageManager> Module<P> for SshHardenModule {
    type Phase = SshHardenPhase;

    open spec fn spec_name(&self) -> Seq<char> {
        "ssh_harden"@
    }

    open spec fn opening(&self, pkg: &P) -> StepView<SshHardenPhase> {
        StepView {
            phase: SshHardenPhase::BackingUp,
            notes: seq![(Tone::Info, "Hardening SSH configuration..."@)],
            action: ActionView::Run(backup_command()),
        }
    }

    open spec fn transition(&self, pkg: &P, phase: SshHardenPhase, event: Event) -> StepView<
        SshHardenPhase,
    > {
        let event = if phase is CheckingKeys {
            event
        } else {
            as_run_answer(event)
        };
        match event {
            Event::Error(m) => match phase {
                SshHardenPhase::Restarting => StepView {
                    phase: SshHardenPhase::RollingBack(m),
                    notes: seq![
                        (Tone::Failure, "SSH restart failed, rolling back configuration: "@ + m@),
                    ],
                    action: ActionView::Run(restore_command()),
                },
                _ => failed_step(SshHardenPhase::Finished, m@),
            },
            Event::Output(_, status) => match phase {
                SshHardenPhase::BackingUp => if self.password_auth() {
                    self.edits_from(0)
                } else {
                    StepView {
                        phase: SshHardenPhase::CheckingKeys,
                        notes: Seq::empty(),
                        action: ActionView::Query(key_check_command()),
                    }
                },
                SshHardenPhase::CheckingKeys => if status != 0 {
                    StepView {
                        phase: SshHardenPhase::Finished,
                        notes: Seq::empty(),
                        action: ActionView::Fail(ModuleErrorView::MissingAuthorizedKeys),
                    }
                } else {
                    self.edits_from(0)
                },
                SshHardenPhase::Editing(i) => self.edits_from(i + 1),
                SshHardenPhase::Restarting => StepView {
                    phase: SshHardenPhase::Finished,
                    notes: seq![
                        (Tone::Success, "SSH hardened"@),
                        (
                            Tone::Warning,
                            "WARNING: SSH restart with new config. Verify you can still connect!"@,
                        ),
                    ],
                    action: ActionView::Done,
                },
                SshHardenPhase::RollingBack(m) => StepView {
                    phase: SshHardenPhase::Restoring(m),
                    notes: Seq::empty(),
                    action: ActionView::Run(restart_command()),
                },
                SshHardenPhase::Restoring(m) => StepView {
                    phase: SshHardenPhase::Finished,
                    notes: Seq::empty(),
                    action: ActionView::Fail(ModuleErrorView::SshRestartRolledBack(m@)),
                },
                SshHardenPhase::Finished => finished_step(SshHardenPhase::Finished),
            },
        }
    }

    fn name(&self) -> (n: String) {
        String::from_str("ssh_harden")
    }

    fn start(&self, pkg: &P) -> (s: Step<SshHardenPhase>) {
        step(
            SshHardenPhase::BackingUp,
            one_note(Tone::Info, String::from_str("Hardening SSH configuration...")),
            Action::Run(String::from_str("cp /etc/ssh/sshd_config /etc/ssh/sshd_config.bak")),
        )
    }

    fn resume(&self, pkg: &P, phase: SshHardenPhase, event: Event) -> (s: Step<SshHardenPhase>) {
        let is_query = match &phase {
            SshHardenPhase::CheckingKeys => true,
            _ => false,
        };
        let event = if is_query {
            event
        } else {
            to_run_answer(event)
        };
        match event {
            Event::Error(m) => match phase {
                SshHardenPhase::Restarting => {
                    let mut line = String::from_str(
                        "SSH restart failed, rolling back configuration: ",
                    );
                    line.append(m.as_str());
                    step(
                        SshHardenPhase::RollingBack(m),
                        one_note(Tone::Failure, line),
                        Action::Run(
                            String::from_str("cp /etc/ssh/sshd_config.bak /etc/ssh/sshd_config"),
                        ),
                    )
                },
                _ => step(
                    SshHardenPhase::Finished,
                    no_notes(),
                    Action::Fail(ModuleError::CommandFailed(m)),
                ),
            },
            Event::Output(_, status) => match phase {
                SshHardenPhase::BackingUp => if self.password_auth {
                    self.from_edit(0)
                } else {
                    step(
                        SshHardenPhase::CheckingKeys,
                        no_notes(),
                        Action::Query(String::from_str("test -s ~/.ssh/authorized_keys")),
                    )
                },
                SshHardenPhase::CheckingKeys => if status != 0 {
                    step(
                        SshHardenPhase::Finished,
                        no_notes(),
                        Action::Fail(ModuleError::MissingAuthorizedKeys),
                    )
                } else {
                    self.from_edit(0)
                },
                SshHardenPhase::Editing(i) => {
                    assert(edit_plan(self.password_auth(), self.new_port()).len() <= 3);
                    self.from_edit(next_index(i))
                },
                SshHardenPhase::Restarting => step(
                    SshHardenPhase::Finished,
                    two_notes(
                        Tone::Success,
                        String::from_str("SSH hardened"),
                        Tone::Warning,
                        String::from_str(
                            "WARNING: SSH restart with new config. Verify you can still connect!",
                        ),
                    ),
                    Action::Done,
                ),
                SshHardenPhase::RollingBack(m) => step(
                    SshHardenPhase::Restoring(m),
                    no_notes(),
                    Action::Run(String::from_str("systemctl restart sshd")),
                ),
                SshHardenPhase::Restoring(m) => step(
                    SshHardenPhase::Finished,
                    no_notes(),
                    Action::Fail(ModuleError::SshRestartRolledBack(m)),
                ),
                SshHardenPhase::Finished => step(
                    SshHardenPhase::Finished,
                    no_notes(),
                    Action::Fail(ModuleError::Finished),
                ),
            },
        }
    }
}

proof fn lemma_edit_commands_distinct(port: u16)
    ensures
        root_login_command() != password_login_command(),
        root_login_command() != port_command(port),
        root_login_command() != restart_command(),
        root_login_command() != restore_command(),
        password_login_command() != port_command(port),
        password_login_command() != restart_command(),
        password_login_command() != restore_command(),
{
    reveal_strlit("sed -i 's/^#\\?PermitRootLogin.*/PermitRootLogin prohibit-password/' /etc/ssh/sshd_config");
    reveal_strlit("sed -i 's/^#\\?PasswordAuthentication.*/PasswordAuthentication no/' /etc/ssh/sshd_config");
    reveal_strlit("sed -i 's/^#\\?Port .*/Port ");
    reveal_strlit("systemctl restart sshd");
    reveal_strlit("cp /etc/ssh/sshd_config.bak /etc/ssh/sshd_config");
    assert(root_login_command()[15] == 'e');
    assert(password_login_command()[15] == 'a');
    assert(port_command(port)[15] == 'o');
    assert(root_login_command().len() != restart_command().len());
    assert(root_login_command().len() != restore_command().len());
    assert(password_login_command().len() != restart_command().len());
    assert(password_login_command().len() != restore_command().len());
}

/// The configuration is backed up before anything else is done.
pub proof fn ssh_harden_backs_up_first<P: PackageManager>(m: &SshHardenModule, pkg: &P)
    ensures
        <SshHardenModule as Module<P>>::opening(m, pkg).action == ActionView::Run(backup_command()),
        <SshHardenModule as Module<P>>::opening(m, pkg).phase is BackingUp,
{
}

/// Password login is switched off only after `~/.ssh/authorized_keys` was found to hold a
/// key: the root-login edit is asked for only in answer to a key check that exited with 0,
/// and the password edit only right after that edit; neither is asked for when password
/// login stays allowed, nor as the first step.
pub proof fn ssh_password_login_off_only_after_key_check<P: PackageManager>(
    m: &SshHardenModule,
    pkg: &P,
    phase: SshHardenPhase,
    event: Event,
)
    ensures
        ({
            let s = <SshHardenModule as Module<P>>::transition(m, pkg, phase, event);
            &&& s.action == ActionView::Run(root_login_command()) ==> {
                &&& !m.password_auth()
                &&& phase is CheckingKeys
                &&& event matches Event::Output(_, status) && status == 0
            }
            &&& s.action == ActionView::Run(password_login_command()) ==> {
                &&& !m.password_auth()
                &&& phase == SshHardenPhase::Editing(0)
            }
        }),
        <SshHardenModule as Module<P>>::opening(m, pkg).action != ActionView::Run(root_login_command()),
        <SshHardenModule as Module<P>>::opening(m, pkg).action != ActionView::Run(password_login_command()),
{
    reveal_strlit("cp /etc/ssh/sshd_config /etc/ssh/sshd_config.bak");
    reveal_strlit("sed -i 's/^#\\?PermitRootLogin.*/PermitRootLogin prohibit-password/' /etc/ssh/sshd_config");
    reveal_strlit("sed -i 's/^#\\?PasswordAuthentication.*/PasswordAuthentication no/' /etc/ssh/sshd_config");
    assert(backup_command().len() != root_login_command().len());
    assert(backup_command().len() != password_login_command().len());
    let port = match m.new_port() {
        Some(p) => p,
        None => 0,
    };
    lemma_edit_commands_distinct(port);
    let plan = edit_plan(m.password_auth(), m.new_port());
    if m.password_auth() {
        assert(forall|k: int| 0 <= k < plan.len() ==> plan[k] == port_command(port));
    } else {
        assert(plan[0] == root_login_command());
        assert(plan[1] == password_login_command());
        assert(forall|k: int| 2 <= k < plan.len() ==> plan[k] == port_command(port));
    }
}

/// A restart that fails (an error, or an exit status other than 0) puts the backup back and
/// restarts `sshd` with it, and the module then fails with the restart's message; it never
/// ends with `Done` after a failed restart.
pub proof fn ssh_restart_failure_rolls_back<P: PackageManager>(
    m: &SshHardenModule,
    pkg: &P,
    message: String,
    output: String,
    status: i32,
)
    ensures
        <SshHardenModule as Module<P>>::transition(
            m,
            pkg,
            SshHardenPhase::Restarting,
            Event::Error(message),
        ) == (StepView {
            phase: SshHardenPhase::RollingBack(message),
            notes: seq![
                (Tone::Failure, "SSH restart failed, rolling back configuration: "@ + message@),
            ],
            action: ActionView::Run(restore_command()),
        }),
        status != 0 ==> <SshHardenModule as Module<P>>::transition(
            m,
            pkg,
            SshHardenPhase::Restarting,
            Event::Output(output, status),
        ) == (StepView {
            phase: SshHardenPhase::RollingBack(output),
            notes: seq![
                (Tone::Failure, "SSH restart failed, rolling back configuration: "@ + output@),
            ],
            action: ActionView::Run(restore_command()),
        }),
        status == 0 ==> <SshHardenModule as Module<P>>::transition(
            m,
            pkg,
            SshHardenPhase::RollingBack(message),
            Event::Output(output, status),
        ) == (StepView {
            phase: SshHardenPhase::Restoring(message),
            notes: Seq::empty(),
            action: ActionView::Run(restart_command()),
        }),
        status == 0 ==> <SshHardenModule as Module<P>>::transition(
            m,
            pkg,
            SshHardenPhase::Restoring(message),
            Event::Output(output, status),
        ).action == ActionView::Fail(ModuleErrorView::SshRestartRolledBack(message@)),
{
}

} // verus!
