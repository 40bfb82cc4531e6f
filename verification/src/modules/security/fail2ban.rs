use vstd::prelude::*;

use crate::modules::{
    failed_step, finished_step, next_index, no_notes, one_note, opt_seq, plan_step, plan_step_view,
    push_some, push_text, step, texts, Action, ActionView, Event, Module, ModuleError, ModuleErrorView, Step, StepView, Tone,
};
use crate::os::PackageManager;

verus! {

/// Installs fail2ban, turns on its jail for SSH, and enables and starts its service.
pub struct Fail2BanModule;

/// Where the module stands.
#[derive(Debug, Clone, Copy, PartialEq, Eq, Structural)]
pub enum Fail2BanPhase {
    /// Waiting for the answer to the "is fail2ban installed" query.
    Checking,
    /// Waiting for the command at this index of the install plan.
    Installing(usize),
    /// Done or failed.
    Finished,
}

/// The command that turns on fail2ban's jail for the SSH daemon.
pub open spec fn fail2ban_jail_command() -> Seq<char> {
    "sudo sh -c 'printf \"[sshd]\\nenabled = true\\n\" > /etc/fail2ban/jail.d/sshd.local'"@
}

impl Fail2BanModule {
    /// The commands that install fail2ban, turn on its SSH jail, and enable and start it.
    pub open spec fn install_plan<P: PackageManager>(pkg: &P) -> Seq<Seq<char>> {
        opt_seq(pkg.install_command(seq!["fail2ban"@])) + seq![fail2ban_jail_command()] + opt_seq(
            pkg.enable_command("fail2ban"@),
        ) + opt_seq(pkg.start_command("fail2ban"@))
    }

    pub open spec fn plan_from<P: PackageManager>(pkg: &P, index: int) -> StepView<Fail2BanPhase> {
        plan_step_view(
            Self::install_plan(pkg),
            index,
            Fail2BanPhase::Installing(index as usize),
            Fail2BanPhase::Finished,
            seq![(Tone::Success, "fail2ban installed"@)],
        )
    }

    fn plan<P: PackageManager>(pkg: &P) -> (v: Vec<String>)
        ensures
            texts(v@) == Self::install_plan(pkg),
    {
        let mut v: Vec<String> = Vec::new();
        let names: Vec<&str> = vec!["fail2ban"];
        assert(crate::text::texts_of(names@) =~= seq!["fail2ban"@]);
        push_some(&mut v, pkg.install(names.as_slice()));
        push_text(
            &mut v,
            String::from_str(
                "sudo sh -c 'printf \"[sshd]\\nenabled = true\\n\" > /etc/fail2ban/jail.d/sshd.local'",
            ),
        );
        push_some(&mut v, pkg.enable_service("fail2ban"));
        push_some(&mut v, pkg.start_service("fail2ban"));
        assert(texts(v@) =~= Self::install_plan(pkg));
        v
    }

    fn from_index<P: PackageManager>(pkg: &P, index: usize) -> (s: Step<Fail2BanPhase>)
        ensures
            s@ == Self::plan_from(pkg, index as int),
    {
        let plan = Self::plan(pkg);
        plan_step(
            &plan,
            index,
            Fail2BanPhase::Installing(index),
            Fail2BanPhase::Finished,
            one_note(Tone::Success, String::from_str("fail2ban installed")),
        )
    }
}

impl<P: PackageManager> Module<P> for Fail2BanModule {
    type Phase = Fail2BanPhase;

    open spec fn spec_name(&self) -> Seq<char> {
        "fail2ban"@
    }

    open spec fn opening(&self, pkg: &P) -> StepView<Fail2BanPhase> {
        match pkg.installed_query("fail2ban"@) {
            Some(q) => StepView {
                phase: Fail2BanPhase::Checking,
                notes: Seq::empty(),
                action: ActionView::Query(q),
            },
            None => Self::plan_from(pkg, 0),
        }
    }

    open spec fn transition(
        &self,
        pkg: &P,
        phase: Fail2BanPhase,
        event: Event,
    ) -> StepView<Fail2BanPhase> {
        match event {
            Event::Error(m) => failed_step(Fail2BanPhase::Finished, m@),
            Event::Output(out, status) => match phase {
                Fail2BanPhase::Checking => if pkg.installed_status(status) {
                    StepView {
                        phase: Fail2BanPhase::Finished,
                        notes: seq![(Tone::Success, "fail2ban already installed"@)],
                        action: ActionView::Done,
                    }
                } else {
                    Self::plan_from(pkg, 0)
                },
                Fail2BanPhase::Installing(i) => if status == 0 {
                    Self::plan_from(pkg, i + 1)
                } else {
                    failed_step(Fail2BanPhase::Finished, out@)
                },
                Fail2BanPhase::Finished => finished_step(Fail2BanPhase::Finished),
            },
        }
    }

    fn name(&self) -> (n: String) {
        String::from_str("fail2ban")
    }

    fn start(&self, pkg: &P) -> (s: Step<Fail2BanPhase>) {
        match pkg.is_installed("fail2ban") {
            Some(q) => step(Fail2BanPhase::Checking, no_notes(), Action::Query(q)),
            None => Self::from_index(pkg, 0),
        }
    }

    fn resume(&self, pkg: &P, phase: Fail2BanPhase, event: Event) -> (s: Step<
        Fail2BanPhase,
    >) {
        match event {
            Event::Error(m) => step(Fail2BanPhase::Finished, no_notes(), Action::Fail(ModuleError::CommandFailed(m))),
            Event::Output(out, status) => match phase {
                Fail2BanPhase::Checking => if pkg.is_installed_status(status) {
                    step(
                        Fail2BanPhase::Finished,
                        one_note(Tone::Success, String::from_str("fail2ban already installed")),
                        Action::Done,
                    )
                } else {
                    Self::from_index(pkg, 0)
                },
                Fail2BanPhase::Installing(i) => if status != 0 {
                    step(Fail2BanPhase::Finished, no_notes(), Action::Fail(ModuleError::CommandFailed(out)))
                } else {
                    let s = Self::from_index(pkg, next_index(i));
                    assert(Self::install_plan(pkg).len() <= 4);
                    s
                },
                Fail2BanPhase::Finished => step(Fail2BanPhase::Finished, no_notes(), Action::Fail(ModuleError::Finished)),
            },
        }
    }
}

/// A host where fail2ban is already installed is left as it is: the module first asks whether it is installed, and ends without running anything when the answer says so. A command that fails stops the module with its message.
pub proof fn fail2ban_leaves_installed_host_alone<P: PackageManager>(
    m: &Fail2BanModule,
    pkg: &P,
    phase: Fail2BanPhase,
    output: String,
    status: i32,
    message: String,
)
    ensures
        pkg.installed_query("fail2ban"@) matches Some(q) ==> <Fail2BanModule as Module<P>>::opening(
            m,
            pkg,
        ).action == ActionView::Query(q),
        pkg.installed_status(status) ==> <Fail2BanModule as Module<P>>::transition(
            m,
            pkg,
            Fail2BanPhase::Checking,
            Event::Output(output, status),
        ).action == ActionView::Done,
        <Fail2BanModule as Module<P>>::transition(m, pkg, phase, Event::Error(message)).action
            == ActionView::Fail(ModuleErrorView::CommandFailed(message@)),
{
}

} // verus!
