use vstd::prelude::*;

use crate::modules::{
    failed_step, finished_step, next_index, no_notes, one_note, opt_seq, plan_step, plan_step_view,
    push_some, step, texts, Action, ActionView, Event, Module, ModuleError, ModuleErrorView, Step, StepView, Tone,
};
use crate::os::PackageManager;

verus! {

/// Installs nginx, and enables and starts its service.
pub struct NginxModule;

/// Where the nginx module stands.
#[derive(Debug, Clone, Copy, PartialEq, Eq, Structural)]
pub enum NginxPhase {
    /// Waiting for the answer to the "is nginx installed" query.
    Checking,
    /// Waiting for the command at this index of the install plan.
    Installing(usize),
    /// Done or failed.
    Finished,
}

impl NginxModule {
    /// The commands that install, enable and start nginx.
    pub open spec fn install_plan<P: PackageManager>(pkg: &P) -> Seq<Seq<char>> {
        opt_seq(pkg.install_command(seq!["nginx"@])) + opt_seq(pkg.enable_command("nginx"@))
            + opt_seq(pkg.start_command("nginx"@))
    }

    pub open spec fn plan_from<P: PackageManager>(pkg: &P, index: int) -> StepView<NginxPhase> {
        plan_step_view(
            Self::install_plan(pkg),
            index,
            NginxPhase::Installing(index as usize),
            NginxPhase::Finished,
            seq![(Tone::Success, "nginx installed"@)],
        )
    }

    fn plan<P: PackageManager>(pkg: &P) -> (v: Vec<String>)
        ensures
            texts(v@) == Self::install_plan(pkg),
    {
        let mut v: Vec<String> = Vec::new();
        let names: Vec<&str> = vec!["nginx"];
        assert(crate::text::texts_of(names@) =~= seq!["nginx"@]);
        push_some(&mut v, pkg.install(names.as_slice()));
        push_some(&mut v, pkg.enable_service("nginx"));
        push_some(&mut v, pkg.start_service("nginx"));
        assert(texts(v@) =~= Self::install_plan(pkg));
        v
    }

    fn from_index<P: PackageManager>(pkg: &P, index: usize) -> (s: Step<NginxPhase>)
        ensures
            s@ == Self::plan_from(pkg, index as int),
    {
        let plan = Self::plan(pkg);
        plan_step(
            &plan,
            index,
            NginxPhase::Installing(index),
            NginxPhase::Finished,
            one_note(Tone::Success, String::from_str("nginx installed")),
        )
    }
}

impl<P: PackageManager> Module<P> for NginxModule {
    type Phase = NginxPhase;

    open spec fn spec_name(&self) -> Seq<char> {
        "nginx"@
    }

    open spec fn opening(&self, pkg: &P) -> StepView<NginxPhase> {
        match pkg.installed_query("nginx"@) {
            Some(q) => StepView {
                phase: NginxPhase::Checking,
                notes: Seq::empty(),
                action: ActionView::Query(q),
            },
            None => Self::plan_from(pkg, 0),
        }
    }

    open spec fn transition(
        &self,
        pkg: &P,
        phase: NginxPhase,
        event: Event,
    ) -> StepView<NginxPhase> {
        match event {
            Event::Error(m) => failed_step(NginxPhase::Finished, m@),
            Event::Output(out, status) => match phase {
                NginxPhase::Checking => if pkg.installed_status(status) {
                    StepView {
                        phase: NginxPhase::Finished,
                        notes: seq![(Tone::Success, "nginx already installed"@)],
                        action: ActionView::Done,
                    }
                } else {
                    Self::plan_from(pkg, 0)
                },
                NginxPhase::Installing(i) => if status == 0 {
                    Self::plan_from(pkg, i + 1)
                } else {
                    failed_step(NginxPhase::Finished, out@)
                },
                NginxPhase::Finished => finished_step(NginxPhase::Finished),
            },
        }
    }

    fn name(&self) -> (n: String) {
        String::from_str("nginx")
    }

    fn start(&self, pkg: &P) -> (s: Step<NginxPhase>) {
        match pkg.is_installed("nginx") {
            Some(q) => step(NginxPhase::Checking, no_notes(), Action::Query(q)),
            None => Self::from_index(pkg, 0),
        }
    }

    fn resume(&self, pkg: &P, phase: NginxPhase, event: Event) -> (s: Step<
        NginxPhase,
    >) {
        match event {
            Event::Error(m) => step(NginxPhase::Finished, no_notes(), Action::Fail(ModuleError::CommandFailed(m))),
            Event::Output(out, status) => match phase {
                NginxPhase::Checking => if pkg.is_installed_status(status) {
                    step(
                        NginxPhase::Finished,
                        one_note(Tone::Success, String::from_str("nginx already installed")),
                        Action::Done,
                    )
                } else {
                    Self::from_index(pkg, 0)
                },
                NginxPhase::Installing(i) => if status != 0 {
                    step(NginxPhase::Finished, no_notes(), Action::Fail(ModuleError::CommandFailed(out)))
                } else {
                    let s = Self::from_index(pkg, next_index(i));
                    assert(Self::install_plan(pkg).len() <= 3);
                    s
                },
                NginxPhase::Finished => step(NginxPhase::Finished, no_notes(), Action::Fail(ModuleError::Finished)),
            },
        }
    }
}

/// A host where nginx is already installed is left as it is: the module first asks whether it is installed, and ends without running anything when the answer says so. A command that fails stops the module with its message.
pub proof fn nginx_leaves_installed_host_alone<P: PackageManager>(
    m: &NginxModule,
    pkg: &P,
    phase: NginxPhase,
    output: String,
    status: i32,
    message: String,
)
    ensures
        pkg.installed_query("nginx"@) matches Some(q) ==> <NginxModule as Module<P>>::opening(
            m,
            pkg,
        ).action == ActionView::Query(q),
        pkg.installed_status(status) ==> <NginxModule as Module<P>>::transition(
            m,
            pkg,
            NginxPhase::Checking,
            Event::Output(output, status),
        ).action == ActionView::Done,
        <NginxModule as Module<P>>::transition(m, pkg, phase, Event::Error(message)).action
            == ActionView::Fail(ModuleErrorView::CommandFailed(message@)),
{
}

} // verus!
