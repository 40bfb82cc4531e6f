use vstd::prelude::*;

use crate::modules::{
    failed_step, finished_step, no_notes, one_note, step, Action, ActionView, Event, Module,
    ModuleError, Step, StepView, Tone,
};
use crate::os::PackageManager;

verus! {

/// Installs nvm unless it is there, then Node.js through nvm: the given version, or the
/// current LTS release when none is given.
pub struct NodeModule<'a> {
    version: Option<&'a str>,
}

/// Where the Node.js module stands.
#[derive(Debug, Clone, Copy, PartialEq, Eq, Structural)]
pub enum NodePhase {
    /// Waiting for the answer to the "is nvm installed" check.
    CheckingNvm,
    /// Waiting for the nvm installer.
    InstallingNvm,
    /// Waiting for `nvm install`.
    InstallingNode,
    /// Done or failed.
    Finished,
}

pub open spec fn nvm_check_command() -> Seq<char> {
    "test -s \"$HOME/.nvm/nvm.sh\""@
}

pub open spec fn nvm_install_command() -> Seq<char> {
    "curl -o- https://raw.githubusercontent.com/nvm-sh/nvm/v0.39.7/install.sh | bash"@
}

/// What `nvm install` is asked for: the version, or `--lts`.
pub open spec fn nvm_target(version: Option<Seq<char>>) -> Seq<char> {
    match version {
        Some(v) => v,
        None => "--lts"@,
    }
}

/// The command that installs Node.js through nvm.
pub open spec fn node_install_command(version: Option<Seq<char>>) -> Seq<char> {
    ". \"$HOME/.nvm/nvm.sh\" && nvm install "@ + nvm_target(version)
}

/// How the installed release is named in the final line.
pub open spec fn node_release_name(version: Option<Seq<char>>) -> Seq<char> {
    match version {
        Some(v) => v,
        None => "LTS"@,
    }
}

impl<'a> NodeModule<'a> {
    pub fn new(version: Option<&'a str>) -> (m: Self)
        ensures
            m.version() == version,
    {
        NodeModule { version }
    }

    pub closed spec fn version(&self) -> Option<&'a str> {
        self.version
    }

    pub open spec fn version_text(&self) -> Option<Seq<char>> {
        match self.version() {
            Some(v) => Some(v@),
            None => None,
        }
    }

    pub open spec fn node_step(&self) -> StepView<NodePhase> {
        StepView {
            phase: NodePhase::InstallingNode,
            notes: Seq::empty(),
            action: ActionView::Run(node_install_command(self.version_text())),
        }
    }

    fn node(&self) -> (s: Step<NodePhase>)
        ensures
            s@ == self.node_step(),
    {
        let mut c = String::from_str(". \"$HOME/.nvm/nvm.sh\" && nvm install ");
        match self.version {
            Some(v) => c.append(v),
            None => c.append("--lts"),
        }
        step(NodePhase::InstallingNode, no_notes(), Action::Run(c))
    }
}

impl<'a, P: PackageManager> Module<P> for NodeModule<'a> {
    type Phase = NodePhase;

    open spec fn spec_name(&self) -> Seq<char> {
        "node"@
    }

    open spec fn opening(&self, pkg: &P) -> StepView<NodePhase> {
        StepView {
            phase: NodePhase::CheckingNvm,
            notes: Seq::empty(),
            action: ActionView::Query(nvm_check_command()),
        }
    }

    open spec fn transition(&self, pkg: &P, phase: NodePhase, event: Event) -> StepView<
        NodePhase,
    > {
        match event {
            Event::Error(m) => failed_step(NodePhase::Finished, m@),
            Event::Output(out, status) => match phase {
                NodePhase::CheckingNvm => if status == 0 {
                    self.node_step()
                } else {
                    StepView {
                        phase: NodePhase::InstallingNvm,
                        notes: Seq::empty(),
                        action: ActionView::Run(nvm_install_command()),
                    }
                },
                NodePhase::InstallingNvm => if status == 0 {
                    self.node_step()
                } else {
                    failed_step(NodePhase::Finished, out@)
                },
                NodePhase::InstallingNode => if status != 0 {
                    failed_step(NodePhase::Finished, out@)
                } else {
                    StepView {
                    phase: NodePhase::Finished,
                    notes: seq![
                        (
                            Tone::Success,
                            "Node.js "@ + node_release_name(self.version_text()) + " installed"@,
                        ),
                    ],
                    action: ActionView::Done,
                    }
                },
                NodePhase::Finished => finished_step(NodePhase::Finished),
            },
        }
    }

    fn name(&self) -> (n: String) {
        String::from_str("node")
    }

    fn start(&self, pkg: &P) -> (s: Step<NodePhase>) {
        step(
            NodePhase::CheckingNvm,
            no_notes(),
            Action::Query(String::from_str("test -s \"$HOME/.nvm/nvm.sh\"")),
        )
    }

    fn resume(&self, pkg: &P, phase: NodePhase, event: Event) -> (s: Step<NodePhase>) {
        match event {
            Event::Error(m) => step(
                NodePhase::Finished,
                no_notes(),
                Action::Fail(ModuleError::CommandFailed(m)),
            ),
            Event::Output(out, status) => match phase {
                NodePhase::CheckingNvm => if status == 0 {
                    self.node()
                } else {
                    step(
                        NodePhase::InstallingNvm,
                        no_notes(),
                        Action::Run(
                            String::from_str(
                                "curl -o- https://raw.githubusercontent.com/nvm-sh/nvm/v0.39.7/install.sh | bash",
                            ),
                        ),
                    )
                },
                NodePhase::InstallingNvm => if status == 0 {
                    self.node()
                } else {
                    step(NodePhase::Finished, no_notes(), Action::Fail(ModuleError::CommandFailed(out)))
                },
                NodePhase::InstallingNode => if status != 0 {
                    step(NodePhase::Finished, no_notes(), Action::Fail(ModuleError::CommandFailed(out)))
                } else {
                    let mut line = String::from_str("Node.js ");
                    match self.version {
                        Some(v) => line.append(v),
                        None => line.append("LTS"),
                    }
                    line.append(" installed");
                    step(NodePhase::Finished, one_note(Tone::Success, line), Action::Done)
                },
                NodePhase::Finished => step(
                    NodePhase::Finished,
                    no_notes(),
                    Action::Fail(ModuleError::Finished),
                ),
            },
        }
    }
}

/// nvm is installed only when it is not there: after a check that finds it, the module goes
/// straight to installing Node.js.
pub proof fn node_keeps_existing_nvm<'a, P: PackageManager>(
    m: &NodeModule<'a>,
    pkg: &P,
    output: String,
    status: i32,
)
    ensures
        status == 0 ==> <NodeModule<'a> as Module<P>>::transition(
            m,
            pkg,
            NodePhase::CheckingNvm,
            Event::Output(output, status),
        ).action == ActionView::Run(node_install_command(m.version_text())),
        status != 0 ==> <NodeModule<'a> as Module<P>>::transition(
            m,
            pkg,
            NodePhase::CheckingNvm,
            Event::Output(output, status),
        ).action == ActionView::Run(nvm_install_command()),
{
}

} // verus!
