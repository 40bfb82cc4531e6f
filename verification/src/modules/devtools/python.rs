use vstd::prelude::*;

use crate::modules::{
    as_run_answer, to_run_answer,
    failed_step, finished_step, no_notes, one_note, step, Action, ActionView, Event,
    Module, ModuleError, Step, StepView, Tone,
};
use crate::os::PackageManager;
use crate::text::{contains_text, has_piece, texts_of};

verus! {

/// Installs the build dependencies of CPython, then pyenv unless it is there, then the given
/// Python version through pyenv, made the global default.
pub struct PythonModule<'a> {
    version: &'a str,
}

/// Where the Python module stands.
#[derive(Debug, Clone, Copy, PartialEq, Eq, Structural)]
pub enum PythonPhase {
    /// Waiting for the build dependencies to be installed.
    InstallingDependencies,
    /// Waiting for the answer to `command -v pyenv`.
    CheckingPyenv,
    /// Waiting for the pyenv installer.
    InstallingPyenv,
    /// Waiting for `pyenv install`.
    BuildingPython,
    /// Done or failed.
    Finished,
}

/// The packages that building CPython needs.
pub open spec fn python_build_dependencies() -> Seq<Seq<char>> {
    seq![
        "build-essential"@,
        "libssl-dev"@,
        "zlib1g-dev"@,
        "libbz2-dev"@,
        "libreadline-dev"@,
        "libsqlite3-dev"@,
        "wget"@,
        "curl"@,
        "llvm"@,
        "libncursesw5-dev"@,
        "xz-utils"@,
        "tk-dev"@,
        "libxml2-dev"@,
        "libxmlsec1-dev"@,
        "libffi-dev"@,
        "liblzma-dev"@,
    ]
}

pub open spec fn pyenv_check_command() -> Seq<char> {
    "command -v pyenv || true"@
}

pub open spec fn pyenv_install_command() -> Seq<char> {
    "curl https://pyenv.run | bash"@
}

/// The command that builds `version` with pyenv (unless it is there) and makes it global.
pub open spec fn python_build_command(version: Seq<char>) -> Seq<char> {
    "export PYENV_ROOT=\"$HOME/.pyenv\" && export PATH=\"$PYENV_ROOT/bin:$PATH\" && pyenv install -s "@
        + version + " && pyenv global "@ + version
}

impl<'a> PythonModule<'a> {
    pub fn new(version: &'a str) -> (m: Self)
        ensures
            m.version() == version,
    {
        PythonModule { version }
    }

    pub closed spec fn version(&self) -> &'a str {
        self.version
    }

    /// The pyenv check.
    pub open spec fn check_step() -> StepView<PythonPhase> {
        StepView {
            phase: PythonPhase::CheckingPyenv,
            notes: Seq::empty(),
            action: ActionView::Query(pyenv_check_command()),
        }
    }

    /// The build of the requested version.
    pub open spec fn build_step(&self) -> StepView<PythonPhase> {
        StepView {
            phase: PythonPhase::BuildingPython,
            notes: Seq::empty(),
            action: ActionView::Run(python_build_command(self.version()@)),
        }
    }

    fn check() -> (s: Step<PythonPhase>)
        ensures
            s@ == Self::check_step(),
    {
        step(
            PythonPhase::CheckingPyenv,
            no_notes(),
            Action::Query(String::from_str("command -v pyenv || true")),
        )
    }

    fn build(&self) -> (s: Step<PythonPhase>)
        ensures
            s@ == self.build_step(),
    {
        let mut c = String::from_str(
            "export PYENV_ROOT=\"$HOME/.pyenv\" && export PATH=\"$PYENV_ROOT/bin:$PATH\" && pyenv install -s ",
        );
        c.append(self.version);
        c.append(" && pyenv global ");
        c.append(self.version);
        step(PythonPhase::BuildingPython, no_notes(), Action::Run(c))
    }
}

impl<'a, P: PackageManager> Module<P> for PythonModule<'a> {
    type Phase = PythonPhase;

    open spec fn spec_name(&self) -> Seq<char> {
        "python"@
    }

    open spec fn opening(&self, pkg: &P) -> StepView<PythonPhase> {
        match pkg.install_command(python_build_dependencies()) {
            Some(c) => StepView {
                phase: PythonPhase::InstallingDependencies,
                notes: Seq::empty(),
                action: ActionView::Run(c),
            },
            None => Self::check_step(),
        }
    }

    open spec fn transition(&self, pkg: &P, phase: PythonPhase, event: Event) -> StepView<
        PythonPhase,
    > {
        let event = if phase is CheckingPyenv {
            event
        } else {
            as_run_answer(event)
        };
        match event {
            Event::Error(m) => failed_step(PythonPhase::Finished, m@),
            Event::Output(out, _) => match phase {
                PythonPhase::InstallingDependencies => Self::check_step(),
                PythonPhase::CheckingPyenv => if has_piece(out@, "pyenv"@) {
                    self.build_step()
                } else {
                    StepView {
                        phase: PythonPhase::InstallingPyenv,
                        notes: Seq::empty(),
                        action: ActionView::Run(pyenv_install_command()),
                    }
                },
                PythonPhase::InstallingPyenv => self.build_step(),
                PythonPhase::BuildingPython => StepView {
                    phase: PythonPhase::Finished,
                    notes: seq![(Tone::Success, "Python "@ + self.version()@ + " installed"@)],
                    action: ActionView::Done,
                },
                PythonPhase::Finished => finished_step(PythonPhase::Finished),
            },
        }
    }

    fn name(&self) -> (n: String) {
        String::from_str("python")
    }

    fn start(&self, pkg: &P) -> (s: Step<PythonPhase>) {
        let deps: Vec<&str> = vec![
            "build-essential",
            "libssl-dev",
            "zlib1g-dev",
            "libbz2-dev",
            "libreadline-dev",
            "libsqlite3-dev",
            "wget",
            "curl",
            "llvm",
            "libncursesw5-dev",
            "xz-utils",
            "tk-dev",
            "libxml2-dev",
            "libxmlsec1-dev",
            "libffi-dev",
            "liblzma-dev",
        ];
        assert(texts_of(deps@) =~= python_build_dependencies());
        match pkg.install(deps.as_slice()) {
            Some(c) => step(PythonPhase::InstallingDependencies, no_notes(), Action::Run(c)),
            None => Self::check(),
        }
    }

    fn resume(&self, pkg: &P, phase: PythonPhase, event: Event) -> (s: Step<PythonPhase>) {
        let is_query = match &phase {
            PythonPhase::CheckingPyenv => true,
            _ => false,
        };
        let event = if is_query {
            event
        } else {
            to_run_answer(event)
        };
        match event {
            Event::Error(m) => step(
                PythonPhase::Finished,
                no_notes(),
                Action::Fail(ModuleError::CommandFailed(m)),
            ),
            Event::Output(out, _) => match phase {
                PythonPhase::InstallingDependencies => Self::check(),
                PythonPhase::CheckingPyenv => if contains_text(out.as_str(), "pyenv") {
                    self.build()
                } else {
                    step(
                        PythonPhase::InstallingPyenv,
                        no_notes(),
                        Action::Run(String::from_str("curl https://pyenv.run | bash")),
                    )
                },
                PythonPhase::InstallingPyenv => self.build(),
                PythonPhase::BuildingPython => {
                    let mut line = String::from_str("Python ");
                    line.append(self.version);
                    line.append(" installed");
                    step(PythonPhase::Finished, one_note(Tone::Success, line), Action::Done)
                },
                PythonPhase::Finished => step(
                    PythonPhase::Finished,
                    no_notes(),
                    Action::Fail(ModuleError::Finished),
                ),
            },
        }
    }
}

/// pyenv is installed only when the check does not find it: when the answer to
/// `command -v pyenv` mentions `pyenv`, the module goes straight to building Python.
pub proof fn python_keeps_existing_pyenv<'a, P: PackageManager>(
    m: &PythonModule<'a>,
    pkg: &P,
    output: String,
    status: i32,
)
    ensures
        has_piece(output@, "pyenv"@) ==> <PythonModule<'a> as Module<P>>::transition(
            m,
            pkg,
            PythonPhase::CheckingPyenv,
            Event::Output(output, status),
        ).action == ActionView::Run(python_build_command(m.version()@)),
        !has_piece(output@, "pyenv"@) ==> <PythonModule<'a> as Module<P>>::transition(
            m,
            pkg,
            PythonPhase::CheckingPyenv,
            Event::Output(output, status),
        ).action == ActionView::Run(pyenv_install_command()),
{
}


/// The first command installs everything that building CPython needs: whatever the package
/// manager, the module starts with its install command for a list that holds each of the
/// sixteen build dependencies, or goes straight to the pyenv check where the package manager
/// has no install command.
pub proof fn python_installs_the_build_dependencies<'a, P: PackageManager>(
    m: &PythonModule<'a>,
    pkg: &P,
)
    ensures
        ({
            let deps = python_build_dependencies();
            &&& deps.len() == 16
            &&& deps.contains("build-essential"@)
            &&& deps.contains("libssl-dev"@)
            &&& deps.contains("zlib1g-dev"@)
            &&& deps.contains("libbz2-dev"@)
            &&& deps.contains("libreadline-dev"@)
            &&& deps.contains("libsqlite3-dev"@)
            &&& deps.contains("wget"@)
            &&& deps.contains("curl"@)
            &&& deps.contains("llvm"@)
            &&& deps.contains("libncursesw5-dev"@)
            &&& deps.contains("xz-utils"@)
            &&& deps.contains("tk-dev"@)
            &&& deps.contains("libxml2-dev"@)
            &&& deps.contains("libxmlsec1-dev"@)
            &&& deps.contains("libffi-dev"@)
            &&& deps.contains("liblzma-dev"@)
            &&& match pkg.install_command(deps) {
                Some(c) => <PythonModule<'a> as Module<P>>::opening(m, pkg).action
                    == ActionView::Run(c),
                None => <PythonModule<'a> as Module<P>>::opening(m, pkg).action
                    == ActionView::Query(pyenv_check_command()),
            }
        }),
{
    let deps = python_build_dependencies();
    assert(deps[0] == "build-essential"@);
    assert(deps[1] == "libssl-dev"@);
    assert(deps[2] == "zlib1g-dev"@);
    assert(deps[3] == "libbz2-dev"@);
    assert(deps[4] == "libreadline-dev"@);
    assert(deps[5] == "libsqlite3-dev"@);
    assert(deps[6] == "wget"@);
    assert(deps[7] == "curl"@);
    assert(deps[8] == "llvm"@);
    assert(deps[9] == "libncursesw5-dev"@);
    assert(deps[10] == "xz-utils"@);
    assert(deps[11] == "tk-dev"@);
    assert(deps[12] == "libxml2-dev"@);
    assert(deps[13] == "libxmlsec1-dev"@);
    assert(deps[14] == "libffi-dev"@);
    assert(deps[15] == "liblzma-dev"@);
}

} // verus!
