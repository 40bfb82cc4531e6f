use vstd::prelude::*;

use crate::modules::{
    as_run_answer, to_run_answer,
    failed_step, finished_step, next_index, no_notes, one_note, plan_step, plan_step_view,
    push_text, step, texts, Action, ActionView, Event, Module, ModuleError, ModuleErrorView, Step,
    StepView, Tone,
};
use crate::os::PackageManager;
use crate::text::{contains_text, has_piece, text_eq, trim_spaces, trimmed};

verus! {

/// Installs the given Go version from the official tarball under `/usr/local/go`, unless a
/// `go` command is already there.
pub struct GoModule<'a> {
    version: &'a str,
}

/// The processor architectures that have a Go download.
#[derive(Debug, Clone, Copy, PartialEq, Eq, Structural)]
pub enum GoArch {
    Amd64,
    Arm64,
}

/// Where the Go module stands.
#[derive(Debug, Clone, Copy, PartialEq, Eq, Structural)]
pub enum GoPhase {
    /// Waiting for the answer to `go version`.
    CheckingGo,
    /// Waiting for the answer to `uname -m`.
    CheckingArch,
    /// Waiting for the command at this index of the install plan for this architecture.
    Installing(GoArch, usize),
    /// Done or failed.
    Finished,
}

pub open spec fn go_check_command() -> Seq<char> {
    "go version 2>/dev/null || true"@
}

pub open spec fn arch_command() -> Seq<char> {
    "uname -m"@
}

/// Go's name for an architecture.
pub open spec fn arch_name(arch: GoArch) -> Seq<char> {
    match arch {
        GoArch::Amd64 => "amd64"@,
        GoArch::Arm64 => "arm64"@,
    }
}

/// The architecture that `uname -m` reports, once trimmed.
pub open spec fn arch_for_machine(machine: Seq<char>) -> Option<GoArch> {
    if machine == "x86_64"@ {
        Some(GoArch::Amd64)
    } else if machine == "aarch64"@ {
        Some(GoArch::Arm64)
    } else {
        None
    }
}

/// Where the tarball of `version` for `arch` is downloaded from.
pub open spec fn go_download_url(version: Seq<char>, arch: GoArch) -> Seq<char> {
    "https://go.dev/dl/go"@ + version + ".linux-"@ + arch_name(arch) + ".tar.gz"@
}

/// The commands that download, unpack and put Go on the `PATH`.
pub open spec fn go_install_plan(version: Seq<char>, arch: GoArch) -> Seq<Seq<char>> {
    seq![
        "wget -q "@ + go_download_url(version, arch) + " -O /tmp/go.tar.gz"@,
        "sudo sh -c 'rm -rf /usr/local/go && tar -C /usr/local -xzf /tmp/go.tar.gz'"@,
        "sudo sh -c 'echo \"export PATH=$PATH:/usr/local/go/bin\" > /etc/profile.d/go.sh'"@,
        "rm /tmp/go.tar.gz"@,
    ]
}

impl<'a> GoModule<'a> {
    pub fn new(version: &'a str) -> (m: Self)
        ensures
            m.version() == version,
    {
        GoModule { version }
    }

    pub closed spec fn version(&self) -> &'a str {
        self.version
    }

    pub open spec fn plan_from(&self, arch: GoArch, index: int) -> StepView<GoPhase> {
        plan_step_view(
            go_install_plan(self.version()@, arch),
            index,
            GoPhase::Installing(arch, index as usize),
            GoPhase::Finished,
            seq![(Tone::Success, "Go "@ + self.version()@ + " installed"@)],
        )
    }

    fn plan(&self, arch: GoArch) -> (v: Vec<String>)
        ensures
            texts(v@) == go_install_plan(self.version()@, arch),
    {
        let mut v: Vec<String> = Vec::new();
        let mut c = String::from_str("wget -q https://go.dev/dl/go");
        c.append(self.version);
        c.append(".linux-");
        match arch {
            GoArch::Amd64 => c.append("amd64"),
            GoArch::Arm64 => c.append("arm64"),
        }
        c.append(".tar.gz");
        c.append(" -O /tmp/go.tar.gz");
        proof {
            reveal_strlit("wget -q https://go.dev/dl/go");
            reveal_strlit("wget -q ");
            reveal_strlit("https://go.dev/dl/go");
            assert("wget -q https://go.dev/dl/go"@ =~= "wget -q "@ + "https://go.dev/dl/go"@);
            assert(c@ =~= "wget -q "@ + go_download_url(self.version()@, arch)
                + " -O /tmp/go.tar.gz"@);
        }
        push_text(&mut v, c);
        push_text(
            &mut v,
            String::from_str(
                "sudo sh -c 'rm -rf /usr/local/go && tar -C /usr/local -xzf /tmp/go.tar.gz'",
            ),
        );
        push_text(
            &mut v,
            String::from_str(
                "sudo sh -c 'echo \"export PATH=$PATH:/usr/local/go/bin\" > /etc/profile.d/go.sh'",
            ),
        );
        push_text(&mut v, String::from_str("rm /tmp/go.tar.gz"));
        assert(texts(v@) =~= go_install_plan(self.version()@, arch));
        v
    }

    fn from_index(&self, arch: GoArch, index: usize) -> (s: Step<GoPhase>)
        ensures
            s@ == self.plan_from(arch, index as int),
    {
        let plan = self.plan(arch);
        let mut line = String::from_str("Go ");
        line.append(self.version);
        line.append(" installed");
        plan_step(
            &plan,
            index,
            GoPhase::Installing(arch, index),
            GoPhase::Finished,
            one_note(Tone::Success, line),
        )
    }
}

impl<'a, P: PackageManager> Module<P> for GoModule<'a> {
    type Phase = GoPhase;

    open spec fn spec_name(&self) -> Seq<char> {
        "go"@
    }

    open spec fn opening(&self, pkg: &P) -> StepView<GoPhase> {
        StepView {
            phase: GoPhase::CheckingGo,
            notes: Seq::empty(),
            action: ActionView::Query(go_check_command()),
        }
    }

    open spec fn transition(&self, pkg: &P, phase: GoPhase, event: Event) -> StepView<GoPhase> {
        let event = if phase is CheckingGo || phase is CheckingArch {
            event
        } else {
            as_run_answer(event)
        };
        match event {
            Event::Error(m) => failed_step(GoPhase::Finished, m@),
            Event::Output(out, _) => match phase {
                GoPhase::CheckingGo => if has_piece(out@, "go"@) {
                    StepView {
                        phase: GoPhase::Finished,
                        notes: seq![(Tone::Success, "Go already installed"@)],
                        action: ActionView::Done,
                    }
                } else {
                    StepView {
                        phase: GoPhase::CheckingArch,
                        notes: Seq::empty(),
                        action: ActionView::Query(arch_command()),
                    }
                },
                GoPhase::CheckingArch => match arch_for_machine(trim_spaces(out@)) {
                    Some(arch) => self.plan_from(arch, 0),
                    None => StepView {
                        phase: GoPhase::Finished,
                        notes: Seq::empty(),
                        action: ActionView::Fail(
                            ModuleErrorView::UnsupportedArchitecture(trim_spaces(out@)),
                        ),
                    },
                },
                GoPhase::Installing(arch, i) => self.plan_from(arch, i + 1),
                GoPhase::Finished => finished_step(GoPhase::Finished),
            },
        }
    }

    fn name(&self) -> (n: String) {
        String::from_str("go")
    }

    fn start(&self, pkg: &P) -> (s: Step<GoPhase>) {
        step(
            GoPhase::CheckingGo,
            no_notes(),
            Action::Query(String::from_str("go version 2>/dev/null || true")),
        )
    }

    fn resume(&self, pkg: &P, phase: GoPhase, event: Event) -> (s: Step<GoPhase>) {
        let is_query = match &phase {
            GoPhase::CheckingGo | GoPhase::CheckingArch => true,
            _ => false,
        };
        let event = if is_query {
            event
        } else {
            to_run_answer(event)
        };
        match event {
            Event::Error(m) => step(
                GoPhase::Finished,
                no_notes(),
                Action::Fail(ModuleError::CommandFailed(m)),
            ),
            Event::Output(out, _) => match phase {
                GoPhase::CheckingGo => if contains_text(out.as_str(), "go") {
                    step(
                        GoPhase::Finished,
                        one_note(Tone::Success, String::from_str("Go already installed")),
                        Action::Done,
                    )
                } else {
                    step(
                        GoPhase::CheckingArch,
                        no_notes(),
                        Action::Query(String::from_str("uname -m")),
                    )
                },
                GoPhase::CheckingArch => {
                    let machine = trimmed(out.as_str());
                    if text_eq(machine.as_str(), "x86_64") {
                        self.from_index(GoArch::Amd64, 0)
                    } else if text_eq(machine.as_str(), "aarch64") {
                        self.from_index(GoArch::Arm64, 0)
                    } else {
                        step(
                            GoPhase::Finished,
                            no_notes(),
                            Action::Fail(ModuleError::UnsupportedArchitecture(machine)),
                        )
                    }
                },
                GoPhase::Installing(arch, i) => self.from_index(arch, next_index(i)),
                GoPhase::Finished => step(
                    GoPhase::Finished,
                    no_notes(),
                    Action::Fail(ModuleError::Finished),
                ),
            },
        }
    }
}

/// A host with a `go` command is left as it is: when the answer to `go version` mentions
/// `go`, the module ends without running anything. A command that fails stops the module
/// with its message.
pub proof fn go_leaves_installed_host_alone<'a, P: PackageManager>(
    m: &GoModule<'a>,
    pkg: &P,
    phase: GoPhase,
    output: String,
    status: i32,
    message: String,
)
    ensures
        <GoModule<'a> as Module<P>>::opening(m, pkg).action == ActionView::Query(
            go_check_command(),
        ),
        has_piece(output@, "go"@) ==> <GoModule<'a> as Module<P>>::transition(
            m,
            pkg,
            GoPhase::CheckingGo,
            Event::Output(output, status),
        ).action == ActionView::Done,
        <GoModule<'a> as Module<P>>::transition(m, pkg, phase, Event::Error(message)).action
            == ActionView::Fail(ModuleErrorView::CommandFailed(message@)),
{
}


/// The tarball fits the machine: when `uname -m` answers `x86_64` the module downloads
/// `go<version>.linux-amd64.tar.gz`, when it answers `aarch64` it downloads
/// `go<version>.linux-arm64.tar.gz`, so the two machines never get the same tarball.
pub proof fn go_downloads_the_tarball_for_the_machine<'a, P: PackageManager>(
    m: &GoModule<'a>,
    pkg: &P,
    output: String,
    status: i32,
)
    ensures
        trim_spaces(output@) == "x86_64"@ ==> <GoModule<'a> as Module<P>>::transition(
            m,
            pkg,
            GoPhase::CheckingArch,
            Event::Output(output, status),
        ).action == ActionView::Run(
            "wget -q https://go.dev/dl/go"@ + m.version()@ + ".linux-amd64.tar.gz -O /tmp/go.tar.gz"@,
        ),
        trim_spaces(output@) == "aarch64"@ ==> <GoModule<'a> as Module<P>>::transition(
            m,
            pkg,
            GoPhase::CheckingArch,
            Event::Output(output, status),
        ).action == ActionView::Run(
            "wget -q https://go.dev/dl/go"@ + m.version()@ + ".linux-arm64.tar.gz -O /tmp/go.tar.gz"@,
        ),
        go_install_plan(m.version()@, GoArch::Amd64)[0] != go_install_plan(
            m.version()@,
            GoArch::Arm64,
        )[0],
{
    reveal_strlit("x86_64");
    reveal_strlit("aarch64");
    reveal_strlit("wget -q ");
    reveal_strlit("https://go.dev/dl/go");
    reveal_strlit(".linux-");
    reveal_strlit("amd64");
    reveal_strlit("arm64");
    reveal_strlit(".tar.gz");
    reveal_strlit(" -O /tmp/go.tar.gz");
    reveal_strlit("wget -q https://go.dev/dl/go");
    reveal_strlit(".linux-amd64.tar.gz -O /tmp/go.tar.gz");
    reveal_strlit(".linux-arm64.tar.gz -O /tmp/go.tar.gz");
    assert("aarch64"@.len() != "x86_64"@.len());
    assert(arch_for_machine("aarch64"@) == Some(GoArch::Arm64));
    assert(arch_for_machine("x86_64"@) == Some(GoArch::Amd64));
    let v = m.version()@;
    assert(go_install_plan(v, GoArch::Amd64)[0]
        =~= "wget -q https://go.dev/dl/go"@ + v + ".linux-amd64.tar.gz -O /tmp/go.tar.gz"@);
    assert(go_install_plan(v, GoArch::Arm64)[0]
        =~= "wget -q https://go.dev/dl/go"@ + v + ".linux-arm64.tar.gz -O /tmp/go.tar.gz"@);
    let a = go_install_plan(v, GoArch::Amd64)[0];
    let b = go_install_plan(v, GoArch::Arm64)[0];
    assert(a[28 + v.len() + 8int] == 'm');
    assert(b[28 + v.len() + 8int] == 'r');
}

} // verus!
