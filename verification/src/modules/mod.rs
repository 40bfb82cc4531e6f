pub mod devtools;
pub mod security;
pub mod services;

use vstd::prelude::*;

use crate::os::PackageManager;

verus! {

/// How a line of progress output is shown.
#[derive(Debug, Clone, Copy, PartialEq, Eq, Structural)]
pub enum Tone {
    /// A plain progress line.
    Info,
    /// A check mark: something was done or found done.
    Success,
    /// A warning sign.
    Warning,
    /// A cross: something went wrong.
    Failure,
}

/// A line of progress output.
pub struct Note {
    pub tone: Tone,
    pub text: String,
}

impl View for Note {
    type V = (Tone, Seq<char>);

    open spec fn view(&self) -> (Tone, Seq<char>) {
        (self.tone, self.text@)
    }
}

/// Why a provisioning module stopped without finishing its work.
#[derive(Debug)]
pub enum ModuleError {
    /// A remote command failed; the executor's message.
    CommandFailed(String),
    /// `uname -m` named an architecture that has no Go download.
    UnsupportedArchitecture(String),
    /// Password login was to be disabled, but `~/.ssh/authorized_keys` is missing or empty.
    MissingAuthorizedKeys,
    /// `sshd` did not restart with the new configuration; the backup was put back.
    SshRestartRolledBack(String),
    /// A firewall command failed after others had changed the firewall; those changes were
    /// undone.
    FirewallRolledBack(String),
    /// The module had already finished; there is nothing left to do.
    Finished,
}

impl ModuleError {
    /// The message shown for the error.
    pub fn message(&self) -> (m: String)
        ensures
            m@ == match self {
                ModuleError::CommandFailed(msg) => msg@,
                ModuleError::UnsupportedArchitecture(a) => "Unsupported architecture: "@ + a@,
                ModuleError::MissingAuthorizedKeys => "SSH hardening aborted: ~/.ssh/authorized_keys does not exist or is empty. Add an SSH public key first, then re-run. Without password auth, you would be locked out of your VPS."@,
                ModuleError::SshRestartRolledBack(msg) => "SSH hardening failed and configuration was rolled back: "@ + msg@,
                ModuleError::FirewallRolledBack(msg) => "Firewall configuration failed and was rolled back: "@ + msg@,
                ModuleError::Finished => "the module has already finished"@,
            },
    {
        match self {
            ModuleError::CommandFailed(msg) => msg.clone(),
            ModuleError::UnsupportedArchitecture(a) => {
                let mut m = String::from_str("Unsupported architecture: ");
                m.append(a.as_str());
                m
            },
            ModuleError::MissingAuthorizedKeys => String::from_str(
                "SSH hardening aborted: ~/.ssh/authorized_keys does not exist or is empty. Add an SSH public key first, then re-run. Without password auth, you would be locked out of your VPS.",
            ),
            ModuleError::SshRestartRolledBack(msg) => {
                let mut m = String::from_str(
                    "SSH hardening failed and configuration was rolled back: ",
                );
                m.append(msg.as_str());
                m
            },
            ModuleError::FirewallRolledBack(msg) => {
                let mut m = String::from_str("Firewall configuration failed and was rolled back: ");
                m.append(msg.as_str());
                m
            },
            ModuleError::Finished => String::from_str("the module has already finished"),
        }
    }
}

/// `ModuleError` with its texts as character sequences.
pub enum ModuleErrorView {
    CommandFailed(Seq<char>),
    UnsupportedArchitecture(Seq<char>),
    MissingAuthorizedKeys,
    SshRestartRolledBack(Seq<char>),
    FirewallRolledBack(Seq<char>),
    Finished,
}

impl View for ModuleError {
    type V = ModuleErrorView;

    open spec fn view(&self) -> ModuleErrorView {
        match self {
            ModuleError::CommandFailed(m) => ModuleErrorView::CommandFailed(m@),
            ModuleError::UnsupportedArchitecture(a) => ModuleErrorView::UnsupportedArchitecture(a@),
            ModuleError::MissingAuthorizedKeys => ModuleErrorView::MissingAuthorizedKeys,
            ModuleError::SshRestartRolledBack(m) => ModuleErrorView::SshRestartRolledBack(m@),
            ModuleError::FirewallRolledBack(m) => ModuleErrorView::FirewallRolledBack(m@),
            ModuleError::Finished => ModuleErrorView::Finished,
        }
    }
}

/// What a module asks its runner to do next.
pub enum Action {
    /// Run the command on the host; it must succeed. Answer with
    /// `Event::Output(output, status)`, or with `Event::Error` when it could not be run or
    /// failed; every module takes an exit status other than 0 as a failure, with the output
    /// as its message.
    Run(String),
    /// Run the command on the host and report its output and exit status, whatever it is.
    /// Answer with `Event::Output(output, status)`, or with `Event::Error` when it could
    /// not be run.
    Query(String),
    /// The module is done.
    Done,
    /// The module stopped with an error.
    Fail(ModuleError),
}

/// `Action` with its texts as character sequences.
pub enum ActionView {
    Run(Seq<char>),
    Query(Seq<char>),
    Done,
    Fail(ModuleErrorView),
}

impl View for Action {
    type V = ActionView;

    open spec fn view(&self) -> ActionView {
        match self {
            Action::Run(c) => ActionView::Run(c@),
            Action::Query(c) => ActionView::Query(c@),
            Action::Done => ActionView::Done,
            Action::Fail(e) => ActionView::Fail(e@),
        }
    }
}

/// What the runner tells a module about the command it ran last.
pub enum Event {
    /// The command ran: its standard output and its exit status.
    Output(String, i32),
    /// The command could not be run or (for `Action::Run`) did not succeed: the message.
    Error(String),
}

/// The next state of a module, the lines to print, and the next action.
pub struct Step<Ph> {
    pub phase: Ph,
    pub notes: Vec<Note>,
    pub action: Action,
}

/// `Step` with its texts as character sequences.
pub struct StepView<Ph> {
    pub phase: Ph,
    pub notes: Seq<(Tone, Seq<char>)>,
    pub action: ActionView,
}

impl<Ph> View for Step<Ph> {
    type V = StepView<Ph>;

    open spec fn view(&self) -> StepView<Ph> {
        StepView {
            phase: self.phase,
            notes: self.notes@.map_values(|n: Note| n@),
            action: self.action@,
        }
    }
}

/// A provisioning module: a sequence of remote commands with the decisions between them.
/// The runner calls `start`, performs the action, hands the outcome to `resume`, and goes
/// on until the action is `Done` or `Fail`.
pub trait Module<P: PackageManager> {
    type Phase;

    spec fn spec_name(&self) -> Seq<char>;

    /// The first step.
    spec fn opening(&self, pkg: &P) -> StepView<Self::Phase>;

    /// The step that follows `event` in `phase`.
    spec fn transition(
        &self,
        pkg: &P,
        phase: Self::Phase,
        event: Event,
    ) -> StepView<Self::Phase>;

    fn name(&self) -> (n: String)
        ensures
            n@ == self.spec_name(),
    ;

    fn start(&self, pkg: &P) -> (s: Step<Self::Phase>)
        ensures
            s@ == self.opening(pkg),
    ;

    fn resume(&self, pkg: &P, phase: Self::Phase, event: Event) -> (s: Step<
        Self::Phase,
    >)
        ensures
            s@ == self.transition(pkg, phase, event),
    ;
}

/// A command list entry for a command that may not be needed.
pub open spec fn opt_seq(c: Option<Seq<char>>) -> Seq<Seq<char>> {
    match c {
        Some(t) => seq![t],
        None => Seq::empty(),
    }
}

/// The texts of a list of commands.
pub open spec fn texts(v: Seq<String>) -> Seq<Seq<char>> {
    v.map_values(|s: String| s@)
}

/// Appends `c` to `v` when it is present.
pub fn push_some(v: &mut Vec<String>, c: Option<String>)
    ensures
        texts(final(v)@) == texts(old(v)@) + opt_seq(crate::os::opt_text(c)),
{
    match c {
        Some(t) => {
            v.push(t);
            assert(texts(v@) =~= texts(old(v)@) + seq![t@]);
        },
        None => {
            assert(texts(v@) =~= texts(old(v)@) + Seq::<Seq<char>>::empty());
        },
    }
}

/// Appends `c` to `v`.
pub fn push_text(v: &mut Vec<String>, c: String)
    ensures
        texts(final(v)@) == texts(old(v)@).push(c@),
{
    v.push(c);
    assert(texts(v@) =~= texts(old(v)@).push(c@));
}

/// A line of progress output.
pub fn note(tone: Tone, text: String) -> (n: Note)
    ensures
        n@ == (tone, text@),
{
    Note { tone, text }
}

/// No lines of progress output.
pub fn no_notes() -> (v: Vec<Note>)
    ensures
        v@.map_values(|n: Note| n@) == Seq::<(Tone, Seq<char>)>::empty(),
{
    let v: Vec<Note> = Vec::new();
    assert(v@.map_values(|n: Note| n@) =~= Seq::<(Tone, Seq<char>)>::empty());
    v
}

/// One line of progress output.
pub fn one_note(tone: Tone, text: String) -> (v: Vec<Note>)
    ensures
        v@.map_values(|n: Note| n@) == seq![(tone, text@)],
{
    let mut v: Vec<Note> = Vec::new();
    v.push(Note { tone, text });
    assert(v@.map_values(|n: Note| n@) =~= seq![(tone, text@)]);
    v
}

/// Two lines of progress output.
pub fn two_notes(tone1: Tone, text1: String, tone2: Tone, text2: String) -> (v: Vec<Note>)
    ensures
        v@.map_values(|n: Note| n@) == seq![(tone1, text1@), (tone2, text2@)],
{
    let mut v: Vec<Note> = Vec::new();
    v.push(Note { tone: tone1, text: text1 });
    v.push(Note { tone: tone2, text: text2 });
    assert(v@.map_values(|n: Note| n@) =~= seq![(tone1, text1@), (tone2, text2@)]);
    v
}

/// The step a module takes when a command it asked for failed.
pub open spec fn failed_step<Ph>(phase: Ph, message: Seq<char>) -> StepView<Ph> {
    StepView {
        phase,
        notes: Seq::empty(),
        action: ActionView::Fail(ModuleErrorView::CommandFailed(message)),
    }
}

/// The step of a module that is asked to go on after it finished.
pub open spec fn finished_step<Ph>(phase: Ph) -> StepView<Ph> {
    StepView { phase, notes: Seq::empty(), action: ActionView::Fail(ModuleErrorView::Finished) }
}

/// A step with the given phase, notes and action.
pub fn step<Ph>(phase: Ph, notes: Vec<Note>, action: Action) -> (s: Step<Ph>)
    ensures
        s.phase == phase,
        s.notes == notes,
        s.action == action,
{
    Step { phase, notes, action }
}

/// The step of a module that runs the commands of `plan` one by one: the command at
/// `index` while there is one (in phase `running`), then `Done` with `finish_notes`
/// (in phase `finished`).
pub open spec fn plan_step_view<Ph>(
    plan: Seq<Seq<char>>,
    index: int,
    running: Ph,
    finished: Ph,
    finish_notes: Seq<(Tone, Seq<char>)>,
) -> StepView<Ph> {
    if 0 <= index < plan.len() {
        StepView { phase: running, notes: Seq::empty(), action: ActionView::Run(plan[index]) }
    } else {
        StepView { phase: finished, notes: finish_notes, action: ActionView::Done }
    }
}

/// See `plan_step_view`.
pub fn plan_step<Ph>(
    plan: &Vec<String>,
    index: usize,
    running: Ph,
    finished: Ph,
    finish_notes: Vec<Note>,
) -> (s: Step<Ph>)
    ensures
        s@ == plan_step_view(
            texts(plan@),
            index as int,
            running,
            finished,
            finish_notes@.map_values(|n: Note| n@),
        ),
{
    if index < plan.len() {
        let c = plan[index].clone();
        assert(texts(plan@)[index as int] == plan@[index as int]@);
        Step { phase: running, notes: no_notes(), action: Action::Run(c) }
    } else {
        Step { phase: finished, notes: finish_notes, action: Action::Done }
    }
}

/// What went wrong with a command that had to succeed (`Action::Run`): the runner's message,
/// or the output of a command that exited with a status other than 0; `None` when it
/// succeeded.
pub open spec fn run_failure(event: Event) -> Option<String> {
    match event {
        Event::Error(m) => Some(m),
        Event::Output(o, status) => if status == 0 {
            None
        } else {
            Some(o)
        },
    }
}

/// The answer to a command that had to succeed, with an exit status other than 0 read as
/// the failure it is: such an output becomes `Event::Error` with the output as its message.
pub open spec fn as_run_answer(event: Event) -> Event {
    match event {
        Event::Output(o, status) => if status == 0 {
            Event::Output(o, status)
        } else {
            Event::Error(o)
        },
        Event::Error(m) => Event::Error(m),
    }
}

/// See `as_run_answer`.
pub fn to_run_answer(event: Event) -> (r: Event)
    ensures
        r == as_run_answer(event),
{
    match event {
        Event::Output(o, status) => if status == 0 {
            Event::Output(o, status)
        } else {
            Event::Error(o)
        },
        Event::Error(m) => Event::Error(m),
    }
}

/// See `run_failure`.
pub fn run_outcome(event: Event) -> (r: Option<String>)
    ensures
        r == run_failure(event),
{
    match event {
        Event::Error(m) => Some(m),
        Event::Output(o, status) => if status == 0 {
            None
        } else {
            Some(o)
        },
    }
}

/// The index after `i`, staying at `i` at the top of the range; used only for indices
/// that are past every plan.
pub fn next_index(i: usize) -> (j: usize)
    ensures
        i < usize::MAX ==> j == i + 1,
        i == usize::MAX ==> j == i,
{
    if i < usize::MAX {
        i + 1
    } else {
        i
    }
}

} // verus!
