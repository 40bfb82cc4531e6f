use vstd::prelude::*;

use crate::modules::{
    failed_step, finished_step, next_index, no_notes, one_note, plan_step, plan_step_view,
    push_text, run_failure, run_outcome, step, texts, Action, ActionView, Event, Module, ModuleError, Step, StepView, Tone,
};
use crate::os::PackageManager;
use crate::ssh::executor::{escape_quotes, escape_single_quotes};

verus! {

/// Creates a non-root user with password-less sudo, optionally sets its password, and
/// copies the SSH keys of `source_user` to it.
pub struct UsersModule<'a> {
    username: &'a str,
    password: Option<&'a str>,
    source_user: &'a str,
}

/// Where the users module stands.
#[derive(Debug, Clone, Copy, PartialEq, Eq, Structural)]
pub enum UsersPhase {
    /// Waiting for the command at this index of the plan.
    Running(usize),
    /// Done or failed.
    Finished,
}

/// The command that sets the password of `user` with `chpasswd`.
pub open spec fn chpasswd_command(user: Seq<char>, password: Seq<char>) -> Seq<char> {
    "sudo sh -c 'echo \""@ + escape_quotes(user) + ":"@ + escape_quotes(password)
        + "\" | chpasswd'"@
}

/// The commands that create `user`, give it sudo, set its password when one is given, and
/// copy the SSH keys of `source` to it.
pub open spec fn users_plan(user: Seq<char>, password: Option<Seq<char>>, source: Seq<char>) -> Seq<
    Seq<char>,
> {
    seq![
        "sudo groupadd -f sudo || sudo groupadd -f wheel"@,
        "id "@ + user + " >/dev/null 2>&1 || sudo useradd -m -s /bin/bash -G sudo "@ + user,
        "sudo usermod -aG sudo "@ + user + " || sudo usermod -aG wheel "@ + user,
        "sudo sh -c 'echo \""@ + user + " ALL=(ALL) NOPASSWD:ALL\" > /etc/sudoers.d/"@ + user
            + " && chmod 440 /etc/sudoers.d/"@ + user + "'"@,
    ] + match password {
        Some(p) => seq![chpasswd_command(user, p)],
        None => Seq::empty(),
    } + seq![
        "sudo mkdir -p /home/"@ + user + "/.ssh && sudo cp -a /home/"@ + source + "/.ssh/. /home/"@
            + user + "/.ssh/ && sudo chown -R "@ + user + ":"@ + user + " /home/"@ + user
            + "/.ssh && sudo chmod 700 /home/"@ + user + "/.ssh && sudo chmod 600 /home/"@ + user
            + "/.ssh/*"@,
    ]
}

impl<'a> UsersModule<'a> {
    pub fn new(username: &'a str, password: Option<&'a str>, source_user: &'a str) -> (m: Self)
        ensures
            m.username() == username,
            m.password() == password,
            m.source_user() == source_user,
    {
        UsersModule { username, password, source_user }
    }

    pub closed spec fn username(&self) -> &'a str {
        self.username
    }

    pub closed spec fn password(&self) -> Option<&'a str> {
        self.password
    }

    pub closed spec fn source_user(&self) -> &'a str {
        self.source_user
    }

    pub open spec fn plan_view(&self) -> Seq<Seq<char>> {
        users_plan(
            self.username()@,
            match self.password() {
                Some(p) => Some(p@),
                None => None,
            },
            self.source_user()@,
        )
    }

    pub open spec fn plan_from(&self, index: int) -> StepView<UsersPhase> {
        plan_step_view(
            self.plan_view(),
            index,
            UsersPhase::Running(index as usize),
            UsersPhase::Finished,
            seq![(Tone::Success, "User '"@ + self.username()@ + "' created with sudo access"@)],
        )
    }

    fn plan(&self) -> (v: Vec<String>)
        ensures
            texts(v@) == self.plan_view(),
    {
        let u = self.username;
        let mut v: Vec<String> = Vec::new();
        push_text(&mut v, String::from_str("sudo groupadd -f sudo || sudo groupadd -f wheel"));
        let mut c = String::from_str("id ");
        c.append(u);
        c.append(" >/dev/null 2>&1 || sudo useradd -m -s /bin/bash -G sudo ");
        c.append(u);
        push_text(&mut v, c);
        let mut c = String::from_str("sudo usermod -aG sudo ");
        c.append(u);
        c.append(" || sudo usermod -aG wheel ");
        c.append(u);
        push_text(&mut v, c);
        let mut c = String::from_str("sudo sh -c 'echo \"");
        c.append(u);
        c.append(" ALL=(ALL) NOPASSWD:ALL\" > /etc/sudoers.d/");
        c.append(u);
        c.append(" && chmod 440 /etc/sudoers.d/");
        c.append(u);
        c.append("'");
        push_text(&mut v, c);
        match self.password {
            Some(p) => {
                let esc_user = escape_single_quotes(u);
                let esc_pass = escape_single_quotes(p);
                let mut c = String::from_str("sudo sh -c 'echo \"");
                c.append(esc_user.as_str());
                c.append(":");
                c.append(esc_pass.as_str());
                c.append("\" | chpasswd'");
                push_text(&mut v, c);
            },
            None => {},
        }
        let mut c = String::from_str("sudo mkdir -p /home/");
        c.append(u);
        c.append("/.ssh && sudo cp -a /home/");
        c.append(self.source_user);
        c.append("/.ssh/. /home/");
        c.append(u);
        c.append("/.ssh/ && sudo chown -R ");
        c.append(u);
        c.append(":");
        c.append(u);
        c.append(" /home/");
        c.append(u);
        c.append("/.ssh && sudo chmod 700 /home/");
        c.append(u);
        c.append("/.ssh && sudo chmod 600 /home/");
        c.append(u);
        c.append("/.ssh/*");
        push_text(&mut v, c);
        assert(texts(v@) =~= self.plan_view());
        v
    }

    fn from_index(&self, index: usize) -> (s: Step<UsersPhase>)
        ensures
            s@ == self.plan_from(index as int),
    {
        let plan = self.plan();
        let mut done = String::from_str("User '");
        done.append(self.username);
        done.append("' created with sudo access");
        plan_step(
            &plan,
            index,
            UsersPhase::Running(index),
            UsersPhase::Finished,
            one_note(Tone::Success, done),
        )
    }
}

/// The user's password is set exactly when one is given, with a `chpasswd` command that
/// carries it in escaped form; the other commands are the same either way.
pub proof fn users_sets_password_only_when_given(
    user: Seq<char>,
    password: Option<Seq<char>>,
    source: Seq<char>,
)
    ensures
        ({
            let plan = users_plan(user, password, source);
            match password {
                Some(p) => {
                    &&& plan.len() == 6
                    &&& plan[4] == chpasswd_command(user, p)
                    &&& plan.remove(4) == users_plan(user, None, source)
                },
                None => plan.len() == 5,
            }
        }),
{
    let plan = users_plan(user, password, source);
    if let Some(p) = password {
        assert(plan.remove(4) =~= users_plan(user, None, source));
    }
}

impl<'a, P: PackageManager> Module<P> for UsersModule<'a> {
    type Phase = UsersPhase;

    open spec fn spec_name(&self) -> Seq<char> {
        "users"@
    }

    open spec fn opening(&self, pkg: &P) -> StepView<UsersPhase> {
        StepView {
            phase: UsersPhase::Running(0),
            notes: seq![(Tone::Info, "Creating user: "@ + self.username()@)],
            action: ActionView::Run(self.plan_view()[0]),
        }
    }

    open spec fn transition(&self, pkg: &P, phase: UsersPhase, event: Event) -> StepView<
        UsersPhase,
    > {
        match run_failure(event) {
            Some(m) => failed_step(UsersPhase::Finished, m@),
            None => match phase {
                UsersPhase::Running(i) => self.plan_from(i + 1),
                UsersPhase::Finished => finished_step(UsersPhase::Finished),
            },
        }
    }

    fn name(&self) -> (n: String) {
        String::from_str("users")
    }

    fn start(&self, pkg: &P) -> (s: Step<UsersPhase>) {
        let plan = self.plan();
        assert(self.plan_view().len() >= 5);
        assert(texts(plan@).len() == plan@.len());
        let first = plan[0].clone();
        assert(texts(plan@)[0] == first@);
        let mut line = String::from_str("Creating user: ");
        line.append(self.username);
        step(UsersPhase::Running(0), one_note(Tone::Info, line), Action::Run(first))
    }

    fn resume(&self, pkg: &P, phase: UsersPhase, event: Event) -> (s: Step<UsersPhase>) {
        match run_outcome(event) {
            Some(m) => step(
                UsersPhase::Finished,
                no_notes(),
                Action::Fail(ModuleError::CommandFailed(m)),
            ),
            None => match phase {
                UsersPhase::Running(i) => {
                    assert(self.plan_view().len() <= 6);
                    self.from_index(next_index(i))
                },
                UsersPhase::Finished => step(
                    UsersPhase::Finished,
                    no_notes(),
                    Action::Fail(ModuleError::Finished),
                ),
            },
        }
    }
}

} // verus!
