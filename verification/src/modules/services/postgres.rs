use vstd::prelude::*;

use crate::modules::{
    failed_step, finished_step, next_index, no_notes, opt_seq, push_some, push_text, run_failure,
    run_outcome, step, texts, Action, ActionView, Event, Module, ModuleError, ModuleErrorView, Note,
    Step, StepView, Tone,
};
use crate::os::PackageManager;
use crate::text::chars_of;

verus! {

/// Installs PostgreSQL, enables and starts its service, and sets up an initial database
/// user with a database of the same name, owned by it. The name is that of the host's
/// (non-root) user, so that this user reaches its database through PostgreSQL's local
/// peer authentication; with no name, no user or database is created.
pub struct PostgresModule<'a> {
    owner: Option<&'a str>,
}

/// Where the module stands.
#[derive(Debug, Clone, Copy, PartialEq, Eq, Structural)]
pub enum PostgresPhase {
    /// Waiting for the answer to the "is PostgreSQL installed" query.
    Checking,
    /// Waiting for the command at this index of the install plan.
    Installing(usize),
    /// Waiting for the command at this index of the database plan.
    Creating(usize),
    /// Done or failed.
    Finished,
}

/// Whether `c` may stand in a database user name: a lower-case ASCII letter, a digit, `_`
/// or `-`.
pub open spec fn is_name_char(c: char) -> bool {
    ('a' <= c && c <= 'z') || ('0' <= c && c <= '9') || c == '_' || c == '-'
}

/// Whether `name` can be used as it is for the database user and its database, in a shell
/// command and in an SQL string: not empty, made of `is_name_char` characters, and starting
/// with a letter or `_`.
pub open spec fn is_plain_name(name: Seq<char>) -> bool {
    &&& name.len() > 0
    &&& (('a' <= name[0] && name[0] <= 'z') || name[0] == '_')
    &&& forall|k: int| 0 <= k < name.len() ==> is_name_char(#[trigger] name[k])
}

/// Creates the database user `name` unless it exists.
pub open spec fn role_command(name: Seq<char>) -> Seq<char> {
    "runuser -u postgres -- psql -tAc \"SELECT 1 FROM pg_roles WHERE rolname='"@ + name
        + "'\" | grep -q 1 || runuser -u postgres -- createuser "@ + name
}

/// Creates the database `name`, owned by the user `name`, unless it exists.
pub open spec fn database_command(name: Seq<char>) -> Seq<char> {
    "runuser -u postgres -- psql -tAc \"SELECT 1 FROM pg_database WHERE datname='"@ + name
        + "'\" | grep -q 1 || runuser -u postgres -- createdb -O "@ + name + " "@ + name
}

/// The commands that set up the initial user and database.
pub open spec fn database_plan(owner: Option<Seq<char>>) -> Seq<Seq<char>> {
    match owner {
        Some(name) => if is_plain_name(name) {
            seq![role_command(name), database_command(name)]
        } else {
            Seq::empty()
        },
        None => Seq::empty(),
    }
}

/// What is reported once the database plan has run.
pub open spec fn database_notes(owner: Option<Seq<char>>) -> Seq<(Tone, Seq<char>)> {
    match owner {
        Some(name) => if is_plain_name(name) {
            seq![(Tone::Success, "PostgreSQL user and database "@ + name + " ready"@)]
        } else {
            seq![
                (
                    Tone::Warning,
                    "PostgreSQL user and database not created: "@ + name
                        + " is not a plain name"@,
                ),
            ]
        },
        None => Seq::empty(),
    }
}

/// `name` with the characters of `is_name_char` only, starting with a letter or `_`.
fn plain_name(name: &str) -> (b: bool)
    ensures
        b == is_plain_name(name@),
{
    let cs = chars_of(name);
    if cs.len() == 0 {
        return false;
    }
    let first = cs[0];
    if !(('a' <= first && first <= 'z') || first == '_') {
        return false;
    }
    let mut k: usize = 0;
    while k < cs.len()
        invariant
            k <= cs@.len(),
            cs@ == name@,
            forall|j: int| 0 <= j < k ==> is_name_char(#[trigger] cs@[j]),
        decreases cs.len() - k,
    {
        let c = cs[k];
        if !(('a' <= c && c <= 'z') || ('0' <= c && c <= '9') || c == '_' || c == '-') {
            assert(!is_name_char(name@[k as int]));
            return false;
        }
        k = k + 1;
    }
    true
}

impl<'a> PostgresModule<'a> {
    /// A module that sets up the user and database `owner`, when given.
    pub fn new(owner: Option<&'a str>) -> (m: Self)
        ensures
            m.owner() == match owner {
                Some(n) => Some(n@),
                None => None::<Seq<char>>,
            },
    {
        PostgresModule { owner }
    }

    /// The name of the user and database to set up.
    pub closed spec fn owner(&self) -> Option<Seq<char>> {
        match self.owner {
            Some(n) => Some(n@),
            None => None,
        }
    }

    /// The commands that install, enable and start PostgreSQL.
    pub open spec fn install_plan<P: PackageManager>(pkg: &P) -> Seq<Seq<char>> {
        opt_seq(pkg.install_command(seq!["postgresql"@])) + opt_seq(pkg.enable_command("postgresql"@))
            + opt_seq(pkg.start_command("postgresql"@))
    }

    /// The step that runs the database command at `index`, or ends the module.
    pub open spec fn database_from(&self, index: int) -> StepView<PostgresPhase> {
        let plan = database_plan(self.owner());
        if 0 <= index < plan.len() {
            StepView {
                phase: PostgresPhase::Creating(index as usize),
                notes: Seq::empty(),
                action: ActionView::Run(plan[index]),
            }
        } else {
            StepView {
                phase: PostgresPhase::Finished,
                notes: database_notes(self.owner()),
                action: ActionView::Done,
            }
        }
    }

    /// The first database step, after the line `done` that reports PostgreSQL present.
    pub open spec fn database_after(&self, done: Seq<char>) -> StepView<PostgresPhase> {
        let s = self.database_from(0);
        StepView { phase: s.phase, notes: seq![(Tone::Success, done)] + s.notes, action: s.action }
    }

    /// The step that runs the install command at `index`, or goes on to the database.
    pub open spec fn plan_from<P: PackageManager>(&self, pkg: &P, index: int) -> StepView<
        PostgresPhase,
    > {
        let plan = Self::install_plan(pkg);
        if 0 <= index < plan.len() {
            StepView {
                phase: PostgresPhase::Installing(index as usize),
                notes: Seq::empty(),
                action: ActionView::Run(plan[index]),
            }
        } else {
            self.database_after("PostgreSQL installed"@)
        }
    }

    fn plan<P: PackageManager>(pkg: &P) -> (v: Vec<String>)
        ensures
            texts(v@) == Self::install_plan(pkg),
    {
        let mut v: Vec<String> = Vec::new();
        let names: Vec<&str> = vec!["postgresql"];
        assert(crate::text::texts_of(names@) =~= seq!["postgresql"@]);
        push_some(&mut v, pkg.install(names.as_slice()));
        push_some(&mut v, pkg.enable_service("postgresql"));
        push_some(&mut v, pkg.start_service("postgresql"));
        assert(texts(v@) =~= Self::install_plan(pkg));
        v
    }

    fn database_commands(&self) -> (v: Vec<String>)
        ensures
            texts(v@) == database_plan(self.owner()),
    {
        let mut v: Vec<String> = Vec::new();
        if let Some(name) = self.owner {
            if plain_name(name) {
                let mut role = String::from_str(
                    "runuser -u postgres -- psql -tAc \"SELECT 1 FROM pg_roles WHERE rolname='",
                );
                role.append(name);
                role.append("'\" | grep -q 1 || runuser -u postgres -- createuser ");
                role.append(name);
                push_text(&mut v, role);
                let mut db = String::from_str(
                    "runuser -u postgres -- psql -tAc \"SELECT 1 FROM pg_database WHERE datname='",
                );
                db.append(name);
                db.append("'\" | grep -q 1 || runuser -u postgres -- createdb -O ");
                db.append(name);
                db.append(" ");
                db.append(name);
                push_text(&mut v, db);
            }
        }
        assert(texts(v@) =~= database_plan(self.owner()));
        v
    }

    fn final_notes(&self) -> (v: Vec<Note>)
        ensures
            v@.map_values(|n: Note| n@) == database_notes(self.owner()),
    {
        let mut v: Vec<Note> = Vec::new();
        if let Some(name) = self.owner {
            if plain_name(name) {
                let mut line = String::from_str("PostgreSQL user and database ");
                line.append(name);
                line.append(" ready");
                v.push(Note { tone: Tone::Success, text: line });
            } else {
                let mut line = String::from_str("PostgreSQL user and database not created: ");
                line.append(name);
                line.append(" is not a plain name");
                v.push(Note { tone: Tone::Warning, text: line });
            }
        }
        assert(v@.map_values(|n: Note| n@) =~= database_notes(self.owner()));
        v
    }

    fn from_database(&self, index: usize) -> (s: Step<PostgresPhase>)
        ensures
            s@ == self.database_from(index as int),
    {
        let plan = self.database_commands();
        if index < plan.len() {
            let c = plan[index].clone();
            assert(texts(plan@)[index as int] == plan@[index as int]@);
            step(PostgresPhase::Creating(index), no_notes(), Action::Run(c))
        } else {
            step(PostgresPhase::Finished, self.final_notes(), Action::Done)
        }
    }

    fn after(&self, done: String) -> (s: Step<PostgresPhase>)
        ensures
            s@ == self.database_after(done@),
    {
        let s = self.from_database(0);
        let mut notes: Vec<Note> = Vec::new();
        let ghost later = s.notes@.map_values(|n: Note| n@);
        notes.push(Note { tone: Tone::Success, text: done });
        let mut rest = s.notes;
        notes.append(&mut rest);
        assert(notes@.map_values(|n: Note| n@) =~= seq![(Tone::Success, done@)] + later);
        Step { phase: s.phase, notes, action: s.action }
    }

    fn from_index<P: PackageManager>(&self, pkg: &P, index: usize) -> (s: Step<PostgresPhase>)
        ensures
            s@ == self.plan_from(pkg, index as int),
    {
        let plan = Self::plan(pkg);
        if index < plan.len() {
            let c = plan[index].clone();
            assert(texts(plan@)[index as int] == plan@[index as int]@);
            step(PostgresPhase::Installing(index), no_notes(), Action::Run(c))
        } else {
            self.after(String::from_str("PostgreSQL installed"))
        }
    }
}

impl<'a, P: PackageManager> Module<P> for PostgresModule<'a> {
    type Phase = PostgresPhase;

    open spec fn spec_name(&self) -> Seq<char> {
        "postgres"@
    }

    open spec fn opening(&self, pkg: &P) -> StepView<PostgresPhase> {
        match pkg.installed_query("postgresql"@) {
            Some(q) => StepView {
                phase: PostgresPhase::Checking,
                notes: Seq::empty(),
                action: ActionView::Query(q),
            },
            None => self.plan_from(pkg, 0),
        }
    }

    open spec fn transition(
        &self,
        pkg: &P,
        phase: PostgresPhase,
        event: Event,
    ) -> StepView<PostgresPhase> {
        match phase {
            PostgresPhase::Checking => match event {
                Event::Error(m) => failed_step(PostgresPhase::Finished, m@),
                Event::Output(_, status) => if pkg.installed_status(status) {
                    self.database_after("PostgreSQL already installed"@)
                } else {
                    self.plan_from(pkg, 0)
                },
            },
            PostgresPhase::Installing(i) => match run_failure(event) {
                Some(m) => failed_step(PostgresPhase::Finished, m@),
                None => self.plan_from(pkg, i + 1),
            },
            PostgresPhase::Creating(j) => match run_failure(event) {
                Some(m) => failed_step(PostgresPhase::Finished, m@),
                None => self.database_from(j + 1),
            },
            PostgresPhase::Finished => match event {
                Event::Error(m) => failed_step(PostgresPhase::Finished, m@),
                Event::Output(_, _) => finished_step(PostgresPhase::Finished),
            },
        }
    }

    fn name(&self) -> (n: String) {
        String::from_str("postgres")
    }

    fn start(&self, pkg: &P) -> (s: Step<PostgresPhase>) {
        match pkg.is_installed("postgresql") {
            Some(q) => step(PostgresPhase::Checking, no_notes(), Action::Query(q)),
            None => self.from_index(pkg, 0),
        }
    }

    fn resume(&self, pkg: &P, phase: PostgresPhase, event: Event) -> (s: Step<
        PostgresPhase,
    >) {
        match phase {
            PostgresPhase::Checking => match event {
                Event::Error(m) => step(
                    PostgresPhase::Finished,
                    no_notes(),
                    Action::Fail(ModuleError::CommandFailed(m)),
                ),
                Event::Output(_, status) => if pkg.is_installed_status(status) {
                    self.after(String::from_str("PostgreSQL already installed"))
                } else {
                    self.from_index(pkg, 0)
                },
            },
            PostgresPhase::Installing(i) => match run_outcome(event) {
                Some(m) => step(
                    PostgresPhase::Finished,
                    no_notes(),
                    Action::Fail(ModuleError::CommandFailed(m)),
                ),
                None => {
                    assert(Self::install_plan(pkg).len() <= 3);
                    self.from_index(pkg, next_index(i))
                },
            },
            PostgresPhase::Creating(j) => match run_outcome(event) {
                Some(m) => step(
                    PostgresPhase::Finished,
                    no_notes(),
                    Action::Fail(ModuleError::CommandFailed(m)),
                ),
                None => {
                    assert(database_plan(self.owner()).len() <= 2);
                    self.from_database(next_index(j))
                },
            },
            PostgresPhase::Finished => match event {
                Event::Error(m) => step(
                    PostgresPhase::Finished,
                    no_notes(),
                    Action::Fail(ModuleError::CommandFailed(m)),
                ),
                Event::Output(_, _) => step(
                    PostgresPhase::Finished,
                    no_notes(),
                    Action::Fail(ModuleError::Finished),
                ),
            },
        }
    }
}

/// A host where PostgreSQL is already installed is not installed again: the module first
/// asks whether it is installed and, when the answer says so, runs only the database
/// commands, which create the user and the database only where they do not exist, or ends.
/// A command that fails stops the module with its message.
pub proof fn postgres_leaves_installed_host_alone<'a, P: PackageManager>(
    m: &PostgresModule<'a>,
    pkg: &P,
    phase: PostgresPhase,
    output: String,
    status: i32,
    message: String,
)
    ensures
        pkg.installed_query("postgresql"@) matches Some(q) ==> <PostgresModule<'a> as Module<
            P,
        >>::opening(m, pkg).action == ActionView::Query(q),
        pkg.installed_status(status) ==> {
            let s = <PostgresModule<'a> as Module<P>>::transition(
                m,
                pkg,
                PostgresPhase::Checking,
                Event::Output(output, status),
            );
            s.action == ActionView::Done || (database_plan(m.owner()).len() > 0 && s.action
                == ActionView::Run(database_plan(m.owner())[0]))
        },
        <PostgresModule<'a> as Module<P>>::transition(m, pkg, phase, Event::Error(message)).action
            == ActionView::Fail(ModuleErrorView::CommandFailed(message@)),
{
}

/// The initial user and database are set up exactly when a plain name was given: then the
/// plan creates the user of that name and a database of that name owned by it, each only
/// where it does not exist yet; otherwise the plan is empty.
pub proof fn postgres_sets_up_owner_database(owner: Option<Seq<char>>)
    ensures
        database_plan(owner).len() > 0 <==> (owner matches Some(n) && is_plain_name(n)),
        owner matches Some(n) ==> (is_plain_name(n) ==> database_plan(owner) == seq![
            role_command(n),
            database_command(n),
        ]),
{
}

} // verus!
