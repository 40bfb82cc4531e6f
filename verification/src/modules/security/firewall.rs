use vstd::prelude::*;

use crate::modules::{
    failed_step, finished_step, next_index, no_notes, one_note, opt_seq, push_some, push_text,
    run_failure, run_outcome, step, texts, Action, ActionView, Event, Module, ModuleError,
    ModuleErrorView, Step, StepView, Tone,
};
use crate::os::detect::Distro;
use crate::os::PackageManager;
use crate::text::texts_of;

verus! {

/// Sets up a firewall that denies incoming traffic except SSH, HTTP and HTTPS: `ufw` on
/// Debian and Ubuntu, `firewalld` on RHEL and Fedora.
///
/// Before it changes anything, the module asks whether the firewall is running (and, for
/// firewalld, whether it starts at boot) and saves copies of the firewall's configuration.
/// When a command fails after that, the saved configuration is put back and the firewall is
/// returned to the running state it was found in (see `firewall_undo_plan`) before the
/// module fails.
pub struct FirewallModule {
    distro: Distro,
}

/// What the firewall was found doing before the module changed anything.
#[derive(Debug, Clone, Copy, PartialEq, Eq, Structural)]
pub struct FirewallSnapshot {
    /// The firewall was running (for ufw: enabled).
    pub active: bool,
    /// The firewall started at boot (for ufw the same as `active`).
    pub enabled: bool,
}

/// Where the firewall module stands.
#[derive(Debug)]
pub enum FirewallPhase {
    /// Waiting for the command at this index of the install plan.
    Installing(usize),
    /// Waiting for the answer to "is the firewall running".
    CheckingActive,
    /// firewalld only: waiting for the answer to "does it start at boot"; whether it runs.
    CheckingEnabled(bool),
    /// Waiting for the copies of the configuration to be saved.
    BackingUp(FirewallSnapshot),
    /// Waiting for the command at this index of the change plan.
    Configuring(FirewallSnapshot, usize),
    /// The change at index `failed` failed with the message; waiting for the undo command
    /// at the last index.
    RollingBack(String, FirewallSnapshot, usize, usize),
    /// Done or failed.
    Finished,
}

/// The commands that install the firewall's package.
pub open spec fn firewall_install_plan<P: PackageManager>(pkg: &P, distro: Distro) -> Seq<
    Seq<char>,
> {
    match distro {
        Distro::Debian | Distro::Ubuntu => opt_seq(pkg.install_command(seq!["ufw"@])),
        Distro::RHEL | Distro::Fedora => opt_seq(pkg.install_command(seq!["firewalld"@])),
    }
}

/// The query whose exit status is 0 exactly when the firewall is running.
pub open spec fn firewall_active_query(distro: Distro) -> Seq<char> {
    match distro {
        Distro::Debian | Distro::Ubuntu => "grep -q '^ENABLED=yes' /etc/ufw/ufw.conf"@,
        Distro::RHEL | Distro::Fedora => "systemctl is-active --quiet firewalld"@,
    }
}

/// The query whose exit status is 0 exactly when firewalld starts at boot.
pub open spec fn firewalld_enabled_query() -> Seq<char> {
    "systemctl is-enabled --quiet firewalld"@
}

/// The files (ufw) or the directory (firewalld) that hold the firewall's configuration
/// and that the module's commands write.
pub open spec fn firewall_saved_paths(distro: Distro) -> Seq<Seq<char>> {
    match distro {
        Distro::Debian | Distro::Ubuntu => seq![
            "/etc/default/ufw"@,
            "/etc/ufw/ufw.conf"@,
            "/etc/ufw/user.rules"@,
            "/etc/ufw/user6.rules"@,
        ],
        Distro::RHEL | Distro::Fedora => seq!["/etc/firewalld"@],
    }
}

/// Where the copy of `path` is kept.
pub open spec fn saved_path(path: Seq<char>) -> Seq<char> {
    path + ".bak"@
}

/// The command that replaces `dst` by a copy of `src`, attributes included.
pub open spec fn copy_command(src: Seq<char>, dst: Seq<char>) -> Seq<char> {
    "rm -rf "@ + dst + " && cp -a "@ + src + " "@ + dst
}

/// One copy per path: from the path to its saved copy, or back when `restore`.
pub open spec fn copy_list(paths: Seq<Seq<char>>, restore: bool) -> Seq<Seq<char>> {
    Seq::new(
        paths.len(),
        |k: int|
            if restore {
                copy_command(saved_path(paths[k]), paths[k])
            } else {
                copy_command(paths[k], saved_path(paths[k]))
            },
    )
}

/// The commands joined by ` && `, so that each runs only when the one before succeeded.
pub open spec fn join_and(cs: Seq<Seq<char>>) -> Seq<char>
    decreases cs.len(),
{
    if cs.len() == 0 {
        Seq::empty()
    } else if cs.len() == 1 {
        cs[0]
    } else {
        join_and(cs.drop_last()) + " && "@ + cs.last()
    }
}

/// The command that saves a copy of each configuration path.
pub open spec fn firewall_backup_command(distro: Distro) -> Seq<char> {
    join_and(copy_list(firewall_saved_paths(distro), false))
}

/// The command that puts each saved copy back in its place.
pub open spec fn firewall_restore_command(distro: Distro) -> Seq<char> {
    join_and(copy_list(firewall_saved_paths(distro), true))
}

/// The commands that change the firewall, in order.
pub open spec fn firewall_change_plan<P: PackageManager>(pkg: &P, distro: Distro) -> Seq<
    Seq<char>,
> {
    match distro {
        Distro::Debian | Distro::Ubuntu => seq![
            "ufw default deny incoming"@,
            "ufw default allow outgoing"@,
            "ufw allow ssh"@,
            "ufw allow 80/tcp"@,
            "ufw allow 443/tcp"@,
            "ufw --force enable"@,
        ],
        Distro::RHEL | Distro::Fedora => opt_seq(pkg.enable_command("firewalld"@)) + opt_seq(
            pkg.start_command("firewalld"@),
        ) + seq![
            "firewall-cmd --permanent --add-service=ssh"@,
            "firewall-cmd --permanent --add-service=http"@,
            "firewall-cmd --permanent --add-service=https"@,
            "firewall-cmd --reload"@,
        ],
    }
}

/// The command that switches the firewall on with the new rules, last in the change plan.
pub open spec fn firewall_enable_command(distro: Distro) -> Seq<char> {
    match distro {
        Distro::Debian | Distro::Ubuntu => "ufw --force enable"@,
        Distro::RHEL | Distro::Fedora => "firewall-cmd --reload"@,
    }
}

/// The command that admits SSH.
pub open spec fn firewall_ssh_command(distro: Distro) -> Seq<char> {
    match distro {
        Distro::Debian | Distro::Ubuntu => "ufw allow ssh"@,
        Distro::RHEL | Distro::Fedora => "firewall-cmd --permanent --add-service=ssh"@,
    }
}

/// The commands that undo the changes after the change at index `failed` failed: first
/// the saved configuration is put back, then the firewall is returned to the state in
/// `snap`.
///
/// - ufw reads its rules, its default policies and whether it is enabled from the saved
///   files: when it was enabled, `ufw reload` makes the running firewall follow them again;
///   otherwise `ufw disable` stops it.
/// - firewalld: every change before the final reload is to the permanent configuration,
///   which the restore puts back. It is switched off at boot again and stopped again when
///   it was found so; when it was running and the failure came at the final reload, the
///   running firewall is reloaded from the restored configuration.
pub open spec fn firewall_undo_plan<P: PackageManager>(
    pkg: &P,
    distro: Distro,
    snap: FirewallSnapshot,
    failed: int,
) -> Seq<Seq<char>> {
    let restore = firewall_restore_command(distro);
    match distro {
        Distro::Debian | Distro::Ubuntu => seq![
            restore,
            if snap.active {
                "ufw reload"@
            } else {
                "ufw disable"@
            },
        ],
        Distro::RHEL | Distro::Fedora => seq![restore] + (if snap.enabled {
            Seq::empty()
        } else {
            seq!["systemctl disable firewalld"@]
        }) + (if !snap.active {
            seq!["systemctl stop firewalld"@]
        } else if failed + 1 == firewall_change_plan(pkg, distro).len() {
            seq!["firewall-cmd --reload"@]
        } else {
            Seq::empty()
        }),
    }
}

/// The step that runs the install command at `index`, or asks whether the firewall runs.
pub open spec fn install_step<P: PackageManager>(pkg: &P, distro: Distro, index: int) -> StepView<
    FirewallPhase,
> {
    let plan = firewall_install_plan(pkg, distro);
    if 0 <= index < plan.len() {
        StepView {
            phase: FirewallPhase::Installing(index as usize),
            notes: Seq::empty(),
            action: ActionView::Run(plan[index]),
        }
    } else {
        StepView {
            phase: FirewallPhase::CheckingActive,
            notes: Seq::empty(),
            action: ActionView::Query(firewall_active_query(distro)),
        }
    }
}

/// The step after the firewall was found running (`active`) or not.
pub open spec fn after_active_step(distro: Distro, active: bool) -> StepView<FirewallPhase> {
    match distro {
        Distro::Debian | Distro::Ubuntu => backup_step(
            distro,
            FirewallSnapshot { active, enabled: active },
        ),
        Distro::RHEL | Distro::Fedora => StepView {
            phase: FirewallPhase::CheckingEnabled(active),
            notes: Seq::empty(),
            action: ActionView::Query(firewalld_enabled_query()),
        },
    }
}

/// The step that saves the configuration.
pub open spec fn backup_step(distro: Distro, snap: FirewallSnapshot) -> StepView<FirewallPhase> {
    StepView {
        phase: FirewallPhase::BackingUp(snap),
        notes: Seq::empty(),
        action: ActionView::Run(firewall_backup_command(distro)),
    }
}

/// The step that runs the change at `index`, or reports the firewall configured.
pub open spec fn change_step<P: PackageManager>(
    pkg: &P,
    distro: Distro,
    snap: FirewallSnapshot,
    index: int,
) -> StepView<FirewallPhase> {
    let plan = firewall_change_plan(pkg, distro);
    if 0 <= index < plan.len() {
        StepView {
            phase: FirewallPhase::Configuring(snap, index as usize),
            notes: Seq::empty(),
            action: ActionView::Run(plan[index]),
        }
    } else {
        StepView {
            phase: FirewallPhase::Finished,
            notes: seq![(Tone::Success, "Firewall configured"@)],
            action: ActionView::Done,
        }
    }
}

/// The step that starts the rollback after the change at `failed` failed with `message`.
pub open spec fn rollback_step<P: PackageManager>(
    pkg: &P,
    distro: Distro,
    message: String,
    snap: FirewallSnapshot,
    failed: usize,
) -> StepView<FirewallPhase> {
    StepView {
        phase: FirewallPhase::RollingBack(message, snap, failed, 0),
        notes: seq![(Tone::Failure, "Firewall configuration failed, rolling back: "@ + message@)],
        action: ActionView::Run(firewall_undo_plan(pkg, distro, snap, failed as int)[0]),
    }
}

/// The undo command at `index`, or the failure that ends the rollback.
pub open spec fn undo_step<P: PackageManager>(
    pkg: &P,
    distro: Distro,
    message: String,
    snap: FirewallSnapshot,
    failed: usize,
    index: int,
) -> StepView<FirewallPhase> {
    let undo = firewall_undo_plan(pkg, distro, snap, failed as int);
    if 0 <= index < undo.len() {
        StepView {
            phase: FirewallPhase::RollingBack(message, snap, failed, index as usize),
            notes: Seq::empty(),
            action: ActionView::Run(undo[index]),
        }
    } else {
        StepView {
            phase: FirewallPhase::Finished,
            notes: Seq::empty(),
            action: ActionView::Fail(ModuleErrorView::FirewallRolledBack(message@)),
        }
    }
}

/// Joins `cs` with ` && `.
fn join_commands(cs: &Vec<String>) -> (r: String)
    ensures
        r@ == join_and(texts(cs@)),
{
    let ghost all = texts(cs@);
    let mut out = String::new();
    let mut k: usize = 0;
    while k < cs.len()
        invariant
            k <= cs.len(),
            all == texts(cs@),
            out@ == join_and(all.take(k as int)),
        decreases cs.len() - k,
    {
        assert(all.take(k + 1).drop_last() =~= all.take(k as int));
        assert(all[k as int] == cs@[k as int]@);
        if k > 0 {
            out.append(" && ");
        } else {
            assert(all.take(0) =~= Seq::<Seq<char>>::empty());
        }
        out.append(cs[k].as_str());
        k = k + 1;
    }
    assert(all.take(cs.len() as int) =~= all);
    out
}

/// `copy_command(src, dst)`.
fn copy_path(src: &str, dst: &str) -> (r: String)
    ensures
        r@ == copy_command(src@, dst@),
{
    let mut c = String::new();
    c.append("rm -rf ");
    c.append(dst);
    c.append(" && cp -a ");
    c.append(src);
    c.append(" ");
    c.append(dst);
    c
}

/// The commands of `copy_list(paths, restore)`.
fn copies(paths: &Vec<&str>, restore: bool) -> (v: Vec<String>)
    ensures
        texts(v@) == copy_list(texts_of(paths@), restore),
{
    let ghost want = copy_list(texts_of(paths@), restore);
    let mut v: Vec<String> = Vec::new();
    let mut k: usize = 0;
    while k < paths.len()
        invariant
            k <= paths.len(),
            want == copy_list(texts_of(paths@), restore),
            texts(v@) == want.take(k as int),
        decreases paths.len() - k,
    {
        let mut saved = String::new();
        saved.append(paths[k]);
        saved.append(".bak");
        let c = if restore {
            copy_path(saved.as_str(), paths[k])
        } else {
            copy_path(paths[k], saved.as_str())
        };
        assert(texts_of(paths@)[k as int] == paths@[k as int]@);
        push_text(&mut v, c);
        assert(want.take(k + 1) =~= want.take(k as int).push(c@));
        k = k + 1;
    }
    assert(want.take(paths.len() as int) =~= want);
    v
}

impl FirewallModule {
    pub fn new(distro: &Distro) -> (m: Self)
        ensures
            m.distro() == *distro,
    {
        FirewallModule { distro: *distro }
    }

    pub closed spec fn distro(&self) -> Distro {
        self.distro
    }

    fn saved_paths(&self) -> (v: Vec<&'static str>)
        ensures
            texts_of(v@) == firewall_saved_paths(self.distro()),
    {
        let v: Vec<&'static str> = match self.distro {
            Distro::Debian | Distro::Ubuntu => vec![
                "/etc/default/ufw",
                "/etc/ufw/ufw.conf",
                "/etc/ufw/user.rules",
                "/etc/ufw/user6.rules",
            ],
            Distro::RHEL | Distro::Fedora => vec!["/etc/firewalld"],
        };
        assert(texts_of(v@) =~= firewall_saved_paths(self.distro()));
        v
    }

    fn backup_command(&self) -> (c: String)
        ensures
            c@ == firewall_backup_command(self.distro()),
    {
        let paths = self.saved_paths();
        join_commands(&copies(&paths, false))
    }

    fn restore_command(&self) -> (c: String)
        ensures
            c@ == firewall_restore_command(self.distro()),
    {
        let paths = self.saved_paths();
        join_commands(&copies(&paths, true))
    }

    fn install_plan<P: PackageManager>(&self, pkg: &P) -> (v: Vec<String>)
        ensures
            texts(v@) == firewall_install_plan(pkg, self.distro()),
    {
        let mut v: Vec<String> = Vec::new();
        let names: Vec<&str> = match self.distro {
            Distro::Debian | Distro::Ubuntu => vec!["ufw"],
            Distro::RHEL | Distro::Fedora => vec!["firewalld"],
        };
        proof {
            match self.distro {
                Distro::Debian | Distro::Ubuntu => {
                    assert(texts_of(names@) =~= seq!["ufw"@]);
                },
                Distro::RHEL | Distro::Fedora => {
                    assert(texts_of(names@) =~= seq!["firewalld"@]);
                },
            }
        }
        push_some(&mut v, pkg.install(names.as_slice()));
        assert(texts(v@) =~= firewall_install_plan(pkg, self.distro()));
        v
    }

    fn change_plan<P: PackageManager>(&self, pkg: &P) -> (v: Vec<String>)
        ensures
            texts(v@) == firewall_change_plan(pkg, self.distro()),
    {
        let mut v: Vec<String> = Vec::new();
        match self.distro {
            Distro::Debian | Distro::Ubuntu => {
                push_text(&mut v, String::from_str("ufw default deny incoming"));
                push_text(&mut v, String::from_str("ufw default allow outgoing"));
                push_text(&mut v, String::from_str("ufw allow ssh"));
                push_text(&mut v, String::from_str("ufw allow 80/tcp"));
                push_text(&mut v, String::from_str("ufw allow 443/tcp"));
                push_text(&mut v, String::from_str("ufw --force enable"));
            },
            Distro::RHEL | Distro::Fedora => {
                push_some(&mut v, pkg.enable_service("firewalld"));
                push_some(&mut v, pkg.start_service("firewalld"));
                push_text(&mut v, String::from_str("firewall-cmd --permanent --add-service=ssh"));
                push_text(&mut v, String::from_str("firewall-cmd --permanent --add-service=http"));
                push_text(&mut v, String::from_str("firewall-cmd --permanent --add-service=https"));
                push_text(&mut v, String::from_str("firewall-cmd --reload"));
            },
        }
        assert(texts(v@) =~= firewall_change_plan(pkg, self.distro()));
        v
    }

    fn undo_plan<P: PackageManager>(&self, pkg: &P, snap: FirewallSnapshot, failed: usize) -> (v:
        Vec<String>)
        ensures
            texts(v@) == firewall_undo_plan(pkg, self.distro(), snap, failed as int),
    {
        let mut v: Vec<String> = Vec::new();
        push_text(&mut v, self.restore_command());
        match self.distro {
            Distro::Debian | Distro::Ubuntu => {
                if snap.active {
                    push_text(&mut v, String::from_str("ufw reload"));
                } else {
                    push_text(&mut v, String::from_str("ufw disable"));
                }
            },
            Distro::RHEL | Distro::Fedora => {
                if !snap.enabled {
                    push_text(&mut v, String::from_str("systemctl disable firewalld"));
                }
                let changes = self.change_plan(pkg);
                if !snap.active {
                    push_text(&mut v, String::from_str("systemctl stop firewalld"));
                } else if failed < changes.len() && failed + 1 == changes.len() {
                    push_text(&mut v, String::from_str("firewall-cmd --reload"));
                }
            },
        }
        assert(texts(v@) =~= firewall_undo_plan(pkg, self.distro(), snap, failed as int));
        v
    }

    fn install_from<P: PackageManager>(&self, pkg: &P, index: usize) -> (s: Step<FirewallPhase>)
        ensures
            s@ == install_step(pkg, self.distro(), index as int),
    {
        let plan = self.install_plan(pkg);
        if index < plan.len() {
            let c = plan[index].clone();
            assert(texts(plan@)[index as int] == plan@[index as int]@);
            step(FirewallPhase::Installing(index), no_notes(), Action::Run(c))
        } else {
            let q = match self.distro {
                Distro::Debian | Distro::Ubuntu => String::from_str(
                    "grep -q '^ENABLED=yes' /etc/ufw/ufw.conf",
                ),
                Distro::RHEL | Distro::Fedora => String::from_str(
                    "systemctl is-active --quiet firewalld",
                ),
            };
            step(FirewallPhase::CheckingActive, no_notes(), Action::Query(q))
        }
    }

    fn backup_from(&self, snap: FirewallSnapshot) -> (s: Step<FirewallPhase>)
        ensures
            s@ == backup_step(self.distro(), snap),
    {
        step(FirewallPhase::BackingUp(snap), no_notes(), Action::Run(self.backup_command()))
    }

    fn after_active(&self, active: bool) -> (s: Step<FirewallPhase>)
        ensures
            s@ == after_active_step(self.distro(), active),
    {
        match self.distro {
            Distro::Debian | Distro::Ubuntu => self.backup_from(
                FirewallSnapshot { active, enabled: active },
            ),
            Distro::RHEL | Distro::Fedora => step(
                FirewallPhase::CheckingEnabled(active),
                no_notes(),
                Action::Query(String::from_str("systemctl is-enabled --quiet firewalld")),
            ),
        }
    }

    fn change_from<P: PackageManager>(&self, pkg: &P, snap: FirewallSnapshot, index: usize) -> (s:
        Step<FirewallPhase>)
        ensures
            s@ == change_step(pkg, self.distro(), snap, index as int),
    {
        let plan = self.change_plan(pkg);
        if index < plan.len() {
            let c = plan[index].clone();
            assert(texts(plan@)[index as int] == plan@[index as int]@);
            step(FirewallPhase::Configuring(snap, index), no_notes(), Action::Run(c))
        } else {
            step(
                FirewallPhase::Finished,
                one_note(Tone::Success, String::from_str("Firewall configured")),
                Action::Done,
            )
        }
    }

    fn rollback_from<P: PackageManager>(
        &self,
        pkg: &P,
        message: String,
        snap: FirewallSnapshot,
        failed: usize,
    ) -> (s: Step<FirewallPhase>)
        ensures
            s@ == rollback_step(pkg, self.distro(), message, snap, failed),
    {
        let mut line = String::from_str("Firewall configuration failed, rolling back: ");
        line.append(message.as_str());
        let undo = self.undo_plan(pkg, snap, failed);
        assert(texts(undo@).len() == undo@.len());
        let first = undo[0].clone();
        assert(texts(undo@)[0] == first@);
        step(
            FirewallPhase::RollingBack(message, snap, failed, 0),
            one_note(Tone::Failure, line),
            Action::Run(first),
        )
    }

    fn undo_from<P: PackageManager>(
        &self,
        pkg: &P,
        message: String,
        snap: FirewallSnapshot,
        failed: usize,
        index: usize,
    ) -> (s: Step<FirewallPhase>)
        ensures
            s@ == undo_step(pkg, self.distro(), message, snap, failed, index as int),
    {
        let undo = self.undo_plan(pkg, snap, failed);
        if index < undo.len() {
            let c = undo[index].clone();
            assert(texts(undo@)[index as int] == undo@[index as int]@);
            step(
                FirewallPhase::RollingBack(message, snap, failed, index),
                no_notes(),
                Action::Run(c),
            )
        } else {
            step(
                FirewallPhase::Finished,
                no_notes(),
                Action::Fail(ModuleError::FirewallRolledBack(message)),
            )
        }
    }
}

impl<P: PackageManager> Module<P> for FirewallModule {
    type Phase = FirewallPhase;

    open spec fn spec_name(&self) -> Seq<char> {
        "firewall"@
    }

    open spec fn opening(&self, pkg: &P) -> StepView<FirewallPhase> {
        install_step(pkg, self.distro(), 0)
    }

    open spec fn transition(&self, pkg: &P, phase: FirewallPhase, event: Event) -> StepView<
        FirewallPhase,
    > {
        let d = self.distro();
        match phase {
            FirewallPhase::Installing(i) => match run_failure(event) {
                Some(m) => failed_step(FirewallPhase::Finished, m@),
                None => install_step(pkg, d, i + 1),
            },
            FirewallPhase::CheckingActive => match event {
                Event::Error(m) => failed_step(FirewallPhase::Finished, m@),
                Event::Output(_, status) => after_active_step(d, status == 0),
            },
            FirewallPhase::CheckingEnabled(active) => match event {
                Event::Error(m) => failed_step(FirewallPhase::Finished, m@),
                Event::Output(_, status) => backup_step(
                    d,
                    FirewallSnapshot { active, enabled: status == 0 },
                ),
            },
            FirewallPhase::BackingUp(snap) => match run_failure(event) {
                Some(m) => failed_step(FirewallPhase::Finished, m@),
                None => change_step(pkg, d, snap, 0),
            },
            FirewallPhase::Configuring(snap, i) => match run_failure(event) {
                Some(m) => rollback_step(pkg, d, m, snap, i),
                None => change_step(pkg, d, snap, i + 1),
            },
            FirewallPhase::RollingBack(m, snap, f, j) => match run_failure(event) {
                Some(e) => failed_step(FirewallPhase::Finished, e@),
                None => undo_step(pkg, d, m, snap, f, j + 1),
            },
            FirewallPhase::Finished => finished_step(FirewallPhase::Finished),
        }
    }

    fn name(&self) -> (n: String) {
        String::from_str("firewall")
    }

    fn start(&self, pkg: &P) -> (s: Step<FirewallPhase>) {
        self.install_from(pkg, 0)
    }

    fn resume(&self, pkg: &P, phase: FirewallPhase, event: Event) -> (s: Step<FirewallPhase>) {
        match phase {
            FirewallPhase::Installing(i) => match run_outcome(event) {
                Some(m) => step(
                    FirewallPhase::Finished,
                    no_notes(),
                    Action::Fail(ModuleError::CommandFailed(m)),
                ),
                None => {
                    assert(firewall_install_plan(pkg, self.distro()).len() <= 1);
                    self.install_from(pkg, next_index(i))
                },
            },
            FirewallPhase::CheckingActive => match event {
                Event::Error(m) => step(
                    FirewallPhase::Finished,
                    no_notes(),
                    Action::Fail(ModuleError::CommandFailed(m)),
                ),
                Event::Output(_, status) => self.after_active(status == 0),
            },
            FirewallPhase::CheckingEnabled(active) => match event {
                Event::Error(m) => step(
                    FirewallPhase::Finished,
                    no_notes(),
                    Action::Fail(ModuleError::CommandFailed(m)),
                ),
                Event::Output(_, status) => self.backup_from(
                    FirewallSnapshot { active, enabled: status == 0 },
                ),
            },
            FirewallPhase::BackingUp(snap) => match run_outcome(event) {
                Some(m) => step(
                    FirewallPhase::Finished,
                    no_notes(),
                    Action::Fail(ModuleError::CommandFailed(m)),
                ),
                None => self.change_from(pkg, snap, 0),
            },
            FirewallPhase::Configuring(snap, i) => match run_outcome(event) {
                Some(m) => self.rollback_from(pkg, m, snap, i),
                None => {
                    assert(firewall_change_plan(pkg, self.distro()).len() <= 6);
                    self.change_from(pkg, snap, next_index(i))
                },
            },
            FirewallPhase::RollingBack(m, snap, f, j) => match run_outcome(event) {
                Some(e) => step(
                    FirewallPhase::Finished,
                    no_notes(),
                    Action::Fail(ModuleError::CommandFailed(e)),
                ),
                None => {
                    assert(firewall_undo_plan(pkg, self.distro(), snap, f as int).len() <= 3);
                    self.undo_from(pkg, m, snap, f, next_index(j))
                },
            },
            FirewallPhase::Finished => step(
                FirewallPhase::Finished,
                no_notes(),
                Action::Fail(ModuleError::Finished),
            ),
        }
    }
}

/// The firewall lets SSH in before it is switched on with the new rules: in every change
/// plan, the command that switches the firewall on comes last, and the rule that admits SSH
/// stands before it.
pub proof fn firewall_admits_ssh_before_enabling<P: PackageManager>(pkg: &P, distro: Distro)
    ensures
        ({
            let plan = firewall_change_plan(pkg, distro);
            &&& plan.len() >= 2
            &&& plan.last() == firewall_enable_command(distro)
            &&& plan.drop_last().contains(firewall_ssh_command(distro))
        }),
{
    let plan = firewall_change_plan(pkg, distro);
    match distro {
        Distro::Debian | Distro::Ubuntu => {
            assert(plan.drop_last()[2] == "ufw allow ssh"@);
        },
        Distro::RHEL | Distro::Fedora => {
            let head = opt_seq(pkg.enable_command("firewalld"@)) + opt_seq(
                pkg.start_command("firewalld"@),
            );
            assert(plan.drop_last()[head.len() as int] == "firewall-cmd --permanent --add-service=ssh"@);
        },
    }
}

/// What is saved is what is put back: the backup copies each configuration path to its
/// saved copy, the restore copies each saved copy back to its path, both for the same
/// paths, and no saved copy is one of the paths themselves.
pub proof fn firewall_restore_puts_back_the_saved_copies(distro: Distro)
    ensures
        ({
            let paths = firewall_saved_paths(distro);
            &&& paths.len() >= 1
            &&& firewall_backup_command(distro) == join_and(copy_list(paths, false))
            &&& firewall_restore_command(distro) == join_and(copy_list(paths, true))
            &&& forall|k: int|
                0 <= k < paths.len() ==> {
                    &&& #[trigger] copy_list(paths, false)[k] == copy_command(
                        paths[k],
                        saved_path(paths[k]),
                    )
                    &&& copy_list(paths, true)[k] == copy_command(saved_path(paths[k]), paths[k])
                }
            &&& forall|k: int, l: int|
                0 <= k < paths.len() && 0 <= l < paths.len() ==> #[trigger] saved_path(paths[k])
                    != #[trigger] paths[l]
        }),
{
    let paths = firewall_saved_paths(distro);
    reveal_strlit(".bak");
    reveal_strlit("/etc/default/ufw");
    reveal_strlit("/etc/ufw/ufw.conf");
    reveal_strlit("/etc/ufw/user.rules");
    reveal_strlit("/etc/ufw/user6.rules");
    reveal_strlit("/etc/firewalld");
    assert forall|k: int, l: int|
        0 <= k < paths.len() && 0 <= l < paths.len() implies #[trigger] saved_path(paths[k])
        != #[trigger] paths[l] by {
        if saved_path(paths[k]) == paths[l] {
            assert(saved_path(paths[k]).len() == paths[k].len() + 4);
            assert(saved_path(paths[k]).last() == 'k');
            assert(paths[l].last() == paths[l][paths[l].len() - 1]);
        }
    }
}

/// How a failure is answered. Before the configuration is saved, nothing has been changed:
/// a failure of the install, of a query or of the backup ends the module with the command's
/// error. A change that fails (an error, or an exit status other than 0) starts the
/// rollback, whose first command puts the saved configuration back; each undo command that
/// succeeds is followed by the next, and the last one by `FirewallRolledBack`. The state
/// that the rollback returns to is the one the queries answered: their exit status 0 means
/// running, or starting at boot.
pub proof fn firewall_failure_rolls_back<P: PackageManager>(
    m: &FirewallModule,
    pkg: &P,
    snap: FirewallSnapshot,
    i: usize,
    f: usize,
    j: usize,
    active: bool,
    message: String,
    event: Event,
)
    ensures
        run_failure(event) matches Some(e) ==> {
            &&& <FirewallModule as Module<P>>::transition(
                m,
                pkg,
                FirewallPhase::Installing(i),
                event,
            ).action == ActionView::Fail(ModuleErrorView::CommandFailed(e@))
            &&& <FirewallModule as Module<P>>::transition(
                m,
                pkg,
                FirewallPhase::BackingUp(snap),
                event,
            ).action == ActionView::Fail(ModuleErrorView::CommandFailed(e@))
            &&& <FirewallModule as Module<P>>::transition(
                m,
                pkg,
                FirewallPhase::Configuring(snap, i),
                event,
            ) == rollback_step(pkg, m.distro(), e, snap, i)
            &&& rollback_step(pkg, m.distro(), e, snap, i).action == ActionView::Run(
                firewall_restore_command(m.distro()),
            )
            &&& <FirewallModule as Module<P>>::transition(
                m,
                pkg,
                FirewallPhase::RollingBack(message, snap, f, j),
                event,
            ).action == ActionView::Fail(ModuleErrorView::CommandFailed(e@))
        },
        event matches Event::Error(e) ==> {
            &&& <FirewallModule as Module<P>>::transition(
                m,
                pkg,
                FirewallPhase::CheckingActive,
                event,
            ).action == ActionView::Fail(ModuleErrorView::CommandFailed(e@))
            &&& <FirewallModule as Module<P>>::transition(
                m,
                pkg,
                FirewallPhase::CheckingEnabled(active),
                event,
            ).action == ActionView::Fail(ModuleErrorView::CommandFailed(e@))
        },
        event matches Event::Output(_, status) ==> {
            &&& <FirewallModule as Module<P>>::transition(
                m,
                pkg,
                FirewallPhase::CheckingActive,
                event,
            ) == after_active_step(m.distro(), status == 0)
            &&& <FirewallModule as Module<P>>::transition(
                m,
                pkg,
                FirewallPhase::CheckingEnabled(active),
                event,
            ) == backup_step(m.distro(), FirewallSnapshot { active, enabled: status == 0 })
        },
        run_failure(event) is None ==> <FirewallModule as Module<P>>::transition(
            m,
            pkg,
            FirewallPhase::RollingBack(message, snap, f, j),
            event,
        ) == undo_step(pkg, m.distro(), message, snap, f, j + 1),
        undo_step(
            pkg,
            m.distro(),
            message,
            snap,
            f,
            firewall_undo_plan(pkg, m.distro(), snap, f as int).len() as int,
        ).action == ActionView::Fail(ModuleErrorView::FirewallRolledBack(message@)),
{
}

/// The rollback returns the firewall to the state it was found in: after the saved
/// configuration is put back, ufw is reloaded from it when it was enabled and disabled
/// when it was not; firewalld is switched off at boot when it was found so, stopped when it
/// was found stopped, and reloaded from the restored configuration only when it was running
/// and the failure came at the final reload, the one change to the running firewall.
pub proof fn firewall_undo_returns_to_the_snapshot<P: PackageManager>(
    pkg: &P,
    distro: Distro,
    snap: FirewallSnapshot,
    failed: int,
)
    ensures
        ({
            let undo = firewall_undo_plan(pkg, distro, snap, failed);
            let last_change = failed + 1 == firewall_change_plan(pkg, distro).len();
            &&& undo[0] == firewall_restore_command(distro)
            &&& match distro {
                Distro::Debian | Distro::Ubuntu => undo == seq![
                    firewall_restore_command(distro),
                    if snap.active {
                        "ufw reload"@
                    } else {
                        "ufw disable"@
                    },
                ],
                Distro::RHEL | Distro::Fedora => {
                    &&& undo.contains("systemctl disable firewalld"@) <==> !snap.enabled
                    &&& undo.contains("systemctl stop firewalld"@) <==> !snap.active
                    &&& undo.contains("firewall-cmd --reload"@) <==> snap.active && last_change
                    &&& undo.len() == 1 + (if snap.enabled {
                        0int
                    } else {
                        1int
                    }) + (if !snap.active || last_change {
                        1int
                    } else {
                        0int
                    })
                },
            }
        }),
{
    let undo = firewall_undo_plan(pkg, distro, snap, failed);
    match distro {
        Distro::Debian | Distro::Ubuntu => {},
        Distro::RHEL | Distro::Fedora => {
            reveal_strlit("systemctl disable firewalld");
            reveal_strlit("systemctl stop firewalld");
            reveal_strlit("firewall-cmd --reload");
            reveal_strlit("rm -rf ");
            let restore = firewall_restore_command(distro);
            lemma_restore_starts_with_r(distro);
            let d = "systemctl disable firewalld"@;
            let st = "systemctl stop firewalld"@;
            let rl = "firewall-cmd --reload"@;
            assert(d[10] != st[10]);
            assert(d[0] != rl[0]);
            assert(st[0] != rl[0]);
            assert(restore[0] != d[0] && restore[0] != rl[0]);
            if undo.contains(d) {
                let k = choose|k: int| 0 <= k < undo.len() && undo[k] == d;
                assert(k != 0);
            }
            if undo.contains(st) {
                let k = choose|k: int| 0 <= k < undo.len() && undo[k] == st;
                assert(k != 0);
            }
            if undo.contains(rl) {
                let k = choose|k: int| 0 <= k < undo.len() && undo[k] == rl;
                assert(k != 0);
            }
            if !snap.enabled {
                assert(undo[1] == d);
            }
            if !snap.active {
                assert(undo[undo.len() - 1] == st);
            } else if failed + 1 == firewall_change_plan(pkg, distro).len() {
                assert(undo[undo.len() - 1] == rl);
            }
        },
    }
}

proof fn lemma_join_first(cs: Seq<Seq<char>>)
    requires
        cs.len() >= 1,
        cs[0].len() >= 1,
    ensures
        join_and(cs).len() >= 1,
        join_and(cs)[0] == cs[0][0],
    decreases cs.len(),
{
    if cs.len() > 1 {
        lemma_join_first(cs.drop_last());
    }
}

proof fn lemma_restore_starts_with_r(distro: Distro)
    ensures
        firewall_restore_command(distro).len() >= 1,
        firewall_restore_command(distro)[0] == 'r',
{
    reveal_strlit("rm -rf ");
    let paths = firewall_saved_paths(distro);
    let cs = copy_list(paths, true);
    assert(cs[0] == copy_command(saved_path(paths[0]), paths[0]));
    assert(cs[0][0] == 'r');
    lemma_join_first(cs);
}

/// The step that a runner reaches after handing the module `events[0..k)` in turn, each as
/// the answer to the action of the step before.
pub open spec fn firewall_step_at<P: PackageManager>(
    m: &FirewallModule,
    pkg: &P,
    events: Seq<Event>,
    k: nat,
) -> StepView<FirewallPhase>
    decreases k,
{
    if k == 0 {
        <FirewallModule as Module<P>>::opening(m, pkg)
    } else {
        <FirewallModule as Module<P>>::transition(
            m,
            pkg,
            firewall_step_at(m, pkg, events, (k - 1) as nat).phase,
            events[k - 1],
        )
    }
}

proof fn lemma_firewall_shape<P: PackageManager>(
    m: &FirewallModule,
    pkg: &P,
    events: Seq<Event>,
    k: nat,
)
    ensures
        ({
            let s = firewall_step_at(m, pkg, events, k);
            let d = m.distro();
            &&& s.phase matches FirewallPhase::Configuring(_, i) ==> {
                &&& i < firewall_change_plan(pkg, d).len()
                &&& s.action == ActionView::Run(firewall_change_plan(pkg, d)[i as int])
            }
            &&& s.phase matches FirewallPhase::BackingUp(_) ==> s.action == ActionView::Run(
                firewall_backup_command(d),
            )
            &&& s.phase matches FirewallPhase::RollingBack(_, sn, f, j) ==> {
                &&& j < firewall_undo_plan(pkg, d, sn, f as int).len()
                &&& s.action == ActionView::Run(firewall_undo_plan(pkg, d, sn, f as int)[j as int])
            }
            &&& s.phase is Finished ==> (s.action is Done || s.action is Fail)
        }),
{
    if k > 0 {
        let prev = firewall_step_at(m, pkg, events, (k - 1) as nat);
    }
}

proof fn lemma_firewall_history<P: PackageManager>(
    m: &FirewallModule,
    pkg: &P,
    events: Seq<Event>,
    k: nat,
)
    ensures
        firewall_step_at(m, pkg, events, k).phase matches FirewallPhase::Configuring(sn, i) ==> {
            let prev = firewall_step_at(m, pkg, events, (k - 1) as nat).phase;
            &&& k > 0
            &&& run_failure(events[k - 1]) is None
            &&& i == 0 ==> prev == FirewallPhase::BackingUp(sn)
            &&& i > 0 ==> prev == FirewallPhase::Configuring(sn, (i - 1) as usize)
        },
{
    if k > 0 {
        let prev = firewall_step_at(m, pkg, events, (k - 1) as nat);
        lemma_firewall_shape(m, pkg, events, (k - 1) as nat);
    }
}

proof fn lemma_firewall_back<P: PackageManager>(
    m: &FirewallModule,
    pkg: &P,
    events: Seq<Event>,
    k: nat,
    sn: FirewallSnapshot,
    i: usize,
    t: nat,
)
    requires
        firewall_step_at(m, pkg, events, k).phase == FirewallPhase::Configuring(sn, i),
        t <= i,
    ensures
        k >= i - t + 1,
        firewall_step_at(m, pkg, events, (k - (i - t)) as nat).phase == FirewallPhase::Configuring(
            sn,
            t as usize,
        ),
        t < i ==> run_failure(events[k - (i - t)]) is None,
    decreases i - t,
{
    lemma_firewall_history(m, pkg, events, k);
    if t < i {
        lemma_firewall_back(m, pkg, events, (k - 1) as nat, sn, (i - 1) as usize, t);
        if t + 1 == i {
            assert(k - (i - t) == k - 1);
        }
    }
}

proof fn lemma_firewall_errors<P: PackageManager>(
    m: &FirewallModule,
    pkg: &P,
    events: Seq<Event>,
    k: nat,
)
    ensures
        (exists|f: int| 0 <= f < k && #[trigger] events[f] is Error) ==> {
            let s = firewall_step_at(m, pkg, events, k);
            &&& (s.phase is RollingBack || s.phase is Finished)
            &&& !(s.action is Done)
        },
    decreases k,
{
    if k > 0 {
        lemma_firewall_errors(m, pkg, events, (k - 1) as nat);
        if exists|f: int| 0 <= f < k && #[trigger] events[f] is Error {
            let f = choose|f: int| 0 <= f < k && #[trigger] events[f] is Error;
            if f < k - 1 {
                assert(exists|g: int| 0 <= g < k - 1 && #[trigger] events[g] is Error);
            }
        }
    }
}

/// Over any run, whatever the host answers:
/// - the firewall is switched on with the new rules only at a step after the one that
///   admitted SSH, and only when that step succeeded;
/// - no change is made before the configuration was saved successfully;
/// - once a command could not be run, the module only runs the undo commands of its
///   rollback, and ends in failure.
/// It needs only that the package manager's commands in the change plan are not the
/// command that switches the firewall on.
pub proof fn firewall_runs_safely<P: PackageManager>(
    m: &FirewallModule,
    pkg: &P,
    events: Seq<Event>,
    k: nat,
)
    requires
        k <= events.len(),
        !firewall_change_plan(pkg, m.distro()).drop_last().contains(
            firewall_enable_command(m.distro()),
        ),
    ensures
        ({
            let s = firewall_step_at(m, pkg, events, k);
            &&& s.phase is Configuring && s.action == ActionView::Run(
                firewall_enable_command(m.distro()),
            ) ==> exists|j: nat|
                #![trigger firewall_step_at(m, pkg, events, j)]
                j < k && firewall_step_at(m, pkg, events, j).phase is Configuring
                    && firewall_step_at(m, pkg, events, j).action == ActionView::Run(
                    firewall_ssh_command(m.distro()),
                ) && run_failure(events[j as int]) is None
            &&& s.phase is Configuring ==> exists|j: nat|
                #![trigger firewall_step_at(m, pkg, events, j)]
                j < k && firewall_step_at(m, pkg, events, j).action == ActionView::Run(
                    firewall_backup_command(m.distro()),
                ) && run_failure(events[j as int]) is None
            &&& (exists|f: int| 0 <= f < k && #[trigger] events[f] is Error) ==> {
                &&& !(s.action is Done)
                &&& s.action is Fail || (s.phase matches FirewallPhase::RollingBack(_, sn, f, j)
                    && s.action == ActionView::Run(
                    firewall_undo_plan(pkg, m.distro(), sn, f as int)[j as int],
                ))
            }
        }),
{
    let s = firewall_step_at(m, pkg, events, k);
    let d = m.distro();
    let plan = firewall_change_plan(pkg, d);
    lemma_firewall_shape(m, pkg, events, k);
    lemma_firewall_errors(m, pkg, events, k);
    if let FirewallPhase::Configuring(sn, i) = s.phase {
        lemma_firewall_back(m, pkg, events, k, sn, i, 0);
        let k0 = (k - i) as nat;
        lemma_firewall_history(m, pkg, events, k0);
        lemma_firewall_shape(m, pkg, events, (k0 - 1) as nat);
        assert(firewall_step_at(m, pkg, events, (k0 - 1) as nat).action == ActionView::Run(
            firewall_backup_command(d),
        ));
        if s.action == ActionView::Run(firewall_enable_command(d)) {
            firewall_admits_ssh_before_enabling(pkg, d);
            if i + 1 < plan.len() {
                assert(plan.drop_last()[i as int] == plan[i as int]);
            }
            assert(i + 1 == plan.len());
            let sidx = choose|x: int|
                0 <= x < plan.drop_last().len() && plan.drop_last()[x] == firewall_ssh_command(d);
            lemma_firewall_back(m, pkg, events, k, sn, i, sidx as nat);
            let js = (k - (i - sidx)) as nat;
            lemma_firewall_shape(m, pkg, events, js);
            assert(firewall_step_at(m, pkg, events, js).action == ActionView::Run(
                firewall_ssh_command(d),
            ));
        }
    }
}


/// The firewall lets web traffic in on every distribution: on Debian and Ubuntu alike the
/// change plan opens ports 80 and 443 before ufw is switched on, and Ubuntu's plan is
/// Debian's; on RHEL and Fedora alike the HTTP and HTTPS services are added before the
/// final reload, and Fedora's plan is RHEL's.
pub proof fn firewall_admits_web_traffic<P: PackageManager>(pkg: &P)
    ensures
        firewall_change_plan(pkg, Distro::Ubuntu) == firewall_change_plan(pkg, Distro::Debian),
        firewall_change_plan(pkg, Distro::Fedora) == firewall_change_plan(pkg, Distro::RHEL),
        ({
            let plan = firewall_change_plan(pkg, Distro::Debian);
            &&& plan.last() == "ufw --force enable"@
            &&& plan.drop_last().contains("ufw allow ssh"@)
            &&& plan.drop_last().contains("ufw allow 80/tcp"@)
            &&& plan.drop_last().contains("ufw allow 443/tcp"@)
            &&& plan.drop_last().contains("ufw default deny incoming"@)
        }),
        ({
            let plan = firewall_change_plan(pkg, Distro::RHEL);
            &&& plan.last() == "firewall-cmd --reload"@
            &&& plan.drop_last().contains("firewall-cmd --permanent --add-service=ssh"@)
            &&& plan.drop_last().contains("firewall-cmd --permanent --add-service=http"@)
            &&& plan.drop_last().contains("firewall-cmd --permanent --add-service=https"@)
        }),
{
    let deb = firewall_change_plan(pkg, Distro::Debian);
    assert(deb.drop_last()[0] == "ufw default deny incoming"@);
    assert(deb.drop_last()[2] == "ufw allow ssh"@);
    assert(deb.drop_last()[3] == "ufw allow 80/tcp"@);
    assert(deb.drop_last()[4] == "ufw allow 443/tcp"@);
    let rhel = firewall_change_plan(pkg, Distro::RHEL);
    let head = opt_seq(pkg.enable_command("firewalld"@)) + opt_seq(pkg.start_command("firewalld"@));
    assert(rhel.drop_last()[head.len() as int] == "firewall-cmd --permanent --add-service=ssh"@);
    assert(rhel.drop_last()[head.len() + 1int] == "firewall-cmd --permanent --add-service=http"@);
    assert(rhel.drop_last()[head.len() + 2int] == "firewall-cmd --permanent --add-service=https"@);
}


/// On Debian and Ubuntu the firewall first denies all incoming traffic and allows all
/// outgoing traffic, then admits SSH, HTTP (80/tcp) and HTTPS (443/tcp), and only then is
/// switched on; nothing else is changed.
pub proof fn ufw_policy_then_rules_then_enable<P: PackageManager>(pkg: &P, distro: Distro)
    requires
        distro == Distro::Debian || distro == Distro::Ubuntu,
    ensures
        firewall_change_plan(pkg, distro) == seq![
            "ufw default deny incoming"@,
            "ufw default allow outgoing"@,
            "ufw allow ssh"@,
            "ufw allow 80/tcp"@,
            "ufw allow 443/tcp"@,
            "ufw --force enable"@,
        ],
{
}

} // verus!
