use vstd::prelude::*;

use crate::modules::{
    failed_step, finished_step, next_index, no_notes, one_note, opt_seq, plan_step, plan_step_view,
    push_some, push_text, step, texts, Action, ActionView, Event, Module, ModuleError, ModuleErrorView, Step,
    StepView, Tone,
};
use crate::os::detect::Distro;
use crate::os::PackageManager;

verus! {

/// Installs Redis, binds it to the loopback address, and enables and starts its service.
pub struct RedisModule {
    distro: Distro,
}

/// Where the Redis module stands.
#[derive(Debug, Clone, Copy, PartialEq, Eq, Structural)]
pub enum RedisPhase {
    /// Waiting for the answer to the "is redis installed" query.
    Checking,
    /// Waiting for the command at this index of the install plan.
    Installing(usize),
    /// Done or failed.
    Finished,
}

/// Where the Redis configuration file lives on `distro`.
pub open spec fn redis_conf_path(distro: Distro) -> Seq<char> {
    match distro {
        Distro::Debian | Distro::Ubuntu => "/etc/redis/redis.conf"@,
        Distro::RHEL | Distro::Fedora => "/etc/redis.conf"@,
    }
}

/// The command that makes Redis listen on 127.0.0.1 only.
pub open spec fn redis_bind_command(distro: Distro) -> Seq<char> {
    "sudo sed -i 's/^bind .*/bind 127.0.0.1/' "@ + redis_conf_path(distro)
}

impl RedisModule {
    pub fn new(distro: &Distro) -> (m: Self)
        ensures
            m.distro() == *distro,
    {
        RedisModule { distro: *distro }
    }

    pub closed spec fn distro(&self) -> Distro {
        self.distro
    }

    /// The commands that install Redis, bind it to the loopback address, and enable and
    /// start it.
    pub open spec fn install_plan<P: PackageManager>(&self, pkg: &P) -> Seq<Seq<char>> {
        opt_seq(pkg.install_command(seq!["redis"@])) + seq![redis_bind_command(self.distro())]
            + opt_seq(pkg.enable_command("redis"@)) + opt_seq(pkg.start_command("redis"@))
    }

    pub open spec fn plan_from<P: PackageManager>(&self, pkg: &P, index: int) -> StepView<
        RedisPhase,
    > {
        plan_step_view(
            self.install_plan(pkg),
            index,
            RedisPhase::Installing(index as usize),
            RedisPhase::Finished,
            seq![(Tone::Success, "Redis installed"@)],
        )
    }

    fn bind_command(&self) -> (c: String)
        ensures
            c@ == redis_bind_command(self.distro()),
    {
        let mut c = String::from_str("sudo sed -i 's/^bind .*/bind 127.0.0.1/' ");
        match self.distro {
            Distro::Debian | Distro::Ubuntu => c.append("/etc/redis/redis.conf"),
            Distro::RHEL | Distro::Fedora => c.append("/etc/redis.conf"),
        }
        c
    }

    fn plan<P: PackageManager>(&self, pkg: &P) -> (v: Vec<String>)
        ensures
            texts(v@) == self.install_plan(pkg),
    {
        let mut v: Vec<String> = Vec::new();
        let names: Vec<&str> = vec!["redis"];
        assert(crate::text::texts_of(names@) =~= seq!["redis"@]);
        push_some(&mut v, pkg.install(names.as_slice()));
        push_text(&mut v, self.bind_command());
        push_some(&mut v, pkg.enable_service("redis"));
        push_some(&mut v, pkg.start_service("redis"));
        assert(texts(v@) =~= self.install_plan(pkg));
        v
    }

    fn from_index<P: PackageManager>(&self, pkg: &P, index: usize) -> (s: Step<RedisPhase>)
        ensures
            s@ == self.plan_from(pkg, index as int),
    {
        let plan = self.plan(pkg);
        plan_step(
            &plan,
            index,
            RedisPhase::Installing(index),
            RedisPhase::Finished,
            one_note(Tone::Success, String::from_str("Redis installed")),
        )
    }
}

impl<P: PackageManager> Module<P> for RedisModule {
    type Phase = RedisPhase;

    open spec fn spec_name(&self) -> Seq<char> {
        "redis"@
    }

    open spec fn opening(&self, pkg: &P) -> StepView<RedisPhase> {
        match pkg.installed_query("redis"@) {
            Some(q) => StepView {
                phase: RedisPhase::Checking,
                notes: Seq::empty(),
                action: ActionView::Query(q),
            },
            None => self.plan_from(pkg, 0),
        }
    }

    open spec fn transition(&self, pkg: &P, phase: RedisPhase, event: Event) -> StepView<
        RedisPhase,
    > {
        match event {
            Event::Error(m) => failed_step(RedisPhase::Finished, m@),
            Event::Output(out, status) => match phase {
                RedisPhase::Checking => if pkg.installed_status(status) {
                    StepView {
                        phase: RedisPhase::Finished,
                        notes: seq![(Tone::Success, "Redis already installed"@)],
                        action: ActionView::Done,
                    }
                } else {
                    self.plan_from(pkg, 0)
                },
                RedisPhase::Installing(i) => if status == 0 {
                    self.plan_from(pkg, i + 1)
                } else {
                    failed_step(RedisPhase::Finished, out@)
                },
                RedisPhase::Finished => finished_step(RedisPhase::Finished),
            },
        }
    }

    fn name(&self) -> (n: String) {
        String::from_str("redis")
    }

    fn start(&self, pkg: &P) -> (s: Step<RedisPhase>) {
        match pkg.is_installed("redis") {
            Some(q) => step(RedisPhase::Checking, no_notes(), Action::Query(q)),
            None => self.from_index(pkg, 0),
        }
    }

    fn resume(&self, pkg: &P, phase: RedisPhase, event: Event) -> (s: Step<RedisPhase>) {
        match event {
            Event::Error(m) => step(
                RedisPhase::Finished,
                no_notes(),
                Action::Fail(ModuleError::CommandFailed(m)),
            ),
            Event::Output(out, status) => match phase {
                RedisPhase::Checking => if pkg.is_installed_status(status) {
                    step(
                        RedisPhase::Finished,
                        one_note(Tone::Success, String::from_str("Redis already installed")),
                        Action::Done,
                    )
                } else {
                    self.from_index(pkg, 0)
                },
                RedisPhase::Installing(i) => if status != 0 {
                    step(RedisPhase::Finished, no_notes(), Action::Fail(ModuleError::CommandFailed(out)))
                } else {
                    assert(self.install_plan(pkg).len() <= 4);
                    self.from_index(pkg, next_index(i))
                },
                RedisPhase::Finished => step(
                    RedisPhase::Finished,
                    no_notes(),
                    Action::Fail(ModuleError::Finished),
                ),
            },
        }
    }
}

/// A host where Redis is already installed is left as it is: the module first asks whether it is installed, and ends without running anything when the answer says so. A command that fails stops the module with its message.
pub proof fn redis_leaves_installed_host_alone<P: PackageManager>(
    m: &RedisModule,
    pkg: &P,
    phase: RedisPhase,
    output: String,
    status: i32,
    message: String,
)
    ensures
        pkg.installed_query("redis"@) matches Some(q) ==> <RedisModule as Module<P>>::opening(
            m,
            pkg,
        ).action == ActionView::Query(q),
        pkg.installed_status(status) ==> <RedisModule as Module<P>>::transition(
            m,
            pkg,
            RedisPhase::Checking,
            Event::Output(output, status),
        ).action == ActionView::Done,
        <RedisModule as Module<P>>::transition(m, pkg, phase, Event::Error(message)).action
            == ActionView::Fail(ModuleErrorView::CommandFailed(message@)),
{
}


/// Redis is bound to the loopback address in the file where each distribution keeps its
/// configuration: `/etc/redis/redis.conf` on Debian and Ubuntu alike, `/etc/redis.conf` on
/// RHEL and Fedora; the bind command runs right after the install command.
pub proof fn redis_binds_in_the_distributions_config<P: PackageManager>(m: &RedisModule, pkg: &P)
    ensures
        redis_bind_command(Distro::Debian)
            == "sudo sed -i 's/^bind .*/bind 127.0.0.1/' /etc/redis/redis.conf"@,
        redis_bind_command(Distro::Ubuntu)
            == "sudo sed -i 's/^bind .*/bind 127.0.0.1/' /etc/redis/redis.conf"@,
        redis_bind_command(Distro::RHEL) == "sudo sed -i 's/^bind .*/bind 127.0.0.1/' /etc/redis.conf"@,
        redis_bind_command(Distro::Fedora)
            == "sudo sed -i 's/^bind .*/bind 127.0.0.1/' /etc/redis.conf"@,
        m.install_plan(pkg)[opt_seq(pkg.install_command(seq!["redis"@])).len() as int]
            == redis_bind_command(m.distro()),
{
    reveal_strlit("sudo sed -i 's/^bind .*/bind 127.0.0.1/' ");
    reveal_strlit("/etc/redis/redis.conf");
    reveal_strlit("/etc/redis.conf");
    reveal_strlit("sudo sed -i 's/^bind .*/bind 127.0.0.1/' /etc/redis/redis.conf");
    reveal_strlit("sudo sed -i 's/^bind .*/bind 127.0.0.1/' /etc/redis.conf");
    assert(redis_bind_command(Distro::Debian)
        =~= "sudo sed -i 's/^bind .*/bind 127.0.0.1/' /etc/redis/redis.conf"@);
    assert(redis_bind_command(Distro::RHEL)
        =~= "sudo sed -i 's/^bind .*/bind 127.0.0.1/' /etc/redis.conf"@);
}


/// The Redis package is installed, then bound, then its service is enabled and started.
pub proof fn redis_installs_then_enables_and_starts<P: PackageManager>(m: &RedisModule, pkg: &P)
    ensures
        pkg.install_command(seq!["redis"@]) matches Some(c) ==> m.install_plan(pkg)[0] == c,
        pkg.enable_command("redis"@) matches Some(c) ==> m.install_plan(pkg).contains(c),
        pkg.start_command("redis"@) matches Some(c) ==> m.install_plan(pkg).last() == c,
{
    let head = opt_seq(pkg.install_command(seq!["redis"@]));
    if let Some(c) = pkg.enable_command("redis"@) {
        assert(m.install_plan(pkg)[head.len() + 1int] == c);
    }
}

} // verus!
