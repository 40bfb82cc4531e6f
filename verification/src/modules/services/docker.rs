use vstd::prelude::*;

use crate::modules::{
    failed_step, finished_step, next_index, no_notes, one_note, opt_seq, plan_step, plan_step_view,
    push_some, push_text, step, texts, Action, ActionView, Event, Module, ModuleError, ModuleErrorView, Step,
    StepView, Tone,
};
use crate::os::detect::Distro;
use crate::os::PackageManager;

verus! {

/// Installs Docker Engine and Docker Compose from Docker's own repositories, enables and
/// starts the service, and adds the given user to the `docker` and `wheel` groups.
pub struct DockerModule<'a> {
    distro: Distro,
    user: Option<&'a str>,
}

/// Where the Docker module stands.
#[derive(Debug, Clone, Copy, PartialEq, Eq, Structural)]
pub enum DockerPhase {
    /// Waiting for the answer to the "is docker installed" query.
    Checking,
    /// Waiting for the command at this index of the install plan.
    Installing(usize),
    /// Done or failed.
    Finished,
}

/// The packages of Docker Engine and Docker Compose.
pub open spec fn docker_packages() -> Seq<Seq<char>> {
    seq!["docker-ce"@, "docker-ce-cli"@, "containerd.io"@, "docker-compose-plugin"@]
}

/// Docker's repository for a Debian-family `distro`.
pub open spec fn docker_repo_url(distro: Distro) -> Seq<char> {
    if distro == Distro::Ubuntu {
        "https://download.docker.com/linux/ubuntu"@
    } else {
        "https://download.docker.com/linux/debian"@
    }
}

/// The commands that add Docker's repository and install Docker on `distro`.
pub open spec fn docker_repo_plan<P: PackageManager>(pkg: &P, distro: Distro) -> Seq<Seq<char>> {
    match distro {
        Distro::Debian | Distro::Ubuntu => {
            let url = docker_repo_url(distro);
            opt_seq(pkg.install_command(seq!["ca-certificates"@, "curl"@, "gnupg"@])) + seq![
                "sudo install -m 0755 -d /etc/apt/keyrings"@,
                "curl -fsSL "@ + url + "/gpg -o /tmp/docker.gpg"@,
                "sudo sh -c 'gpg --batch --dearmor -o /etc/apt/keyrings/docker.gpg < /tmp/docker.gpg'"@,
                "sudo chmod a+r /etc/apt/keyrings/docker.gpg"@,
                "sudo sh -c 'echo \"deb [arch=$(dpkg --print-architecture) signed-by=/etc/apt/keyrings/docker.gpg] "@
                    + url
                    + " $(lsb_release -cs) stable\" > /etc/apt/sources.list.d/docker.list'"@,
            ] + opt_seq(pkg.update_command()) + opt_seq(pkg.install_command(docker_packages()))
        },
        Distro::RHEL | Distro::Fedora => opt_seq(pkg.install_command(seq!["dnf-plugins-core"@]))
            + seq![
            "sudo dnf config-manager --add-repo https://download.docker.com/linux/rhel/docker-ce.repo"@,
        ] + opt_seq(pkg.install_command(docker_packages())),
    }
}

impl<'a> DockerModule<'a> {
    pub fn new(distro: &Distro, user: Option<&'a str>) -> (m: Self)
        ensures
            m.distro() == *distro,
            m.user() == user,
    {
        DockerModule { distro: *distro, user }
    }

    pub closed spec fn distro(&self) -> Distro {
        self.distro
    }

    pub closed spec fn user(&self) -> Option<&'a str> {
        self.user
    }

    /// The commands that install Docker, enable and start it, and add the user to its group.
    pub open spec fn install_plan<P: PackageManager>(&self, pkg: &P) -> Seq<Seq<char>> {
        docker_repo_plan(pkg, self.distro()) + opt_seq(pkg.enable_command("docker"@)) + opt_seq(
            pkg.start_command("docker"@),
        ) + match self.user() {
            Some(u) => seq!["sudo usermod -aG docker,wheel "@ + u@],
            None => Seq::empty(),
        }
    }

    pub open spec fn plan_from<P: PackageManager>(&self, pkg: &P, index: int) -> StepView<
        DockerPhase,
    > {
        plan_step_view(
            self.install_plan(pkg),
            index,
            DockerPhase::Installing(index as usize),
            DockerPhase::Finished,
            seq![(Tone::Success, "Docker installed"@)],
        )
    }

    fn plan<P: PackageManager>(&self, pkg: &P) -> (v: Vec<String>)
        ensures
            texts(v@) == self.install_plan(pkg),
    {
        let mut v: Vec<String> = Vec::new();
        let engine: Vec<&str> = vec!["docker-ce", "docker-ce-cli", "containerd.io", "docker-compose-plugin"];
        assert(crate::text::texts_of(engine@) =~= docker_packages());
        match self.distro {
            Distro::Debian | Distro::Ubuntu => {
                let url = if self.distro == Distro::Ubuntu {
                    "https://download.docker.com/linux/ubuntu"
                } else {
                    "https://download.docker.com/linux/debian"
                };
                let tools: Vec<&str> = vec!["ca-certificates", "curl", "gnupg"];
                assert(crate::text::texts_of(tools@) =~= seq!["ca-certificates"@, "curl"@, "gnupg"@]);
                push_some(&mut v, pkg.install(tools.as_slice()));
                push_text(&mut v, String::from_str("sudo install -m 0755 -d /etc/apt/keyrings"));
                let mut fetch = String::from_str("curl -fsSL ");
                fetch.append(url);
                fetch.append("/gpg -o /tmp/docker.gpg");
                push_text(&mut v, fetch);
                push_text(&mut v, String::from_str("sudo sh -c 'gpg --batch --dearmor -o /etc/apt/keyrings/docker.gpg < /tmp/docker.gpg'"));
                push_text(&mut v, String::from_str("sudo chmod a+r /etc/apt/keyrings/docker.gpg"));
                let mut source = String::from_str("sudo sh -c 'echo \"deb [arch=$(dpkg --print-architecture) signed-by=/etc/apt/keyrings/docker.gpg] ");
                source.append(url);
                source.append(" $(lsb_release -cs) stable\" > /etc/apt/sources.list.d/docker.list'");
                push_text(&mut v, source);
                push_some(&mut v, pkg.update());
                push_some(&mut v, pkg.install(engine.as_slice()));
            },
            Distro::RHEL | Distro::Fedora => {
                let tools: Vec<&str> = vec!["dnf-plugins-core"];
                assert(crate::text::texts_of(tools@) =~= seq!["dnf-plugins-core"@]);
                push_some(&mut v, pkg.install(tools.as_slice()));
                push_text(&mut v, String::from_str("sudo dnf config-manager --add-repo https://download.docker.com/linux/rhel/docker-ce.repo"));
                push_some(&mut v, pkg.install(engine.as_slice()));
            },
        }
        assert(texts(v@) =~= docker_repo_plan(pkg, self.distro()));
        let ghost repo = texts(v@);
        push_some(&mut v, pkg.enable_service("docker"));
        push_some(&mut v, pkg.start_service("docker"));
        match self.user {
            Some(u) => {
                let mut add = String::from_str("sudo usermod -aG docker,wheel ");
                add.append(u);
                push_text(&mut v, add);
            },
            None => {},
        }
        assert(texts(v@) =~= self.install_plan(pkg));
        v
    }

    fn from_index<P: PackageManager>(&self, pkg: &P, index: usize) -> (s: Step<DockerPhase>)
        ensures
            s@ == self.plan_from(pkg, index as int),
    {
        let plan = self.plan(pkg);
        plan_step(
            &plan,
            index,
            DockerPhase::Installing(index),
            DockerPhase::Finished,
            one_note(Tone::Success, String::from_str("Docker installed")),
        )
    }
}

impl<'a, P: PackageManager> Module<P> for DockerModule<'a> {
    type Phase = DockerPhase;

    open spec fn spec_name(&self) -> Seq<char> {
        "docker"@
    }

    open spec fn opening(&self, pkg: &P) -> StepView<DockerPhase> {
        match pkg.installed_query("docker"@) {
            Some(q) => StepView {
                phase: DockerPhase::Checking,
                notes: Seq::empty(),
                action: ActionView::Query(q),
            },
            None => self.plan_from(pkg, 0),
        }
    }

    open spec fn transition(&self, pkg: &P, phase: DockerPhase, event: Event) -> StepView<
        DockerPhase,
    > {
        match event {
            Event::Error(m) => failed_step(DockerPhase::Finished, m@),
            Event::Output(out, status) => match phase {
                DockerPhase::Checking => if pkg.installed_status(status) {
                    StepView {
                        phase: DockerPhase::Finished,
                        notes: seq![(Tone::Success, "Docker already installed"@)],
                        action: ActionView::Done,
                    }
                } else {
                    self.plan_from(pkg, 0)
                },
                DockerPhase::Installing(i) => if status == 0 {
                    self.plan_from(pkg, i + 1)
                } else {
                    failed_step(DockerPhase::Finished, out@)
                },
                DockerPhase::Finished => finished_step(DockerPhase::Finished),
            },
        }
    }

    fn name(&self) -> (n: String) {
        String::from_str("docker")
    }

    fn start(&self, pkg: &P) -> (s: Step<DockerPhase>) {
        match pkg.is_installed("docker") {
            Some(q) => step(DockerPhase::Checking, no_notes(), Action::Query(q)),
            None => self.from_index(pkg, 0),
        }
    }

    fn resume(&self, pkg: &P, phase: DockerPhase, event: Event) -> (s: Step<DockerPhase>) {
        match event {
            Event::Error(m) => step(
                DockerPhase::Finished,
                no_notes(),
                Action::Fail(ModuleError::CommandFailed(m)),
            ),
            Event::Output(out, status) => match phase {
                DockerPhase::Checking => if pkg.is_installed_status(status) {
                    step(
                        DockerPhase::Finished,
                        one_note(Tone::Success, String::from_str("Docker already installed")),
                        Action::Done,
                    )
                } else {
                    self.from_index(pkg, 0)
                },
                DockerPhase::Installing(i) => if status != 0 {
                    step(DockerPhase::Finished, no_notes(), Action::Fail(ModuleError::CommandFailed(out)))
                } else {
                    assert(self.install_plan(pkg).len() <= 12);
                    self.from_index(pkg, next_index(i))
                },
                DockerPhase::Finished => step(
                    DockerPhase::Finished,
                    no_notes(),
                    Action::Fail(ModuleError::Finished),
                ),
            },
        }
    }
}

/// A host where Docker is already installed is left as it is: the module first asks whether it is installed, and ends without running anything when the answer says so. A command that fails stops the module with its message.
pub proof fn docker_leaves_installed_host_alone<'a, P: PackageManager>(
    m: &DockerModule<'a>,
    pkg: &P,
    phase: DockerPhase,
    output: String,
    status: i32,
    message: String,
)
    ensures
        pkg.installed_query("docker"@) matches Some(q) ==> <DockerModule<'a> as Module<P>>::opening(
            m,
            pkg,
        ).action == ActionView::Query(q),
        pkg.installed_status(status) ==> <DockerModule<'a> as Module<P>>::transition(
            m,
            pkg,
            DockerPhase::Checking,
            Event::Output(output, status),
        ).action == ActionView::Done,
        <DockerModule<'a> as Module<P>>::transition(m, pkg, phase, Event::Error(message)).action
            == ActionView::Fail(ModuleErrorView::CommandFailed(message@)),
{
}


/// Docker's repository is the one for the host's own distribution: on Debian the key and
/// the apt source come from `https://download.docker.com/linux/debian`, on Ubuntu from
/// `https://download.docker.com/linux/ubuntu`, and on RHEL and Fedora the repository file
/// is that of `https://download.docker.com/linux/rhel`.
pub proof fn docker_uses_the_distributions_repository<P: PackageManager>(pkg: &P)
    ensures
        docker_repo_plan(pkg, Distro::Debian).contains(
            "curl -fsSL https://download.docker.com/linux/debian/gpg -o /tmp/docker.gpg"@,
        ),
        docker_repo_plan(pkg, Distro::Debian).contains(
            "sudo sh -c 'echo \"deb [arch=$(dpkg --print-architecture) signed-by=/etc/apt/keyrings/docker.gpg] https://download.docker.com/linux/debian $(lsb_release -cs) stable\" > /etc/apt/sources.list.d/docker.list'"@,
        ),
        docker_repo_plan(pkg, Distro::Ubuntu).contains(
            "curl -fsSL https://download.docker.com/linux/ubuntu/gpg -o /tmp/docker.gpg"@,
        ),
        docker_repo_plan(pkg, Distro::Ubuntu).contains(
            "sudo sh -c 'echo \"deb [arch=$(dpkg --print-architecture) signed-by=/etc/apt/keyrings/docker.gpg] https://download.docker.com/linux/ubuntu $(lsb_release -cs) stable\" > /etc/apt/sources.list.d/docker.list'"@,
        ),
        docker_repo_plan(pkg, Distro::RHEL).contains(
            "sudo dnf config-manager --add-repo https://download.docker.com/linux/rhel/docker-ce.repo"@,
        ),
        docker_repo_plan(pkg, Distro::Fedora) == docker_repo_plan(pkg, Distro::RHEL),
{
    reveal_strlit("https://download.docker.com/linux/debian");
    reveal_strlit("https://download.docker.com/linux/ubuntu");
    reveal_strlit("curl -fsSL ");
    reveal_strlit("/gpg -o /tmp/docker.gpg");
    reveal_strlit("sudo sh -c 'echo \"deb [arch=$(dpkg --print-architecture) signed-by=/etc/apt/keyrings/docker.gpg] ");
    reveal_strlit(" $(lsb_release -cs) stable\" > /etc/apt/sources.list.d/docker.list'");
    reveal_strlit("curl -fsSL https://download.docker.com/linux/debian/gpg -o /tmp/docker.gpg");
    reveal_strlit("curl -fsSL https://download.docker.com/linux/ubuntu/gpg -o /tmp/docker.gpg");
    reveal_strlit("sudo sh -c 'echo \"deb [arch=$(dpkg --print-architecture) signed-by=/etc/apt/keyrings/docker.gpg] https://download.docker.com/linux/debian $(lsb_release -cs) stable\" > /etc/apt/sources.list.d/docker.list'");
    reveal_strlit("sudo sh -c 'echo \"deb [arch=$(dpkg --print-architecture) signed-by=/etc/apt/keyrings/docker.gpg] https://download.docker.com/linux/ubuntu $(lsb_release -cs) stable\" > /etc/apt/sources.list.d/docker.list'");
    let tools = opt_seq(pkg.install_command(seq!["ca-certificates"@, "curl"@, "gnupg"@]));
    let n = tools.len() as int;
    let deb = docker_repo_plan(pkg, Distro::Debian);
    let ubu = docker_repo_plan(pkg, Distro::Ubuntu);
    assert(deb[n + 1] =~= "curl -fsSL https://download.docker.com/linux/debian/gpg -o /tmp/docker.gpg"@);
    assert(deb[n + 4] =~= "sudo sh -c 'echo \"deb [arch=$(dpkg --print-architecture) signed-by=/etc/apt/keyrings/docker.gpg] https://download.docker.com/linux/debian $(lsb_release -cs) stable\" > /etc/apt/sources.list.d/docker.list'"@);
    assert(ubu[n + 1] =~= "curl -fsSL https://download.docker.com/linux/ubuntu/gpg -o /tmp/docker.gpg"@);
    assert(ubu[n + 4] =~= "sudo sh -c 'echo \"deb [arch=$(dpkg --print-architecture) signed-by=/etc/apt/keyrings/docker.gpg] https://download.docker.com/linux/ubuntu $(lsb_release -cs) stable\" > /etc/apt/sources.list.d/docker.list'"@);
    let rhel = docker_repo_plan(pkg, Distro::RHEL);
    let head = opt_seq(pkg.install_command(seq!["dnf-plugins-core"@]));
    assert(rhel[head.len() as int] == "sudo dnf config-manager --add-repo https://download.docker.com/linux/rhel/docker-ce.repo"@);
}


/// Docker Engine, its command line, containerd and the Compose plugin are all installed,
/// after the repository is declared; the service is enabled and started after that, and a
/// given user is added to the `docker` group last.
pub proof fn docker_installs_engine_and_compose<'a, P: PackageManager>(
    m: &DockerModule<'a>,
    pkg: &P,
)
    ensures
        docker_packages().contains("docker-ce"@),
        docker_packages().contains("docker-ce-cli"@),
        docker_packages().contains("containerd.io"@),
        docker_packages().contains("docker-compose-plugin"@),
        pkg.install_command(docker_packages()) matches Some(c) ==> docker_repo_plan(
            pkg,
            m.distro(),
        ).last() == c,
        m.user() matches Some(u) ==> m.install_plan(pkg).last() == "sudo usermod -aG docker,wheel "@
            + u@,
        pkg.start_command("docker"@) matches Some(c) ==> m.install_plan(pkg).contains(c),
        pkg.enable_command("docker"@) matches Some(c) ==> m.install_plan(pkg).contains(c),
{
    let ps = docker_packages();
    assert(ps[0] == "docker-ce"@);
    assert(ps[1] == "docker-ce-cli"@);
    assert(ps[2] == "containerd.io"@);
    assert(ps[3] == "docker-compose-plugin"@);
    let repo = docker_repo_plan(pkg, m.distro());
    let en = opt_seq(pkg.enable_command("docker"@));
    if let Some(c) = pkg.enable_command("docker"@) {
        assert(m.install_plan(pkg)[repo.len() as int] == c);
    }
    if let Some(c) = pkg.start_command("docker"@) {
        assert(m.install_plan(pkg)[(repo.len() + en.len()) as int] == c);
    }
}

} // verus!
