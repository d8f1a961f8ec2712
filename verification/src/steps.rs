//! What each step asks of the driver.

use vstd::prelude::*;
use vstd::string::*;
use crate::command::{Action, ActionView, Append, AppendView, Invocation, InvocationView};
use crate::environment::{Environment, EnvironmentView, HOME, PATH};
use crate::error::Operation;
use crate::plan::{Bundle, Fact, PipJob, Step, Tool};
use crate::utils::{
    apt_install, apt_update, apt_update_view, git_clone, install_args, line, pip_args,
    pip_install, pipx_install, pipx_path, python_path, python_program, write_to_file,
};

verus! {

/// The variable that switches the package manager's questions off.
pub const FRONTEND: &'static str = "DEBIAN_FRONTEND";

/// The value of [`FRONTEND`] that does so.
pub const NONINTERACTIVE: &'static str = "noninteractive";

/// Where the imported signing key is kept.
pub const KEYRING: &'static str = "/usr/share/keyrings/docker-archive-keyring.gpg";

/// The package source file of the container runtime.
pub const SOURCE_LIST: &'static str = "/etc/apt/sources.list.d/docker.list";

impl Bundle {
    /// The packages, in the order in which they are named to `apt-get`.
    pub open spec fn packages(self) -> Seq<Seq<char>> {
        match self {
            Bundle::ReleaseInfo => seq!["lsb-release"@],
            Bundle::Shell => seq!["zsh"@, "curl"@, "wget"@, "git"@],
            Bundle::Timezone => seq!["tzdata"@],
            Bundle::BuildDeps => seq![
                "make"@,
                "build-essential"@,
                "libssl-dev"@,
                "zlib1g-dev"@,
                "libbz2-dev"@,
                "libreadline-dev"@,
                "libsqlite3-dev"@,
                "llvm"@,
                "libncurses5-dev"@,
                "xz-utils"@,
                "tk-dev"@,
                "libxml2-dev"@,
                "libxmlsec1-dev"@,
                "libffi-dev"@,
                "liblzma-dev"@,
            ],
            Bundle::Tls => seq!["apt-transport-https"@, "ca-certificates"@, "curl"@, "gnupg"@],
            Bundle::Container => seq!["docker-ce"@, "docker-ce-cli"@, "containerd.io"@],
            Bundle::Editor => seq!["vim"@],
        }
    }

    /// The flags that follow the packages.
    pub open spec fn options(self) -> Seq<Seq<char>> {
        match self {
            Bundle::Timezone | Bundle::BuildDeps => seq!["-y"@, "--no-install-recommends"@],
            _ => seq!["-y"@],
        }
    }

    pub fn package_names(&self) -> (r: Vec<&'static str>)
        ensures
            r.deep_view() == self.packages(),
    {
        let names = match self {
            Bundle::ReleaseInfo => vec!["lsb-release"],
            Bundle::Shell => vec!["zsh", "curl", "wget", "git"],
            Bundle::Timezone => vec!["tzdata"],
            Bundle::BuildDeps => vec![
                "make",
                "build-essential",
                "libssl-dev",
                "zlib1g-dev",
                "libbz2-dev",
                "libreadline-dev",
                "libsqlite3-dev",
                "llvm",
                "libncurses5-dev",
                "xz-utils",
                "tk-dev",
                "libxml2-dev",
                "libxmlsec1-dev",
                "libffi-dev",
                "liblzma-dev",
            ],
            Bundle::Tls => vec!["apt-transport-https", "ca-certificates", "curl", "gnupg"],
            Bundle::Container => vec!["docker-ce", "docker-ce-cli", "containerd.io"],
            Bundle::Editor => vec!["vim"],
        };
        assert(names.deep_view() =~= self.packages());
        names
    }

    pub fn option_flags(&self) -> (r: Vec<&'static str>)
        ensures
            r.deep_view() == self.options(),
    {
        let flags = match self {
            Bundle::Timezone | Bundle::BuildDeps => vec!["-y", "--no-install-recommends"],
            _ => vec!["-y"],
        };
        assert(flags.deep_view() =~= self.options());
        flags
    }

    /// `apt-get install` of the bundle.
    pub open spec fn install_view(self) -> InvocationView {
        InvocationView {
            program: "apt-get"@,
            args: install_args(self.packages(), Some(self.options())),
            operation: Operation::AptInstall,
        }
    }

    pub fn install(&self) -> (r: Invocation)
        ensures
            r@ == self.install_view(),
    {
        apt_install(self.package_names(), Some(self.option_flags()))
    }
}

/// A path under the user's home directory.
pub open spec fn under_home(env: EnvironmentView, rest: Seq<char>) -> Seq<char> {
    env.home_var + rest
}

pub fn home_path(env_vars: &Environment, rest: &str) -> (r: String)
    ensures
        r@ == under_home(env_vars@, rest@),
{
    let mut path = env_vars.home_var.clone();
    path.append(rest);
    path
}

/// `lsb_release -cs`, which prints the release codename on a line.
pub open spec fn release_query_view() -> InvocationView {
    InvocationView {
        program: "lsb_release"@,
        args: seq!["-cs"@],
        operation: Operation::ReleaseQuery,
    }
}

pub fn release_query() -> (r: Invocation)
    ensures
        r@ == release_query_view(),
{
    let mut args: Vec<String> = Vec::new();
    args.push(String::from_str("-cs"));
    assert(args.deep_view() =~= seq!["-cs"@]);
    Invocation {
        program: String::from_str("lsb_release"),
        args,
        operation: Operation::ReleaseQuery,
    }
}

/// `wget` of the shell framework's installer script.
pub open spec fn download_view() -> InvocationView {
    InvocationView {
        program: "wget"@,
        args: seq!["https://raw.githubusercontent.com/ohmyzsh/ohmyzsh/master/tools/install.sh"@],
        operation: Operation::Download,
    }
}

pub fn download() -> (r: Invocation)
    ensures
        r@ == download_view(),
{
    let mut args: Vec<String> = Vec::new();
    args.push(
        String::from_str(
            "https://raw.githubusercontent.com/ohmyzsh/ohmyzsh/master/tools/install.sh",
        ),
    );
    assert(args.deep_view() =~= download_view().args);
    Invocation { program: String::from_str("wget"), args, operation: Operation::Download }
}

/// Shallow clone of the fuzzy finder into `<home>/.fzf`.
pub open spec fn finder_clone_view(env: EnvironmentView) -> InvocationView {
    InvocationView {
        program: "git"@,
        args: seq![
            "clone"@,
            "--depth=1"@,
            "https://github.com/junegunn/fzf.git"@,
            under_home(env, "/.fzf"@),
        ],
        operation: Operation::GitClone,
    }
}

pub fn finder_clone(env_vars: &Environment) -> (r: Invocation)
    ensures
        r@ == finder_clone_view(env_vars@),
{
    let destination = home_path(env_vars, "/.fzf");
    git_clone("https://github.com/junegunn/fzf.git", destination.as_str())
}

/// `<home>/.fzf/install --all`.
pub open spec fn finder_install_view(env: EnvironmentView) -> InvocationView {
    InvocationView {
        program: under_home(env, "/.fzf/install"@),
        args: seq!["--all"@],
        operation: Operation::FinderInstall,
    }
}

pub fn finder_install(env_vars: &Environment) -> (r: Invocation)
    ensures
        r@ == finder_install_view(env_vars@),
{
    let mut args: Vec<String> = Vec::new();
    args.push(String::from_str("--all"));
    assert(args.deep_view() =~= seq!["--all"@]);
    Invocation {
        program: home_path(env_vars, "/.fzf/install"),
        args,
        operation: Operation::FinderInstall,
    }
}

/// Shallow clone of the Python version manager into `<home>/.pyenv`.
pub open spec fn manager_clone_view(env: EnvironmentView) -> InvocationView {
    InvocationView {
        program: "git"@,
        args: seq![
            "clone"@,
            "--depth=1"@,
            "https://github.com/pyenv/pyenv.git"@,
            under_home(env, "/.pyenv"@),
        ],
        operation: Operation::GitClone,
    }
}

pub fn manager_clone(env_vars: &Environment) -> (r: Invocation)
    ensures
        r@ == manager_clone_view(env_vars@),
{
    let destination = home_path(env_vars, "/.pyenv");
    git_clone("https://github.com/pyenv/pyenv.git", destination.as_str())
}

/// The line that exports the version manager's root.
pub open spec fn root_export(env: EnvironmentView) -> Seq<char> {
    "export PYENV_ROOT=\""@ + env.home_var + "/.pyenv\""@
}

/// The line that puts the version manager's programs in front of the search
/// path that the run started with.
pub open spec fn path_export(env: EnvironmentView) -> Seq<char> {
    "export PATH=\""@ + env.home_var + "/.pyenv/bin:"@ + env.path_var + "\""@
}

/// The snippet that runs the version manager's init hook where the version
/// manager is installed.
pub const INIT_HOOK: &'static str =
    "if command -v pyenv 1>/dev/null 2>&1; then\n  eval \"$(pyenv init -)\"\nfi";

/// One line for the shell startup file `<home>/.bashrc`.
pub open spec fn config_view(env: EnvironmentView, text: Seq<char>) -> AppendView {
    AppendView { path: under_home(env, "/.bashrc"@), data: line(text) }
}

pub fn config_root(env_vars: &Environment) -> (r: Append)
    ensures
        r@ == config_view(env_vars@, root_export(env_vars@)),
{
    let mut text = String::from_str("export PYENV_ROOT=\"");
    text.append(env_vars.home_var.as_str());
    text.append("/.pyenv\"");
    let file = home_path(env_vars, "/.bashrc");
    write_to_file(file.as_str(), text.as_str())
}

pub fn config_path(env_vars: &Environment) -> (r: Append)
    ensures
        r@ == config_view(env_vars@, path_export(env_vars@)),
{
    let mut text = String::from_str("export PATH=\"");
    text.append(env_vars.home_var.as_str());
    text.append("/.pyenv/bin:");
    text.append(env_vars.path_var.as_str());
    text.append("\"");
    let file = home_path(env_vars, "/.bashrc");
    write_to_file(file.as_str(), text.as_str())
}

pub fn config_init(env_vars: &Environment) -> (r: Append)
    ensures
        r@ == config_view(env_vars@, INIT_HOOK@),
{
    let file = home_path(env_vars, "/.bashrc");
    write_to_file(file.as_str(), INIT_HOOK)
}

/// `<home>/.pyenv/bin/pyenv install <version>`.
pub open spec fn python_build_view(env: EnvironmentView) -> InvocationView {
    InvocationView {
        program: under_home(env, "/.pyenv/bin/pyenv"@),
        args: seq!["install"@, env.python_version],
        operation: Operation::PythonBuild,
    }
}

pub fn python_build(env_vars: &Environment) -> (r: Invocation)
    ensures
        r@ == python_build_view(env_vars@),
{
    let mut args: Vec<String> = Vec::new();
    args.push(String::from_str("install"));
    args.push(env_vars.python_version.clone());
    assert(args.deep_view() =~= seq!["install"@, env_vars@.python_version]);
    Invocation {
        program: home_path(env_vars, "/.pyenv/bin/pyenv"),
        args,
        operation: Operation::PythonBuild,
    }
}

impl PipJob {
    pub open spec fn packages(self) -> Seq<Seq<char>> {
        match self {
            PipJob::UpgradePip => seq!["pip"@],
            PipJob::InstallPipx => seq!["pipx"@],
        }
    }

    pub open spec fn options(self) -> Seq<Seq<char>> {
        match self {
            PipJob::UpgradePip => seq!["-U"@],
            PipJob::InstallPipx => seq!["--user"@],
        }
    }

    /// `pip install` with the pinned interpreter under the home directory of
    /// the context given.
    pub open spec fn install_view(self, env: EnvironmentView) -> InvocationView {
        InvocationView {
            program: python_path(env),
            args: pip_args(self.packages(), Some(self.options())),
            operation: Operation::PipInstall,
        }
    }

    pub fn install(&self, env_vars: &Environment) -> (r: Invocation)
        ensures
            r@ == self.install_view(env_vars@),
    {
        let (packages, options) = match self {
            PipJob::UpgradePip => (vec!["pip"], vec!["-U"]),
            PipJob::InstallPipx => (vec!["pipx"], vec!["--user"]),
        };
        assert(packages.deep_view() =~= self.packages());
        assert(options.deep_view() =~= self.options());
        pip_install(env_vars, packages, Some(options))
    }
}

/// `<python3> -m pipx ensurepath`.
pub open spec fn ensure_path_view(env: EnvironmentView) -> InvocationView {
    InvocationView {
        program: python_path(env),
        args: seq!["-m"@, "pipx"@, "ensurepath"@],
        operation: Operation::EnsurePath,
    }
}

pub fn ensure_path(env_vars: &Environment) -> (r: Invocation)
    ensures
        r@ == ensure_path_view(env_vars@),
{
    let mut args: Vec<String> = Vec::new();
    args.push(String::from_str("-m"));
    args.push(String::from_str("pipx"));
    args.push(String::from_str("ensurepath"));
    assert(args.deep_view() =~= seq!["-m"@, "pipx"@, "ensurepath"@]);
    Invocation { program: python_program(env_vars), args, operation: Operation::EnsurePath }
}

impl Tool {
    pub open spec fn package(self) -> Seq<char> {
        match self {
            Tool::Poetry => "poetry"@,
            Tool::Pipenv => "pipenv"@,
        }
    }

    /// `pipx install` of the tool.
    pub open spec fn install_view(self, env: EnvironmentView) -> InvocationView {
        InvocationView {
            program: pipx_path(env),
            args: seq!["install"@, self.package()],
            operation: Operation::PipxInstall,
        }
    }

    pub fn install(&self, env_vars: &Environment) -> (r: Invocation)
        ensures
            r@ == self.install_view(env_vars@),
    {
        let packages = match self {
            Tool::Poetry => vec!["poetry"],
            Tool::Pipenv => vec!["pipenv"],
        };
        assert(packages.deep_view() =~= seq![self.package()]);
        let child = pipx_install(env_vars, packages);
        assert(child@.args =~= seq!["install"@, self.package()]);
        child
    }
}

/// `curl` of the repository signing key, which it prints.
pub open spec fn key_fetch_view() -> InvocationView {
    InvocationView {
        program: "curl"@,
        args: seq!["-fsSL"@, "https://download.docker.com/linux/ubuntu/gpg"@],
        operation: Operation::KeyFetch,
    }
}

pub fn key_fetch() -> (r: Invocation)
    ensures
        r@ == key_fetch_view(),
{
    let mut args: Vec<String> = Vec::new();
    args.push(String::from_str("-fsSL"));
    args.push(String::from_str("https://download.docker.com/linux/ubuntu/gpg"));
    assert(args.deep_view() =~= key_fetch_view().args);
    Invocation { program: String::from_str("curl"), args, operation: Operation::KeyFetch }
}

/// `gpg --dearmor` of what it reads, into the keyring.
pub open spec fn key_import_view() -> InvocationView {
    InvocationView {
        program: "gpg"@,
        args: seq!["--dearmor"@, "-o"@, KEYRING@],
        operation: Operation::KeyImport,
    }
}

pub fn key_import() -> (r: Invocation)
    ensures
        r@ == key_import_view(),
{
    let mut args: Vec<String> = Vec::new();
    args.push(String::from_str("--dearmor"));
    args.push(String::from_str("-o"));
    args.push(String::from_str(KEYRING));
    assert(args.deep_view() =~= key_import_view().args);
    Invocation { program: String::from_str("gpg"), args, operation: Operation::KeyImport }
}

/// The text as Rust's `{:?}` prints it: between double quotes, with the
/// characters that cannot stand there as they are written as escapes.
pub uninterp spec fn debug_text(text: Seq<char>) -> Seq<char>;

/// `format!` with `{:?}` on a string slice, which gives the slice's `Debug`
/// form. The result depends on the text alone.
#[verifier::external_body]
fn debug_quoted(text: &str) -> (r: String)
    ensures
        r@ == debug_text(text@),
{
    format!("{:?}", text)
}

/// The package source entry for a release whose codename, already quoted,
/// is `quoted`.
pub open spec fn source_entry(quoted: Seq<char>) -> Seq<char> {
    "deb [arch=amd64 signed-by=/usr/share/keyrings/docker-archive-keyring.gpg] https://download.docker.com/linux/ubuntu "@
        + quoted + " stable"@
}

pub fn source_entry_with(quoted: &str) -> (r: String)
    ensures
        r@ == source_entry(quoted@),
{
    let mut text = String::from_str(
        "deb [arch=amd64 signed-by=/usr/share/keyrings/docker-archive-keyring.gpg] https://download.docker.com/linux/ubuntu ",
    );
    text.append(quoted);
    text.append(" stable");
    text
}

/// The package source entry for the release with the given codename. The
/// codename stands in it as [`debug_text`] writes it, quotes included.
pub fn source_entry_for(codename: &str) -> (r: String)
    ensures
        r@ == source_entry(debug_text(codename@)),
{
    let quoted = debug_quoted(codename);
    source_entry_with(quoted.as_str())
}

/// The entry for the host's release, as a line of the package source file.
pub open spec fn source_list_view(env: EnvironmentView) -> AppendView {
    AppendView {
        path: SOURCE_LIST@,
        data: line(source_entry(debug_text(env.ubuntu_distribution))),
    }
}

pub fn source_list(env_vars: &Environment) -> (r: Append)
    ensures
        r@ == source_list_view(env_vars@),
{
    let text = source_entry_for(env_vars.ubuntu_distribution.as_str());
    write_to_file(SOURCE_LIST, text.as_str())
}

/// What a step asks of the driver. `host` is the context of the run and
/// `local` the one loaded for the step; a step that is taken before either
/// is loaded does not read it.
pub open spec fn request(
    step: Step,
    host: Option<EnvironmentView>,
    local: Option<EnvironmentView>,
) -> ActionView {
    match step {
        Step::Refresh => ActionView::Run(apt_update_view()),
        Step::Install(bundle) => ActionView::Run(bundle.install_view()),
        Step::Probe(Fact::Home, _) => ActionView::ReadVariable(HOME@),
        Step::Probe(Fact::SearchPath, _) => ActionView::ReadVariable(PATH@),
        Step::Probe(Fact::Release, _) => ActionView::Capture(release_query_view()),
        Step::Download => ActionView::Run(download_view()),
        Step::CloneFinder => ActionView::Run(finder_clone_view(host->0)),
        Step::InstallFinder => ActionView::Run(finder_install_view(host->0)),
        Step::Noninteractive => ActionView::Export(FRONTEND@, NONINTERACTIVE@),
        Step::CloneManager => ActionView::Run(manager_clone_view(host->0)),
        Step::ConfigRoot => ActionView::Write(config_view(host->0, root_export(host->0))),
        Step::ConfigPath => ActionView::Write(config_view(host->0, path_export(host->0))),
        Step::ConfigInit => ActionView::Write(config_view(host->0, INIT_HOOK@)),
        Step::BuildPython => ActionView::Run(python_build_view(host->0)),
        Step::Pip(job) => ActionView::Run(job.install_view(local->0)),
        Step::EnsurePath => ActionView::Run(ensure_path_view(host->0)),
        Step::Pipx(tool) => ActionView::Run(tool.install_view(local->0)),
        Step::FetchKey => ActionView::Spawn(key_fetch_view()),
        Step::ImportKey => ActionView::Feed(key_import_view()),
        Step::SourceList => ActionView::Write(source_list_view(host->0)),
    }
}

impl Step {
    /// The step reads the context of the run.
    pub open spec fn reads_host(self) -> bool {
        match self {
            Step::CloneFinder
            | Step::InstallFinder
            | Step::CloneManager
            | Step::ConfigRoot
            | Step::ConfigPath
            | Step::ConfigInit
            | Step::BuildPython
            | Step::EnsurePath
            | Step::SourceList => true,
            _ => false,
        }
    }

    /// The step reads the context that was loaded for it.
    pub open spec fn reads_local(self) -> bool {
        self is Pip || self is Pipx
    }

    /// Builds the request of this step.
    pub(crate) fn instantiate(&self, host: &Option<Environment>, local: &Option<Environment>) -> (r:
        Action)
        requires
            self.reads_host() ==> host is Some,
            self.reads_local() ==> local is Some,
        ensures
            r@ == request(*self, host.deep_view(), local.deep_view()),
    {
        match self {
            Step::Refresh => Action::Run(apt_update()),
            Step::Install(bundle) => Action::Run(bundle.install()),
            Step::Probe(Fact::Home, _) => Action::ReadVariable(String::from_str(HOME)),
            Step::Probe(Fact::SearchPath, _) => Action::ReadVariable(String::from_str(PATH)),
            Step::Probe(Fact::Release, _) => Action::Capture(release_query()),
            Step::Download => Action::Run(download()),
            Step::CloneFinder => Action::Run(finder_clone(host.as_ref().unwrap())),
            Step::InstallFinder => Action::Run(finder_install(host.as_ref().unwrap())),
            Step::Noninteractive => Action::Export(
                String::from_str(FRONTEND),
                String::from_str(NONINTERACTIVE),
            ),
            Step::CloneManager => Action::Run(manager_clone(host.as_ref().unwrap())),
            Step::ConfigRoot => Action::Write(config_root(host.as_ref().unwrap())),
            Step::ConfigPath => Action::Write(config_path(host.as_ref().unwrap())),
            Step::ConfigInit => Action::Write(config_init(host.as_ref().unwrap())),
            Step::BuildPython => Action::Run(python_build(host.as_ref().unwrap())),
            Step::Pip(job) => Action::Run(job.install(local.as_ref().unwrap())),
            Step::EnsurePath => Action::Run(ensure_path(host.as_ref().unwrap())),
            Step::Pipx(tool) => Action::Run(tool.install(local.as_ref().unwrap())),
            Step::FetchKey => Action::Spawn(key_fetch()),
            Step::ImportKey => Action::Feed(key_import()),
            Step::SourceList => Action::Write(source_list(host.as_ref().unwrap())),
        }
    }
}

} // verus!
