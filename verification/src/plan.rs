//! The fixed order of the run.

use vstd::prelude::*;

verus! {

/// One of the three readings that make up the environment context.
#[derive(Clone, Copy, Debug, PartialEq, Eq, Structural)]
pub enum Fact {
    /// The value of `HOME`.
    Home,
    /// The value of `PATH`.
    SearchPath,
    /// The output of the release-info command.
    Release,
}

/// Whom a loaded context is for.
#[derive(Clone, Copy, Debug, PartialEq, Eq, Structural)]
pub enum Scope {
    /// The whole run. Loaded once, near the start.
    Run,
    /// The one step that follows, which loads the context again for itself.
    Step,
}

/// A set of packages that one `apt-get install` brings.
#[derive(Clone, Copy, Debug, PartialEq, Eq, Structural)]
pub enum Bundle {
    /// The release-info tool.
    ReleaseInfo,
    /// The shell and the core command-line tools.
    Shell,
    /// Time zone data.
    Timezone,
    /// What building Python from source needs.
    BuildDeps,
    /// What fetching over TLS and checking signatures needs.
    Tls,
    /// The container runtime.
    Container,
    /// The text editor.
    Editor,
}

/// What `pip` is run for.
#[derive(Clone, Copy, Debug, PartialEq, Eq, Structural)]
pub enum PipJob {
    /// Upgrade `pip` itself.
    UpgradePip,
    /// Install `pipx` for the user.
    InstallPipx,
}

/// A tool that `pipx` installs.
#[derive(Clone, Copy, Debug, PartialEq, Eq, Structural)]
pub enum Tool {
    Poetry,
    Pipenv,
}

/// One unit of the run: a single request to the driver.
#[derive(Clone, Copy, Debug, PartialEq, Eq, Structural)]
pub enum Step {
    /// Refresh the package index.
    Refresh,
    /// Install a bundle of packages.
    Install(Bundle),
    /// Take one reading for the environment context.
    Probe(Fact, Scope),
    /// Fetch the shell framework's installer script.
    Download,
    /// Clone the fuzzy finder into the home directory.
    CloneFinder,
    /// Run the fuzzy finder's installer with everything switched on.
    InstallFinder,
    /// Make package installation non-interactive for the rest of the run.
    Noninteractive,
    /// Clone the Python version manager into the home directory.
    CloneManager,
    /// Shell startup file: where the version manager lives.
    ConfigRoot,
    /// Shell startup file: the version manager's directory on the search path.
    ConfigPath,
    /// Shell startup file: the version manager's init hook.
    ConfigInit,
    /// Build the pinned Python with the version manager.
    BuildPython,
    /// Run `pip` inside the pinned Python.
    Pip(PipJob),
    /// Let `pipx` put its directory on the search path.
    EnsurePath,
    /// Install one tool with `pipx`.
    Pipx(Tool),
    /// Start fetching the repository signing key.
    FetchKey,
    /// Import the fetched key into the keyring.
    ImportKey,
    /// Add the container runtime's repository to the package sources.
    SourceList,
}

/// The run, first step first. Every step is taken in this order and none is
/// taken twice; the order is part of the program.
///
/// The context of the run is loaded once, by the three readings that follow
/// the install of the release-info tool. The two `pip` steps and the two
/// `pipx` steps load a context again, each for itself, right before they run.
pub open spec fn sequence() -> Seq<Step> {
    seq![
        // the release-info tool, then the context of the run
        Step::Refresh,
        Step::Install(Bundle::ReleaseInfo),
        Step::Probe(Fact::Home, Scope::Run),
        Step::Probe(Fact::SearchPath, Scope::Run),
        Step::Probe(Fact::Release, Scope::Run),
        // shell, shell framework, fuzzy finder
        Step::Install(Bundle::Shell),
        Step::Download,
        Step::CloneFinder,
        Step::InstallFinder,
        // what building Python needs, without questions
        Step::Refresh,
        Step::Noninteractive,
        Step::Install(Bundle::Timezone),
        Step::Install(Bundle::BuildDeps),
        // the version manager and the pinned Python
        Step::CloneManager,
        Step::ConfigRoot,
        Step::ConfigPath,
        Step::ConfigInit,
        Step::BuildPython,
        // packaging tools inside that Python
        Step::Probe(Fact::Home, Scope::Step),
        Step::Probe(Fact::SearchPath, Scope::Step),
        Step::Probe(Fact::Release, Scope::Step),
        Step::Pip(PipJob::UpgradePip),
        Step::Probe(Fact::Home, Scope::Step),
        Step::Probe(Fact::SearchPath, Scope::Step),
        Step::Probe(Fact::Release, Scope::Step),
        Step::Pip(PipJob::InstallPipx),
        Step::EnsurePath,
        Step::Probe(Fact::Home, Scope::Step),
        Step::Probe(Fact::SearchPath, Scope::Step),
        Step::Probe(Fact::Release, Scope::Step),
        Step::Pipx(Tool::Poetry),
        Step::Probe(Fact::Home, Scope::Step),
        Step::Probe(Fact::SearchPath, Scope::Step),
        Step::Probe(Fact::Release, Scope::Step),
        Step::Pipx(Tool::Pipenv),
        // the container runtime: signing key, package source, packages
        Step::Refresh,
        Step::Install(Bundle::Tls),
        Step::FetchKey,
        Step::ImportKey,
        Step::Refresh,
        Step::SourceList,
        Step::Refresh,
        Step::Install(Bundle::Container),
        // the editor
        Step::Install(Bundle::Editor),
    ]
}

/// The run as a list to walk.
pub fn plan() -> (r: Vec<Step>)
    ensures
        r@ == sequence(),
{
    let steps = vec![
        Step::Refresh,
        Step::Install(Bundle::ReleaseInfo),
        Step::Probe(Fact::Home, Scope::Run),
        Step::Probe(Fact::SearchPath, Scope::Run),
        Step::Probe(Fact::Release, Scope::Run),
        Step::Install(Bundle::Shell),
        Step::Download,
        Step::CloneFinder,
        Step::InstallFinder,
        Step::Refresh,
        Step::Noninteractive,
        Step::Install(Bundle::Timezone),
        Step::Install(Bundle::BuildDeps),
        Step::CloneManager,
        Step::ConfigRoot,
        Step::ConfigPath,
        Step::ConfigInit,
        Step::BuildPython,
        Step::Probe(Fact::Home, Scope::Step),
        Step::Probe(Fact::SearchPath, Scope::Step),
        Step::Probe(Fact::Release, Scope::Step),
        Step::Pip(PipJob::UpgradePip),
        Step::Probe(Fact::Home, Scope::Step),
        Step::Probe(Fact::SearchPath, Scope::Step),
        Step::Probe(Fact::Release, Scope::Step),
        Step::Pip(PipJob::InstallPipx),
        Step::EnsurePath,
        Step::Probe(Fact::Home, Scope::Step),
        Step::Probe(Fact::SearchPath, Scope::Step),
        Step::Probe(Fact::Release, Scope::Step),
        Step::Pipx(Tool::Poetry),
        Step::Probe(Fact::Home, Scope::Step),
        Step::Probe(Fact::SearchPath, Scope::Step),
        Step::Probe(Fact::Release, Scope::Step),
        Step::Pipx(Tool::Pipenv),
        Step::Refresh,
        Step::Install(Bundle::Tls),
        Step::FetchKey,
        Step::ImportKey,
        Step::Refresh,
        Step::SourceList,
        Step::Refresh,
        Step::Install(Bundle::Container),
        Step::Install(Bundle::Editor),
    ];
    assert(steps@ =~= sequence());
    steps
}

} // verus!
