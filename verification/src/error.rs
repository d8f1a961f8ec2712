//! Why a run stops.

use vstd::prelude::*;
use vstd::string::*;

verus! {

/// The external operation that a child process stands for. A failure names
/// the operation, not whether the child could not be started or started and
/// then reported an error.
#[derive(Clone, Copy, Debug, PartialEq, Eq, Structural)]
pub enum Operation {
    /// `apt-get update`
    AptUpdate,
    /// `apt-get install ...`
    AptInstall,
    /// `git clone --depth=1 ...`
    GitClone,
    /// `python3 -m pip install ...`
    PipInstall,
    /// `pipx install ...`
    PipxInstall,
    /// `wget` of the shell framework's installer
    Download,
    /// the fuzzy finder's bundled installer
    FinderInstall,
    /// `pyenv install <version>`
    PythonBuild,
    /// `python3 -m pipx ensurepath`
    EnsurePath,
    /// `curl` of the repository signing key
    KeyFetch,
    /// `gpg --dearmor` into the keyring
    KeyImport,
    /// `lsb_release -cs`
    ReleaseQuery,
    /// setting `DEBIAN_FRONTEND` for the children to come
    Noninteractive,
}

impl Operation {
    /// The fixed label under which a failure of this operation is reported.
    pub open spec fn label_text(self) -> Seq<char> {
        match self {
            Operation::AptUpdate => "apt update failed"@,
            Operation::AptInstall => "apt install failed"@,
            Operation::GitClone => "git clone failed"@,
            Operation::PipInstall => "pip install failed"@,
            Operation::PipxInstall => "pipx install failed"@,
            Operation::Download => "Failed running wget"@,
            Operation::FinderInstall => "Failed to install fzf"@,
            Operation::PythonBuild => "pyenv install failed"@,
            Operation::EnsurePath => "Failed running pipx ensurepath"@,
            Operation::KeyFetch => "Failed running curl"@,
            Operation::KeyImport => "GPG keyring error"@,
            Operation::ReleaseQuery => "lsb_release failed"@,
            Operation::Noninteractive => "setting DEBIAN_FRONTEND failed"@,
        }
    }

    pub fn label(&self) -> (r: String)
        ensures
            r@ == self.label_text(),
    {
        match self {
            Operation::AptUpdate => String::from_str("apt update failed"),
            Operation::AptInstall => String::from_str("apt install failed"),
            Operation::GitClone => String::from_str("git clone failed"),
            Operation::PipInstall => String::from_str("pip install failed"),
            Operation::PipxInstall => String::from_str("pipx install failed"),
            Operation::Download => String::from_str("Failed running wget"),
            Operation::FinderInstall => String::from_str("Failed to install fzf"),
            Operation::PythonBuild => String::from_str("pyenv install failed"),
            Operation::EnsurePath => String::from_str("Failed running pipx ensurepath"),
            Operation::KeyFetch => String::from_str("Failed running curl"),
            Operation::KeyImport => String::from_str("GPG keyring error"),
            Operation::ReleaseQuery => String::from_str("lsb_release failed"),
            Operation::Noninteractive => String::from_str("setting DEBIAN_FRONTEND failed"),
        }
    }
}

/// Why the environment context could not be loaded. Each cause is reported
/// on its own; a load never yields some of the fields.
#[derive(Clone, Copy, Debug, PartialEq, Eq, Structural)]
pub enum LoadError {
    /// `HOME` is unset or not valid text.
    Home,
    /// `PATH` is unset or not valid text.
    SearchPath,
    /// The release-info command did not start or reported an error.
    ReleaseCommand,
    /// The release-info command printed bytes that are not UTF-8.
    ReleaseText,
}

impl LoadError {
    pub open spec fn message_text(self) -> Seq<char> {
        match self {
            LoadError::Home => "HOME: environment variable not found"@,
            LoadError::SearchPath => "PATH: environment variable not found"@,
            LoadError::ReleaseCommand => "lsb_release failed"@,
            LoadError::ReleaseText => "lsb_release: invalid utf-8 sequence"@,
        }
    }

    pub fn message(&self) -> (r: String)
        ensures
            r@ == self.message_text(),
    {
        match self {
            LoadError::Home => String::from_str("HOME: environment variable not found"),
            LoadError::SearchPath => String::from_str("PATH: environment variable not found"),
            LoadError::ReleaseCommand => String::from_str("lsb_release failed"),
            LoadError::ReleaseText => String::from_str("lsb_release: invalid utf-8 sequence"),
        }
    }
}

/// Why a run stopped before its last step.
#[derive(Clone, Copy, Debug, PartialEq, Eq, Structural)]
pub enum RunError {
    /// A fact about the host could not be had.
    Environment(LoadError),
    /// A child process did not start, or exited with a status other than zero.
    Step(Operation),
    /// A file could not be opened or created for appending.
    FileOpen,
    /// The key fetch started without an output stream to hand to the import.
    /// Only a strict orchestrator reports this.
    MissingStream,
}

impl RunError {
    pub open spec fn message_text(self) -> Seq<char> {
        match self {
            RunError::Environment(cause) => "Failed getting environment variable with error: "@
                + cause.message_text(),
            RunError::Step(operation) => operation.label_text(),
            RunError::FileOpen => "Couldn't open file"@,
            RunError::MissingStream => "GPG keyring error: no key stream"@,
        }
    }

    /// The message for the diagnostic stream.
    pub fn message(&self) -> (r: String)
        ensures
            r@ == self.message_text(),
    {
        match self {
            RunError::Environment(cause) => {
                let mut text = String::from_str(
                    "Failed getting environment variable with error: ",
                );
                let detail = cause.message();
                text.append(detail.as_str());
                text
            },
            RunError::Step(operation) => operation.label(),
            RunError::FileOpen => String::from_str("Couldn't open file"),
            RunError::MissingStream => String::from_str("GPG keyring error: no key stream"),
        }
    }
}

} // verus!
