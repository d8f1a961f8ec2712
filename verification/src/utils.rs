//! The commands and file edits that the steps are made of.
//!
//! Nothing here touches the machine: each function says what is to be run or
//! written, and the driver does it.

use vstd::prelude::*;
use vstd::string::*;
use crate::command::{Append, AppendView, Invocation, InvocationView};
use crate::environment::{Environment, EnvironmentView};
use crate::error::Operation;

verus! {

/// The given text as one line.
pub open spec fn line(text: Seq<char>) -> Seq<char> {
    text + "\n"@
}

/// Arguments of `apt-get install`: the subcommand, the packages in the order
/// given, then the flags in the order given. Without flags a single empty
/// argument stands in their place and reaches the child as it is.
pub open spec fn install_args(packages: Seq<Seq<char>>, options: Option<Seq<Seq<char>>>) -> Seq<
    Seq<char>,
> {
    seq!["install"@] + packages + match options {
        Some(flags) => flags,
        None => seq![""@],
    }
}

/// Arguments of `python3 -m pip install`: the flags in the order given, then
/// the packages in the order given. Without flags the packages follow the
/// subcommand directly; nothing stands in the flags' place.
pub open spec fn pip_args(packages: Seq<Seq<char>>, options: Option<Seq<Seq<char>>>) -> Seq<
    Seq<char>,
> {
    seq!["-m"@, "pip"@, "install"@] + match options {
        Some(flags) => flags,
        None => Seq::empty(),
    } + packages
}

/// Where the version manager puts the interpreter of the pinned version.
pub open spec fn python_path(env: EnvironmentView) -> Seq<char> {
    env.home_var + "/.pyenv/versions/"@ + env.python_version + "/bin/python3"@
}

/// Where the user-scoped `pipx` lands.
pub open spec fn pipx_path(env: EnvironmentView) -> Seq<char> {
    env.home_var + "/.local/bin/pipx"@
}

/// Adds owned copies of `items` at the end of `args`.
fn extend(args: &mut Vec<String>, items: &Vec<&str>)
    ensures
        final(args).deep_view() == old(args).deep_view() + items.deep_view(),
{
    let mut i: usize = 0;
    while i < items.len()
        invariant
            i <= items.len(),
            args.len() == old(args).len() + i,
            forall|j: int| 0 <= j < old(args).len() ==> args[j] == old(args)[j],
            forall|j: int| 0 <= j < i ==> args[old(args).len() + j]@ == items[j]@,
        decreases items.len() - i,
    {
        args.push(String::from_str(items[i]));
        i += 1;
    }
    assert(args.deep_view() =~= old(args).deep_view() + items.deep_view());
}

/// Adds the flags of `apt-get install`, or the empty placeholder where there
/// are none.
fn extend_options(args: &mut Vec<String>, options: &Option<Vec<&str>>)
    ensures
        final(args).deep_view() == old(args).deep_view() + match options.deep_view() {
            Some(flags) => flags,
            None => seq![""@],
        },
{
    match options {
        Some(flags) => {
            extend(args, flags);
        },
        None => {
            args.push(String::from_str(""));
            assert(args.deep_view() =~= old(args).deep_view() + seq![""@]);
        },
    }
}

/// The interpreter of the pinned Python version under the user's home.
pub fn python_program(env_vars: &Environment) -> (r: String)
    ensures
        r@ == python_path(env_vars@),
{
    let mut program = env_vars.home_var.clone();
    program.append("/.pyenv/versions/");
    program.append(env_vars.python_version.as_str());
    program.append("/bin/python3");
    program
}

/// Appends `text` and a line feed to the file `filename`, which is created
/// if it is missing.
pub fn write_to_file(filename: &str, text: &str) -> (r: Append)
    ensures
        r@ == (AppendView { path: filename@, data: line(text@) }),
{
    let mut data = String::from_str(text);
    data.append("\n");
    Append { path: String::from_str(filename), data }
}

/// `apt-get update`, with nothing after the subcommand.
pub open spec fn apt_update_view() -> InvocationView {
    InvocationView { program: "apt-get"@, args: seq!["update"@], operation: Operation::AptUpdate }
}

/// Refreshes the package index: `apt-get update`.
pub fn apt_update() -> (r: Invocation)
    ensures
        r@ == apt_update_view(),
{
    let mut args: Vec<String> = Vec::new();
    args.push(String::from_str("update"));
    assert(args.deep_view() =~= seq!["update"@]);
    Invocation { program: String::from_str("apt-get"), args, operation: Operation::AptUpdate }
}

/// Installs packages: `apt-get install <packages> <options>`.
pub fn apt_install<'a>(packages: Vec<&'a str>, options: Option<Vec<&'a str>>) -> (r: Invocation)
    ensures
        r@ == (InvocationView {
            program: "apt-get"@,
            args: install_args(packages.deep_view(), options.deep_view()),
            operation: Operation::AptInstall,
        }),
{
    let mut args: Vec<String> = Vec::new();
    args.push(String::from_str("install"));
    assert(args.deep_view() =~= seq!["install"@]);
    extend(&mut args, &packages);
    extend_options(&mut args, &options);
    Invocation { program: String::from_str("apt-get"), args, operation: Operation::AptInstall }
}

/// Clones the head of a repository: `git clone --depth=1 <repo> <destination>`.
pub fn git_clone(repo_address: &str, destination: &str) -> (r: Invocation)
    ensures
        r@ == (InvocationView {
            program: "git"@,
            args: seq!["clone"@, "--depth=1"@, repo_address@, destination@],
            operation: Operation::GitClone,
        }),
{
    let mut args: Vec<String> = Vec::new();
    args.push(String::from_str("clone"));
    args.push(String::from_str("--depth=1"));
    args.push(String::from_str(repo_address));
    args.push(String::from_str(destination));
    assert(args.deep_view() =~= seq!["clone"@, "--depth=1"@, repo_address@, destination@]);
    Invocation { program: String::from_str("git"), args, operation: Operation::GitClone }
}

/// Installs Python packages with the pinned interpreter:
/// `<python3> -m pip install <options> <packages>`.
pub fn pip_install<'a>(
    env_vars: &Environment,
    packages: Vec<&'a str>,
    options: Option<Vec<&'a str>>,
) -> (r: Invocation)
    ensures
        r@ == (InvocationView {
            program: python_path(env_vars@),
            args: pip_args(packages.deep_view(), options.deep_view()),
            operation: Operation::PipInstall,
        }),
{
    let mut args: Vec<String> = Vec::new();
    args.push(String::from_str("-m"));
    args.push(String::from_str("pip"));
    args.push(String::from_str("install"));
    assert(args.deep_view() =~= seq!["-m"@, "pip"@, "install"@]);
    match &options {
        Some(flags) => {
            extend(&mut args, flags);
        },
        None => {
            assert(args.deep_view() + Seq::<Seq<char>>::empty() =~= args.deep_view());
        },
    }
    extend(&mut args, &packages);
    Invocation { program: python_program(env_vars), args, operation: Operation::PipInstall }
}

/// Installs command-line tools in environments of their own:
/// `<pipx> install <packages>`.
pub fn pipx_install(env_vars: &Environment, packages: Vec<&str>) -> (r: Invocation)
    ensures
        r@ == (InvocationView {
            program: pipx_path(env_vars@),
            args: seq!["install"@] + packages.deep_view(),
            operation: Operation::PipxInstall,
        }),
{
    let mut program = env_vars.home_var.clone();
    program.append("/.local/bin/pipx");
    let mut args: Vec<String> = Vec::new();
    args.push(String::from_str("install"));
    assert(args.deep_view() =~= seq!["install"@]);
    extend(&mut args, &packages);
    Invocation { program, args, operation: Operation::PipxInstall }
}

} // verus!
