use ubuntu_linux::command::{Append, Invocation};
use ubuntu_linux::environment::Environment;
use ubuntu_linux::error::Operation;
use ubuntu_linux::utils::{
    apt_install, apt_update, git_clone, pip_install, pipx_install, python_program, write_to_file,
};

fn strings(items: &[&str]) -> Vec<String> {
    items.iter().map(|s| s.to_string()).collect()
}

fn host() -> Environment {
    Environment::load(
        Some("/home/ada".to_string()),
        Some("/usr/bin".to_string()),
        Some(b"jammy\n".to_vec()),
    )
    .unwrap()
}

#[test]
fn apt_update_runs_update_only() {
    let child = apt_update();
    assert_eq!(
        child,
        Invocation {
            program: "apt-get".to_string(),
            args: strings(&["update"]),
            operation: Operation::AptUpdate,
        }
    );
}

#[test]
fn apt_install_without_options_passes_an_empty_argument() {
    let child = apt_install(vec!["a", "b"], None);
    assert_eq!(child.program, "apt-get");
    assert_eq!(child.args, strings(&["install", "a", "b", ""]));
    assert_eq!(child.operation, Operation::AptInstall);
}

#[test]
fn apt_install_with_options_puts_them_last() {
    let child = apt_install(vec!["a", "b"], Some(vec!["-y"]));
    assert_eq!(child.args, strings(&["install", "a", "b", "-y"]));
}

#[test]
fn apt_install_keeps_the_order_given() {
    let child = apt_install(vec!["z", "a", "m"], Some(vec!["-y", "--no-install-recommends"]));
    assert_eq!(
        child.args,
        strings(&["install", "z", "a", "m", "-y", "--no-install-recommends"])
    );
}

#[test]
fn apt_install_with_no_options_at_all() {
    let child = apt_install(vec!["a"], Some(vec![]));
    assert_eq!(child.args, strings(&["install", "a"]));
}

#[test]
fn apt_install_of_nothing() {
    let child = apt_install(vec![], None);
    assert_eq!(child.args, strings(&["install", ""]));
}

#[test]
fn git_clone_is_shallow() {
    let child = git_clone("https://example.org/r.git", "/home/ada/.r");
    assert_eq!(
        child,
        Invocation {
            program: "git".to_string(),
            args: strings(&["clone", "--depth=1", "https://example.org/r.git", "/home/ada/.r"]),
            operation: Operation::GitClone,
        }
    );
}

#[test]
fn python_program_is_under_the_version_manager() {
    assert_eq!(python_program(&host()), "/home/ada/.pyenv/versions/3.9.0/bin/python3");
}

#[test]
fn pip_install_puts_options_before_packages() {
    let child = pip_install(&host(), vec!["pip"], Some(vec!["-U"]));
    assert_eq!(child.program, "/home/ada/.pyenv/versions/3.9.0/bin/python3");
    assert_eq!(child.args, strings(&["-m", "pip", "install", "-U", "pip"]));
    assert_eq!(child.operation, Operation::PipInstall);
}

#[test]
fn pip_install_without_options_names_the_packages_only() {
    let child = pip_install(&host(), vec!["pip"], None);
    assert_eq!(child.args, strings(&["-m", "pip", "install", "pip"]));
    let child = pip_install(&host(), vec!["a", "b"], None);
    assert_eq!(child.args, strings(&["-m", "pip", "install", "a", "b"]));
}

#[test]
fn pip_install_with_no_options_at_all() {
    let child = pip_install(&host(), vec!["a"], Some(vec![]));
    assert_eq!(child.args, strings(&["-m", "pip", "install", "a"]));
}

#[test]
fn pipx_install_runs_the_user_scoped_pipx() {
    let child = pipx_install(&host(), vec!["poetry"]);
    assert_eq!(
        child,
        Invocation {
            program: "/home/ada/.local/bin/pipx".to_string(),
            args: strings(&["install", "poetry"]),
            operation: Operation::PipxInstall,
        }
    );
}

#[test]
fn pipx_install_of_several() {
    let child = pipx_install(&host(), vec!["a", "b"]);
    assert_eq!(child.args, strings(&["install", "a", "b"]));
}

#[test]
fn write_to_file_ends_the_text_with_a_line_feed() {
    let request = write_to_file("/tmp/x", "hello");
    assert_eq!(request, Append { path: "/tmp/x".to_string(), data: "hello\n".to_string() });
}

#[test]
fn write_to_file_of_empty_text_is_a_line_feed() {
    let request = write_to_file("f", "");
    assert_eq!(request.data, "\n");
}

#[test]
fn appending_twice_leaves_the_line_twice() {
    let request = write_to_file("/tmp/x", "export A=1");
    let mut file = String::from("# rc\n");
    request.apply(&mut file);
    request.apply(&mut file);
    assert_eq!(file, "# rc\nexport A=1\nexport A=1\n");
}

#[test]
fn appending_to_a_new_file() {
    let request = write_to_file("/tmp/x", "one");
    let mut file = String::new();
    request.apply(&mut file);
    assert_eq!(file, "one\n");
}
