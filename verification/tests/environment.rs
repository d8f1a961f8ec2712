use ubuntu_linux::environment::{Environment, HOME, PATH, PYTHON_VERSION};
use ubuntu_linux::error::LoadError;

fn some(text: &str) -> Option<String> {
    Some(text.to_string())
}

fn output(text: &str) -> Option<Vec<u8>> {
    Some(text.as_bytes().to_vec())
}

#[test]
fn load_populates_all_four_fields() {
    let env = Environment::load(some("/home/ada"), some("/usr/bin:/bin"), output("focal\n"))
        .unwrap();
    assert_eq!(env.home_var, "/home/ada");
    assert_eq!(env.path_var, "/usr/bin:/bin");
    assert_eq!(env.python_version, "3.9.0");
    assert_eq!(env.ubuntu_distribution, "focal");
}

#[test]
fn codename_loses_its_line_feed() {
    let env = Environment::load(some("/root"), some("/bin"), output("focal\n")).unwrap();
    assert_eq!(env.ubuntu_distribution, "focal");
}

#[test]
fn codename_without_line_feed_loses_a_letter() {
    let env = Environment::load(some("/root"), some("/bin"), output("focal")).unwrap();
    assert_eq!(env.ubuntu_distribution, "foca");
}

#[test]
fn codename_of_empty_output_is_empty() {
    let env = Environment::load(some("/root"), some("/bin"), output("")).unwrap();
    assert_eq!(env.ubuntu_distribution, "");
}

#[test]
fn codename_of_a_lone_line_feed_is_empty() {
    let env = Environment::load(some("/root"), some("/bin"), output("\n")).unwrap();
    assert_eq!(env.ubuntu_distribution, "");
}

#[test]
fn codename_loses_one_character_not_one_byte() {
    let env = Environment::load(some("/root"), some("/bin"), output("jammy\u{e9}")).unwrap();
    assert_eq!(env.ubuntu_distribution, "jammy");
}

#[test]
fn codename_keeps_inner_line_feeds() {
    let env = Environment::load(some("/root"), some("/bin"), output("a\nb\n\n")).unwrap();
    assert_eq!(env.ubuntu_distribution, "a\nb\n");
}

#[test]
fn python_version_is_fixed() {
    assert_eq!(PYTHON_VERSION, "3.9.0");
    let env = Environment::load(some(""), some(""), output("x\n")).unwrap();
    assert_eq!(env.python_version, PYTHON_VERSION);
}

#[test]
fn variable_names() {
    assert_eq!(HOME, "HOME");
    assert_eq!(PATH, "PATH");
}

#[test]
fn missing_home_is_reported() {
    let r = Environment::load(None, some("/bin"), output("focal\n"));
    assert_eq!(r, Err(LoadError::Home));
}

#[test]
fn missing_home_comes_first() {
    let r = Environment::load(None, None, None);
    assert_eq!(r, Err(LoadError::Home));
}

#[test]
fn missing_path_is_reported() {
    let r = Environment::load(some("/root"), None, output("focal\n"));
    assert_eq!(r, Err(LoadError::SearchPath));
}

#[test]
fn missing_path_comes_before_the_command() {
    let r = Environment::load(some("/root"), None, None);
    assert_eq!(r, Err(LoadError::SearchPath));
}

#[test]
fn failed_release_command_is_reported() {
    let r = Environment::load(some("/root"), some("/bin"), None);
    assert_eq!(r, Err(LoadError::ReleaseCommand));
}

#[test]
fn undecodable_release_output_is_reported() {
    let r = Environment::load(some("/root"), some("/bin"), Some(vec![0x66, 0xff, 0x0a]));
    assert_eq!(r, Err(LoadError::ReleaseText));
}

#[test]
fn truncated_utf8_is_reported() {
    let r = Environment::load(some("/root"), some("/bin"), Some(vec![0xc3]));
    assert_eq!(r, Err(LoadError::ReleaseText));
}

#[test]
fn load_error_messages() {
    assert_eq!(LoadError::Home.message(), "HOME: environment variable not found");
    assert_eq!(LoadError::SearchPath.message(), "PATH: environment variable not found");
    assert_eq!(LoadError::ReleaseCommand.message(), "lsb_release failed");
    assert_eq!(LoadError::ReleaseText.message(), "lsb_release: invalid utf-8 sequence");
}
