//! The facts about the host that the steps are built from.

use vstd::prelude::*;
use vstd::string::*;
use vstd::utf8::{decode_utf8, valid_utf8};
use crate::command::bytes_of;
use crate::error::LoadError;

verus! {

/// The variable that names the user's home directory.
pub const HOME: &'static str = "HOME";

/// The variable that holds the search path.
pub const PATH: &'static str = "PATH";

/// The Python that the run builds. It is part of the program, not found on
/// the host.
pub const PYTHON_VERSION: &'static str = "3.9.0";

/// The host facts, loaded together or not at all, and not changed afterwards.
#[derive(Debug, PartialEq, Eq)]
pub struct Environment {
    /// Absolute path of the invoking user's home directory.
    pub home_var: String,
    /// The search path as the process found it.
    pub path_var: String,
    /// The Python version to build.
    pub python_version: String,
    /// Short codename of the installed release.
    pub ubuntu_distribution: String,
}

pub struct EnvironmentView {
    pub home_var: Seq<char>,
    pub path_var: Seq<char>,
    pub python_version: Seq<char>,
    pub ubuntu_distribution: Seq<char>,
}

impl View for Environment {
    type V = EnvironmentView;

    open spec fn view(&self) -> EnvironmentView {
        EnvironmentView {
            home_var: self.home_var@,
            path_var: self.path_var@,
            python_version: self.python_version@,
            ubuntu_distribution: self.ubuntu_distribution@,
        }
    }
}

impl DeepView for Environment {
    type V = EnvironmentView;

    open spec fn deep_view(&self) -> EnvironmentView {
        self@
    }
}

/// The text without its last character; the empty text stays empty.
pub open spec fn without_last(text: Seq<char>) -> Seq<char> {
    if text.len() > 0 {
        text.drop_last()
    } else {
        text
    }
}

/// `String::from_utf8`: the bytes as text where they are well-formed UTF-8,
/// and nothing where they are not.
#[verifier::external_body]
fn decode(bytes: Vec<u8>) -> (r: Option<String>)
    ensures
        r is Some <==> valid_utf8(bytes@),
        r matches Some(text) ==> text@ == decode_utf8(bytes@),
{
    String::from_utf8(bytes).ok()
}

/// `String::pop`: takes the last character off the text and returns it, or
/// leaves an empty text as it is and returns nothing.
#[verifier::external_body]
fn pop_last(text: &mut String) -> (r: Option<char>)
    ensures
        final(text)@ == without_last(old(text)@),
        r == if old(text)@.len() > 0 {
            Some(old(text)@.last())
        } else {
            None
        },
{
    text.pop()
}

impl Environment {
    /// The context that three readings of the host give: the value of `HOME`,
    /// the value of `PATH`, and what the release-info command printed. A
    /// reading is `None` where it could not be had. The first missing one, in
    /// that order, is the cause; after them, output that is not UTF-8.
    ///
    /// The codename is the output without its last character, which is the
    /// line feed that the command ends its output with. Output that ends
    /// otherwise loses a character of the name.
    pub open spec fn loaded(
        home: Option<Seq<char>>,
        path: Option<Seq<char>>,
        release: Option<Seq<u8>>,
    ) -> Result<EnvironmentView, LoadError> {
        if home is None {
            Err(LoadError::Home)
        } else if path is None {
            Err(LoadError::SearchPath)
        } else if release is None {
            Err(LoadError::ReleaseCommand)
        } else if !valid_utf8(release->0) {
            Err(LoadError::ReleaseText)
        } else {
            Ok(
                EnvironmentView {
                    home_var: home->0,
                    path_var: path->0,
                    python_version: PYTHON_VERSION@,
                    ubuntu_distribution: without_last(decode_utf8(release->0)),
                },
            )
        }
    }

    /// Builds the context from the three readings, or names the one cause
    /// that prevents it.
    pub fn load(home: Option<String>, path: Option<String>, release: Option<Vec<u8>>) -> (r:
        Result<Environment, LoadError>)
        ensures
            match r {
                Ok(env) => Self::loaded(home.deep_view(), path.deep_view(), bytes_of(release))
                    == Ok::<EnvironmentView, LoadError>(env@),
                Err(cause) => Self::loaded(home.deep_view(), path.deep_view(), bytes_of(release))
                    == Err::<EnvironmentView, LoadError>(cause),
            },
    {
        let home_var = match home {
            Some(value) => value,
            None => { return Err(LoadError::Home); },
        };
        let path_var = match path {
            Some(value) => value,
            None => { return Err(LoadError::SearchPath); },
        };
        let bytes = match release {
            Some(output) => output,
            None => { return Err(LoadError::ReleaseCommand); },
        };
        let mut ubuntu_distribution = match decode(bytes) {
            Some(text) => text,
            None => { return Err(LoadError::ReleaseText); },
        };
        pop_last(&mut ubuntu_distribution);
        Ok(
            Environment {
                home_var,
                path_var,
                python_version: String::from_str(PYTHON_VERSION),
                ubuntu_distribution,
            },
        )
    }
}

} // verus!
