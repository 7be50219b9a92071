//! The mode that a node starts in.

use vstd::prelude::*;
use crate::configuration::environment::{lowercase, to_lowercase};
use crate::text::same_text;

verus! {

/// How a node gets its flows.
///
/// `STATIC`: from a configuration file, once, at start.
///
/// `DYNAMIC`: from the remote authority, which keeps them up to date.
#[allow(non_camel_case_types)]
#[derive(Clone, Copy, Debug, PartialEq, Eq, Structural)]
pub enum Mode {
    STATIC,
    DYNAMIC,
}

impl Mode {
    /// The mode that the lower-case name `name` stands for, if any.
    pub open spec fn named(name: Seq<char>) -> Option<Mode> {
        if name == "static"@ {
            Some(Mode::STATIC)
        } else if name == "dynamic"@ {
            Some(Mode::DYNAMIC)
        } else {
            None
        }
    }

    /// Reads a mode from a name that is in lower case already.
    pub fn from_lowercase(name: &str) -> (mode: Option<Self>)
        ensures
            mode == Mode::named(name@),
    {
        if same_text(name, "static") {
            Some(Mode::STATIC)
        } else if same_text(name, "dynamic") {
            Some(Mode::DYNAMIC)
        } else {
            None
        }
    }

    /// Reads a mode from its name, whatever the case of its letters.
    pub fn parse(s: &str) -> (mode: Option<Self>)
        ensures
            mode == Mode::named(lowercase(s@)),
    {
        let lower = to_lowercase(s);
        Mode::from_lowercase(lower.as_str())
    }

    /// Whether flows come from a file at start.
    pub fn is_static(&self) -> (yes: bool)
        ensures
            yes == (*self == Mode::STATIC),
    {
        *self == Mode::STATIC
    }
}

impl std::str::FromStr for Mode {
    type Err = ();

    fn from_str(s: &str) -> (mode: Result<Self, Self::Err>)
        ensures
            match mode {
                Ok(m) => Mode::named(lowercase(s@)) == Some(m),
                Err(_) => Mode::named(lowercase(s@)) is None,
            },
    {
        match Mode::parse(s) {
            Some(mode) => Ok(mode),
            None => Err(()),
        }
    }
}

} // verus!
