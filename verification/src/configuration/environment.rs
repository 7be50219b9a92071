//! The environment that a node runs in.

use vstd::prelude::*;
use crate::text::same_text;

verus! {

/// Where a node runs.
#[derive(Clone, Copy, Debug, PartialEq, Eq, Structural)]
pub enum Environment {
    Development,
    Staging,
    Production,
}

/// `text` with each upper-case letter replaced by its lower-case form, as
/// `str::to_lowercase` of std defines it for all of Unicode.
pub uninterp spec fn lowercase(text: Seq<char>) -> Seq<char>;

/// `str::to_lowercase` of std: the lower-case form of `text`.
#[verifier::external_body]
pub(crate) fn to_lowercase(text: &str) -> (lower: String)
    ensures
        lower@ == lowercase(text@),
{
    text.to_lowercase()
}

impl Environment {
    /// The environment that the lower-case name `name` stands for: staging
    /// and production by their names, development for everything else.
    pub open spec fn named(name: Seq<char>) -> Environment {
        if name == "staging"@ {
            Environment::Staging
        } else if name == "production"@ {
            Environment::Production
        } else {
            Environment::Development
        }
    }

    /// Reads an environment from a name that is in lower case already.
    pub fn from_lowercase(name: &str) -> (environment: Self)
        ensures
            environment == Environment::named(name@),
    {
        if same_text(name, "staging") {
            Environment::Staging
        } else if same_text(name, "production") {
            Environment::Production
        } else {
            Environment::Development
        }
    }

    /// Reads an environment from its name, whatever the case of its letters.
    /// A name that is none of the known ones gives development.
    pub fn from_str(env: &str) -> (environment: Self)
        ensures
            environment == Environment::named(lowercase(env@)),
    {
        let lower = to_lowercase(env);
        Environment::from_lowercase(lower.as_str())
    }
}

} // verus!
