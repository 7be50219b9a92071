//! The kinds of rule that a data type can carry, and the names under which
//! they go over the wire.

use vstd::prelude::*;
use crate::text::same_text;

verus! {

/// The kind of a rule.
#[derive(Clone, Copy, Debug, PartialEq, Eq, Structural)]
pub enum RuleType {
    /// The value has to match a pattern.
    Regex,
    /// The value has to lie in a range of numbers.
    NumberRange,
    /// The value has to be one of a collection.
    ItemOfCollection,
}

impl RuleType {
    /// The name of the kind on the wire.
    pub open spec fn spec_name(self) -> Seq<char> {
        match self {
            RuleType::Regex => "REGEX"@,
            RuleType::NumberRange => "NUMBER_RANGE"@,
            RuleType::ItemOfCollection => "ITEM_OF_COLLECTION"@,
        }
    }

    /// The kind that goes under `name` on the wire, if there is one.
    pub open spec fn named(name: Seq<char>) -> Option<RuleType> {
        if name == "REGEX"@ {
            Some(RuleType::Regex)
        } else if name == "NUMBER_RANGE"@ {
            Some(RuleType::NumberRange)
        } else if name == "ITEM_OF_COLLECTION"@ {
            Some(RuleType::ItemOfCollection)
        } else {
            None
        }
    }

    /// The name of the kind on the wire.
    pub fn as_str_name(&self) -> (name: &'static str)
        ensures
            name@ == self.spec_name(),
    {
        match self {
            RuleType::Regex => "REGEX",
            RuleType::NumberRange => "NUMBER_RANGE",
            RuleType::ItemOfCollection => "ITEM_OF_COLLECTION",
        }
    }

    /// The kind that goes under `value` on the wire, if there is one. Names
    /// are taken as they are written: nothing but the three names is a kind.
    pub fn from_str_name(value: &str) -> (kind: Option<Self>)
        ensures
            kind == RuleType::named(value@),
    {
        if same_text(value, "REGEX") {
            Some(RuleType::Regex)
        } else if same_text(value, "NUMBER_RANGE") {
            Some(RuleType::NumberRange)
        } else if same_text(value, "ITEM_OF_COLLECTION") {
            Some(RuleType::ItemOfCollection)
        } else {
            None
        }
    }
}

/// Each kind is read back from its own name.
pub proof fn lemma_rule_type_round_trip(kind: RuleType)
    ensures
        RuleType::named(kind.spec_name()) == Some(kind),
{
    reveal_strlit("REGEX");
    reveal_strlit("NUMBER_RANGE");
    reveal_strlit("ITEM_OF_COLLECTION");
    assert("REGEX"@.len() != "NUMBER_RANGE"@.len());
    assert("REGEX"@.len() != "ITEM_OF_COLLECTION"@.len());
    assert("NUMBER_RANGE"@.len() != "ITEM_OF_COLLECTION"@.len());
}

} // verus!
