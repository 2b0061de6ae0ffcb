//! Consistency levels and how one is chosen from configuration text.

use vstd::prelude::*;
use crate::text::{same_text, to_uppercase, uppercase_of};

verus! {

/// The consistency levels a session can be opened with.
#[derive(Clone, Copy, Debug, PartialEq, Eq, Structural)]
pub enum ConsistencyLevel {
    One,
    Two,
    Three,
    Quorum,
    All,
    LocalQuorum,
    EachQuorum,
    Serial,
    LocalSerial,
    LocalOne,
}

/// The level that an upper-case name stands for; `LocalQuorum` for every
/// text that is not one of the ten names.
pub open spec fn level_named(name: Seq<char>) -> ConsistencyLevel {
    if name == "ONE"@ {
        ConsistencyLevel::One
    } else if name == "TWO"@ {
        ConsistencyLevel::Two
    } else if name == "THREE"@ {
        ConsistencyLevel::Three
    } else if name == "QUORUM"@ {
        ConsistencyLevel::Quorum
    } else if name == "ALL"@ {
        ConsistencyLevel::All
    } else if name == "LOCAL_QUORUM"@ {
        ConsistencyLevel::LocalQuorum
    } else if name == "EACH_QUORUM"@ {
        ConsistencyLevel::EachQuorum
    } else if name == "SERIAL"@ {
        ConsistencyLevel::Serial
    } else if name == "LOCAL_SERIAL"@ {
        ConsistencyLevel::LocalSerial
    } else if name == "LOCAL_ONE"@ {
        ConsistencyLevel::LocalOne
    } else {
        ConsistencyLevel::LocalQuorum
    }
}

impl ConsistencyLevel {
    /// The upper-case name of a level.
    pub open spec fn name_spec(self) -> Seq<char> {
        match self {
            ConsistencyLevel::One => "ONE"@,
            ConsistencyLevel::Two => "TWO"@,
            ConsistencyLevel::Three => "THREE"@,
            ConsistencyLevel::Quorum => "QUORUM"@,
            ConsistencyLevel::All => "ALL"@,
            ConsistencyLevel::LocalQuorum => "LOCAL_QUORUM"@,
            ConsistencyLevel::EachQuorum => "EACH_QUORUM"@,
            ConsistencyLevel::Serial => "SERIAL"@,
            ConsistencyLevel::LocalSerial => "LOCAL_SERIAL"@,
            ConsistencyLevel::LocalOne => "LOCAL_ONE"@,
        }
    }

    /// The upper-case name of a level.
    pub fn name(&self) -> (name: &'static str)
        ensures
            name@ == self.name_spec(),
    {
        match self {
            ConsistencyLevel::One => "ONE",
            ConsistencyLevel::Two => "TWO",
            ConsistencyLevel::Three => "THREE",
            ConsistencyLevel::Quorum => "QUORUM",
            ConsistencyLevel::All => "ALL",
            ConsistencyLevel::LocalQuorum => "LOCAL_QUORUM",
            ConsistencyLevel::EachQuorum => "EACH_QUORUM",
            ConsistencyLevel::Serial => "SERIAL",
            ConsistencyLevel::LocalSerial => "LOCAL_SERIAL",
            ConsistencyLevel::LocalOne => "LOCAL_ONE",
        }
    }

    /// The level that an upper-case name stands for. Matching is exact;
    /// any other text, the empty one included, gives `LocalQuorum`.
    pub fn from_upper_name(name: &str) -> (level: ConsistencyLevel)
        ensures
            level == level_named(name@),
    {
        if same_text(name, "ONE") {
            ConsistencyLevel::One
        } else if same_text(name, "TWO") {
            ConsistencyLevel::Two
        } else if same_text(name, "THREE") {
            ConsistencyLevel::Three
        } else if same_text(name, "QUORUM") {
            ConsistencyLevel::Quorum
        } else if same_text(name, "ALL") {
            ConsistencyLevel::All
        } else if same_text(name, "LOCAL_QUORUM") {
            ConsistencyLevel::LocalQuorum
        } else if same_text(name, "EACH_QUORUM") {
            ConsistencyLevel::EachQuorum
        } else if same_text(name, "SERIAL") {
            ConsistencyLevel::Serial
        } else if same_text(name, "LOCAL_SERIAL") {
            ConsistencyLevel::LocalSerial
        } else if same_text(name, "LOCAL_ONE") {
            ConsistencyLevel::LocalOne
        } else {
            ConsistencyLevel::LocalQuorum
        }
    }
}

/// The consistency level that a configuration value selects: the level whose
/// name the value is when put in upper case, `LocalQuorum` otherwise.
pub open spec fn resolved(value: Seq<char>) -> ConsistencyLevel {
    level_named(uppercase_of(value))
}

/// The consistency level that a configuration value selects: the level whose
/// name the value is when put in upper case, `LocalQuorum` otherwise. Every
/// value selects a level.
pub fn resolve_consistency(value: &str) -> (level: ConsistencyLevel)
    ensures
        level == resolved(value@),
{
    let upper = to_uppercase(value);
    ConsistencyLevel::from_upper_name(upper.as_str())
}

/// Each level is the one that its own name stands for, so no two levels
/// share a name.
pub proof fn law_names_are_exact(level: ConsistencyLevel)
    ensures
        level_named(level.name_spec()) == level,
{
    reveal_strlit("ONE");
    reveal_strlit("TWO");
    reveal_strlit("THREE");
    reveal_strlit("QUORUM");
    reveal_strlit("ALL");
    reveal_strlit("LOCAL_QUORUM");
    reveal_strlit("EACH_QUORUM");
    reveal_strlit("SERIAL");
    reveal_strlit("LOCAL_SERIAL");
    reveal_strlit("LOCAL_ONE");
    // The lengths tell most names apart.
    assert("ONE"@.len() == 3 && "TWO"@.len() == 3 && "ALL"@.len() == 3);
    assert("THREE"@.len() == 5 && "QUORUM"@.len() == 6 && "SERIAL"@.len() == 6);
    assert("LOCAL_ONE"@.len() == 9 && "EACH_QUORUM"@.len() == 11);
    assert("LOCAL_QUORUM"@.len() == 12 && "LOCAL_SERIAL"@.len() == 12);
    // Names of one length differ in their first character, or, for the two
    // local twelve-letter names, in their seventh.
    assert("ONE"@[0] == 'O' && "TWO"@[0] == 'T' && "ALL"@[0] == 'A');
    assert("QUORUM"@[0] == 'Q' && "SERIAL"@[0] == 'S');
    assert("LOCAL_QUORUM"@[6] == 'Q' && "LOCAL_SERIAL"@[6] == 'S');
}

/// A value that is the name of a level in any mix of cases selects that
/// level, and no other level; every other value selects `LocalQuorum`.
pub proof fn law_resolution_is_exact(value: Seq<char>)
    ensures
        forall|level: ConsistencyLevel|
            uppercase_of(value) == #[trigger] level.name_spec() ==> resolved(value) == level,
        (forall|level: ConsistencyLevel| uppercase_of(value) != #[trigger] level.name_spec())
            ==> resolved(value) == ConsistencyLevel::LocalQuorum,
{
    assert forall|level: ConsistencyLevel|
        uppercase_of(value) == #[trigger] level.name_spec() implies resolved(value) == level by {
        law_names_are_exact(level);
    }
    if forall|level: ConsistencyLevel| uppercase_of(value) != #[trigger] level.name_spec() {
        let upper = uppercase_of(value);
        assert(upper != ConsistencyLevel::One.name_spec());
        assert(upper != ConsistencyLevel::Two.name_spec());
        assert(upper != ConsistencyLevel::Three.name_spec());
        assert(upper != ConsistencyLevel::Quorum.name_spec());
        assert(upper != ConsistencyLevel::All.name_spec());
        assert(upper != ConsistencyLevel::EachQuorum.name_spec());
        assert(upper != ConsistencyLevel::Serial.name_spec());
        assert(upper != ConsistencyLevel::LocalSerial.name_spec());
        assert(upper != ConsistencyLevel::LocalOne.name_spec());
    }
}

} // verus!
