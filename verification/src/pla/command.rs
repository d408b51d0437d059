//! The words that a command line may start with.

use vstd::prelude::*;
use crate::pla::error::PlaParseError;
use crate::pla::text::text_equals;

verus! {

/// What a line is about: one of the six known command words, or none of them.
#[derive(Clone, Copy, PartialEq, Eq, Structural, Debug)]
pub enum PlaCommand {
    CHILD,
    DEPENDENCY,
    DURATION,
    ENTRY,
    RESOURCE,
    START,
    UNKNOWN,
}

impl PlaCommand {
    /// The word that stands for the command in a file.
    pub open spec fn spec_word(self) -> Seq<char> {
        match self {
            PlaCommand::CHILD => "child"@,
            PlaCommand::DEPENDENCY => "dep"@,
            PlaCommand::DURATION => "duration"@,
            PlaCommand::ENTRY => "entry"@,
            PlaCommand::RESOURCE => "res"@,
            PlaCommand::START => "start"@,
            PlaCommand::UNKNOWN => "unknown"@,
        }
    }

    /// The command that a word stands for. The match is exact and
    /// case-sensitive; every word off the table is `UNKNOWN`.
    pub open spec fn spec_from_word(word: Seq<char>) -> PlaCommand {
        if word == "child"@ {
            PlaCommand::CHILD
        } else if word == "dep"@ {
            PlaCommand::DEPENDENCY
        } else if word == "duration"@ {
            PlaCommand::DURATION
        } else if word == "entry"@ {
            PlaCommand::ENTRY
        } else if word == "res"@ {
            PlaCommand::RESOURCE
        } else if word == "start"@ {
            PlaCommand::START
        } else {
            PlaCommand::UNKNOWN
        }
    }

    /// The name of the variant, as it is written in this source.
    pub open spec fn spec_name(self) -> Seq<char> {
        match self {
            PlaCommand::CHILD => "CHILD"@,
            PlaCommand::DEPENDENCY => "DEPENDENCY"@,
            PlaCommand::DURATION => "DURATION"@,
            PlaCommand::ENTRY => "ENTRY"@,
            PlaCommand::RESOURCE => "RESOURCE"@,
            PlaCommand::START => "START"@,
            PlaCommand::UNKNOWN => "UNKNOWN"@,
        }
    }

    /// Whether lines of this command become sub-records of an entry.
    pub open spec fn spec_is_sub_block(self) -> bool {
        self == PlaCommand::START || self == PlaCommand::CHILD || self == PlaCommand::DURATION
            || self == PlaCommand::DEPENDENCY || self == PlaCommand::RESOURCE
    }

    /// The word that stands for the command in a file.
    pub fn to_string(&self) -> (word: String)
        ensures
            word@ == self.spec_word(),
    {
        match self {
            PlaCommand::CHILD => String::from_str("child"),
            PlaCommand::DEPENDENCY => String::from_str("dep"),
            PlaCommand::DURATION => String::from_str("duration"),
            PlaCommand::ENTRY => String::from_str("entry"),
            PlaCommand::RESOURCE => String::from_str("res"),
            PlaCommand::START => String::from_str("start"),
            PlaCommand::UNKNOWN => String::from_str("unknown"),
        }
    }

    /// The name of the variant, as it is written in this source.
    pub fn name(&self) -> (name: &'static str)
        ensures
            name@ == self.spec_name(),
    {
        match self {
            PlaCommand::CHILD => "CHILD",
            PlaCommand::DEPENDENCY => "DEPENDENCY",
            PlaCommand::DURATION => "DURATION",
            PlaCommand::ENTRY => "ENTRY",
            PlaCommand::RESOURCE => "RESOURCE",
            PlaCommand::START => "START",
            PlaCommand::UNKNOWN => "UNKNOWN",
        }
    }

    /// Looks a word up in the table of commands. This never fails: a word
    /// that the table lacks is `UNKNOWN`.
    pub fn from_str(s: &str) -> (command: Result<PlaCommand, PlaParseError>)
        ensures
            command == Ok::<PlaCommand, PlaParseError>(Self::spec_from_word(s@)),
    {
        if text_equals(s, "child") {
            Ok(PlaCommand::CHILD)
        } else if text_equals(s, "dep") {
            Ok(PlaCommand::DEPENDENCY)
        } else if text_equals(s, "duration") {
            Ok(PlaCommand::DURATION)
        } else if text_equals(s, "entry") {
            Ok(PlaCommand::ENTRY)
        } else if text_equals(s, "res") {
            Ok(PlaCommand::RESOURCE)
        } else if text_equals(s, "start") {
            Ok(PlaCommand::START)
        } else {
            Ok(PlaCommand::UNKNOWN)
        }
    }

    /// Whether lines of this command become sub-records of an entry.
    pub fn is_sub_block(&self) -> (yes: bool)
        ensures
            yes == self.spec_is_sub_block(),
    {
        match self {
            PlaCommand::START
            | PlaCommand::CHILD
            | PlaCommand::DURATION
            | PlaCommand::DEPENDENCY
            | PlaCommand::RESOURCE => true,
            PlaCommand::ENTRY | PlaCommand::UNKNOWN => false,
        }
    }
}

/// Writing a command as its word and looking the word up gives the command
/// back, `UNKNOWN` included.
pub proof fn lemma_word_round_trip(command: PlaCommand)
    ensures
        PlaCommand::spec_from_word(command.spec_word()) == command,
{
    reveal_strlit("child");
    reveal_strlit("dep");
    reveal_strlit("duration");
    reveal_strlit("entry");
    reveal_strlit("res");
    reveal_strlit("start");
    reveal_strlit("unknown");
    assert("duration"@.len() == 8 && "unknown"@.len() == 7);
    assert("dep"@[0] == 'd' && "res"@[0] == 'r');
    assert("child"@[0] == 'c' && "entry"@[0] == 'e' && "start"@[0] == 's');
}

} // verus!
