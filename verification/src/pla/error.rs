//! What can go wrong while a file is read, and while a sub-record is taken
//! for a kind that it is not.

use vstd::prelude::*;
use crate::pla::command::PlaCommand;

verus! {

/// The ways in which a file can be malformed.
#[derive(Clone, Copy, PartialEq, Eq, Structural, Debug)]
pub enum PlaParseErrorKind {
    /// The number between the brackets of an entry header is missing or is
    /// no unsigned 32-bit number.
    MalformedId,
    /// A command line stands before the first entry header.
    OrphanCommand,
    /// The date of a `start` line is missing or is no date.
    InvalidDate,
    /// The hour of a `start` line is there and is no number.
    InvalidHour,
    /// The length of a `duration` line is missing or is no number.
    InvalidDuration,
    /// The number of a `dep` line is missing or is no number.
    InvalidDependency,
    /// The number of a `child` line is missing or is no number.
    InvalidChild,
    /// A `res` line names no resource.
    InvalidResource,
    /// A sub-record was taken for a kind other than its own.
    UnknownVariantAccess,
}

impl PlaParseErrorKind {
    /// The sentence that describes the kind.
    pub open spec fn spec_message(self) -> Seq<char> {
        match self {
            PlaParseErrorKind::MalformedId => "unable to parse the id of an entry header"@,
            PlaParseErrorKind::OrphanCommand => "command line without an entry header before it"@,
            PlaParseErrorKind::InvalidDate => "unable to parse date for start command"@,
            PlaParseErrorKind::InvalidHour => "unable to parse hour of day for start command"@,
            PlaParseErrorKind::InvalidDuration => "unable to parse duration length for duration command"@,
            PlaParseErrorKind::InvalidDependency => "unable to parse dependency id for dep command"@,
            PlaParseErrorKind::InvalidChild => "unable to parse child id for child command"@,
            PlaParseErrorKind::InvalidResource => "unable to parse resource name for res command"@,
            PlaParseErrorKind::UnknownVariantAccess => "unable to convert a sub block to the requested concrete type"@,
        }
    }

    /// The sentence that describes the kind.
    pub fn message(&self) -> (message: &'static str)
        ensures
            message@ == self.spec_message(),
    {
        match self {
            PlaParseErrorKind::MalformedId => "unable to parse the id of an entry header",
            PlaParseErrorKind::OrphanCommand => "command line without an entry header before it",
            PlaParseErrorKind::InvalidDate => "unable to parse date for start command",
            PlaParseErrorKind::InvalidHour => "unable to parse hour of day for start command",
            PlaParseErrorKind::InvalidDuration => "unable to parse duration length for duration command",
            PlaParseErrorKind::InvalidDependency => "unable to parse dependency id for dep command",
            PlaParseErrorKind::InvalidChild => "unable to parse child id for child command",
            PlaParseErrorKind::InvalidResource => "unable to parse resource name for res command",
            PlaParseErrorKind::UnknownVariantAccess => "unable to convert a sub block to the requested concrete type",
        }
    }
}

/// The one error that reading a file can end with.
#[derive(Debug, Clone, PartialEq, Eq)]
pub struct PlaParseError {
    pub kind: PlaParseErrorKind,
    pub message: String,
}

impl PlaParseError {
    /// The error of the given kind, with the kind's own sentence as message.
    pub fn new(kind: PlaParseErrorKind) -> (error: PlaParseError)
        ensures
            error.kind == kind,
            error.message@ == kind.spec_message(),
    {
        PlaParseError { kind, message: String::from_str(kind.message()) }
    }

    /// The message behind the words `PlaParseError: `.
    pub fn to_string(&self) -> (text: String)
        ensures
            text@ == "PlaParseError: "@ + self.message@,
    {
        String::from_str("PlaParseError: ").concat(self.message.as_str())
    }
}

/// Whether `result` is what `expected` says: the value that `expected`
/// views, or the error of the kind that `expected` names, with the kind's
/// own sentence as its message.
pub open spec fn reports<T: DeepView>(
    result: Result<T, PlaParseError>,
    expected: Result<T::V, PlaParseErrorKind>,
) -> bool {
    match result {
        Ok(value) => expected == Ok::<T::V, PlaParseErrorKind>(value.deep_view()),
        Err(error) => expected == Err::<T::V, PlaParseErrorKind>(error.kind) && error.message@
            == error.kind.spec_message(),
    }
}

/// A sub-record was asked to be of a kind that it is not.
#[derive(Clone, Copy, PartialEq, Eq, Structural, Debug)]
pub struct PlaSubBlockConversionError {
    /// The kind that was asked for.
    pub initial_type: PlaCommand,
}

impl PlaSubBlockConversionError {
    /// One sentence that ends in the name of the kind that was asked for.
    pub fn to_string(&self) -> (text: String)
        ensures
            text@ == "Unable to convert from a PlaSubBlock to the requested concrete type: "@
                + self.initial_type.spec_name(),
    {
        String::from_str(
            "Unable to convert from a PlaSubBlock to the requested concrete type: ",
        ).concat(self.initial_type.name())
    }

    /// The same failure as a parse error, of the kind `UnknownVariantAccess`.
    pub fn to_parse_error(&self) -> (error: PlaParseError)
        ensures
            error.kind == PlaParseErrorKind::UnknownVariantAccess,
            error.message@ == PlaParseErrorKind::UnknownVariantAccess.spec_message(),
    {
        PlaParseError::new(PlaParseErrorKind::UnknownVariantAccess)
    }
}

} // verus!
