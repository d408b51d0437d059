//! The five kinds of sub-record that a command line can give, and how each
//! is read from the text of its line.

use vstd::prelude::*;
use vstd::std_specs::convert::TryFromSpecImpl;
use crate::pla::command::PlaCommand;
use crate::pla::date::{naive_date_from_str, parse_naive_date, PlaDate};
use crate::pla::error::{reports, PlaParseError, PlaParseErrorKind, PlaSubBlockConversionError};
use crate::pla::parser::{HeirarchicalPlaLine, HeirarchicalPlaLineView};
use crate::pla::pattern::{captures, group, regex_captures, spec_group};
use crate::pla::text::{parse_u32, spec_parse_u32, spec_split, spec_trim_start, split, trim_start};

verus! {

/// The format of the date of a `start` line: year, month and day in
/// numbers, with hyphens between them.
pub const DATE_FORMAT: &'static str = "%Y-%m-%d";

/// The pattern of a `res` line: the command word, white space, and the
/// name of the resource.
pub const RESOURCE_PATTERN: &'static str = "res(\\s)+(.*)";

/// What every sub-record has: the command that it came from, and the number
/// of the entry that owns it.
pub trait PlaSubBlock {
    spec fn spec_command(&self) -> PlaCommand;

    spec fn spec_parent_id(&self) -> u32;

    fn get_command(&self) -> (command: PlaCommand)
        ensures
            command == self.spec_command(),
    ;

    fn get_parent_id(&self) -> (parent_id: u32)
        ensures
            parent_id == self.spec_parent_id(),
    ;
}

/// A sub-record as a mathematical value: one of five kinds, each with the
/// number of its entry.
pub enum SubRecordView {
    Start { parent_id: u32, date: PlaDate, hour: u32 },
    Duration { parent_id: u32, length: u32 },
    Dependency { parent_id: u32, dependency_id: u32 },
    Child { parent_id: u32, child_id: u32 },
    Resource { parent_id: u32, name: Seq<char> },
}

impl SubRecordView {
    /// The number of the entry that owns the sub-record.
    pub open spec fn parent_id(self) -> u32 {
        match self {
            SubRecordView::Start { parent_id, .. } => parent_id,
            SubRecordView::Duration { parent_id, .. } => parent_id,
            SubRecordView::Dependency { parent_id, .. } => parent_id,
            SubRecordView::Child { parent_id, .. } => parent_id,
            SubRecordView::Resource { parent_id, .. } => parent_id,
        }
    }

    /// Whether the sub-record is of a shape that reading a file gives: the
    /// date of a `start` sub-record is well-formed.
    pub open spec fn wf(self) -> bool {
        self matches SubRecordView::Start { date, .. } ==> date.wf()
    }

    /// The command that gives a sub-record of this kind.
    pub open spec fn command(self) -> PlaCommand {
        match self {
            SubRecordView::Start { .. } => PlaCommand::START,
            SubRecordView::Duration { .. } => PlaCommand::DURATION,
            SubRecordView::Dependency { .. } => PlaCommand::DEPENDENCY,
            SubRecordView::Child { .. } => PlaCommand::CHILD,
            SubRecordView::Resource { .. } => PlaCommand::RESOURCE,
        }
    }
}

/// The number that stands as the first argument of a command: the second of
/// the pieces that single spaces part the text into.
pub open spec fn spec_number_argument(text: Seq<char>) -> Option<u32> {
    let tokens = spec_split(text, ' ');
    if tokens.len() < 2 {
        None
    } else {
        spec_parse_u32(tokens[1])
    }
}

/// The number that stands as the first argument of a command.
pub fn number_argument(text: &str) -> (number: Option<u32>)
    ensures
        number == spec_number_argument(text@),
{
    let tokens = split(text, ' ');
    if tokens.len() < 2 {
        None
    } else {
        parse_u32(tokens[1].as_str())
    }
}

/// The resource that a `res` line names.
#[derive(Debug)]
pub struct PlaResourceBlock {
    pub parent_id: u32,
    pub resource_name: String,
}

/// The entry that must be done before the owning entry.
#[derive(Clone, Copy, PartialEq, Eq, Structural, Debug)]
pub struct PlaDependencyBlock {
    pub parent_id: u32,
    pub dependency_id: u32,
}

/// The day on which the owning entry starts, and the hour as the line has
/// it: the hour is kept as written, and nothing confines it to a day's hours.
#[derive(Clone, Copy, PartialEq, Eq, Structural, Debug)]
pub struct PlaStartBlock {
    pub parent_id: u32,
    pub date: PlaDate,
    pub hour: u32,
}

/// How long the owning entry takes.
#[derive(Clone, Copy, PartialEq, Eq, Structural, Debug)]
pub struct PlaDurationBlock {
    pub parent_id: u32,
    pub duration: u32,
}

/// An entry that is part of the owning entry.
#[derive(Clone, Copy, PartialEq, Eq, Structural, Debug)]
pub struct PlaChildBlock {
    pub parent_id: u32,
    pub child_id: u32,
}

/// A sub-record of any of the five kinds.
#[derive(Debug)]
pub enum SubRecord {
    Start(PlaStartBlock),
    Duration(PlaDurationBlock),
    Dependency(PlaDependencyBlock),
    Child(PlaChildBlock),
    Resource(PlaResourceBlock),
}

impl View for PlaResourceBlock {
    type V = SubRecordView;

    open spec fn view(&self) -> SubRecordView {
        SubRecordView::Resource { parent_id: self.parent_id, name: self.resource_name@ }
    }
}

impl DeepView for PlaResourceBlock {
    type V = SubRecordView;

    open spec fn deep_view(&self) -> SubRecordView {
        self@
    }
}

impl View for PlaDependencyBlock {
    type V = SubRecordView;

    open spec fn view(&self) -> SubRecordView {
        SubRecordView::Dependency { parent_id: self.parent_id, dependency_id: self.dependency_id }
    }
}

impl DeepView for PlaDependencyBlock {
    type V = SubRecordView;

    open spec fn deep_view(&self) -> SubRecordView {
        self@
    }
}

impl View for PlaStartBlock {
    type V = SubRecordView;

    open spec fn view(&self) -> SubRecordView {
        SubRecordView::Start { parent_id: self.parent_id, date: self.date, hour: self.hour }
    }
}

impl DeepView for PlaStartBlock {
    type V = SubRecordView;

    open spec fn deep_view(&self) -> SubRecordView {
        self@
    }
}

impl View for PlaDurationBlock {
    type V = SubRecordView;

    open spec fn view(&self) -> SubRecordView {
        SubRecordView::Duration { parent_id: self.parent_id, length: self.duration }
    }
}

impl DeepView for PlaDurationBlock {
    type V = SubRecordView;

    open spec fn deep_view(&self) -> SubRecordView {
        self@
    }
}

impl View for PlaChildBlock {
    type V = SubRecordView;

    open spec fn view(&self) -> SubRecordView {
        SubRecordView::Child { parent_id: self.parent_id, child_id: self.child_id }
    }
}

impl DeepView for PlaChildBlock {
    type V = SubRecordView;

    open spec fn deep_view(&self) -> SubRecordView {
        self@
    }
}

impl View for SubRecord {
    type V = SubRecordView;

    open spec fn view(&self) -> SubRecordView {
        match self {
            SubRecord::Start(block) => block@,
            SubRecord::Duration(block) => block@,
            SubRecord::Dependency(block) => block@,
            SubRecord::Child(block) => block@,
            SubRecord::Resource(block) => block@,
        }
    }
}

impl DeepView for SubRecord {
    type V = SubRecordView;

    open spec fn deep_view(&self) -> SubRecordView {
        self@
    }
}

impl Clone for PlaResourceBlock {
    fn clone(&self) -> (copy: Self)
        ensures
            copy == *self,
    {
        PlaResourceBlock { parent_id: self.parent_id, resource_name: self.resource_name.clone() }
    }
}

impl Clone for SubRecord {
    fn clone(&self) -> (copy: Self)
        ensures
            copy == *self,
    {
        match self {
            SubRecord::Start(block) => SubRecord::Start(*block),
            SubRecord::Duration(block) => SubRecord::Duration(*block),
            SubRecord::Dependency(block) => SubRecord::Dependency(*block),
            SubRecord::Child(block) => SubRecord::Child(*block),
            SubRecord::Resource(block) => SubRecord::Resource(block.clone()),
        }
    }
}

impl PlaSubBlock for PlaResourceBlock {
    open spec fn spec_command(&self) -> PlaCommand {
        PlaCommand::RESOURCE
    }

    open spec fn spec_parent_id(&self) -> u32 {
        self.parent_id
    }

    fn get_command(&self) -> PlaCommand {
        PlaCommand::RESOURCE
    }

    fn get_parent_id(&self) -> u32 {
        self.parent_id
    }
}

impl PlaSubBlock for PlaDependencyBlock {
    open spec fn spec_command(&self) -> PlaCommand {
        PlaCommand::DEPENDENCY
    }

    open spec fn spec_parent_id(&self) -> u32 {
        self.parent_id
    }

    fn get_command(&self) -> PlaCommand {
        PlaCommand::DEPENDENCY
    }

    fn get_parent_id(&self) -> u32 {
        self.parent_id
    }
}

impl PlaSubBlock for PlaStartBlock {
    open spec fn spec_command(&self) -> PlaCommand {
        PlaCommand::START
    }

    open spec fn spec_parent_id(&self) -> u32 {
        self.parent_id
    }

    fn get_command(&self) -> PlaCommand {
        PlaCommand::START
    }

    fn get_parent_id(&self) -> u32 {
        self.parent_id
    }
}

impl PlaSubBlock for PlaDurationBlock {
    open spec fn spec_command(&self) -> PlaCommand {
        PlaCommand::DURATION
    }

    open spec fn spec_parent_id(&self) -> u32 {
        self.parent_id
    }

    fn get_command(&self) -> PlaCommand {
        PlaCommand::DURATION
    }

    fn get_parent_id(&self) -> u32 {
        self.parent_id
    }
}

impl PlaSubBlock for PlaChildBlock {
    open spec fn spec_command(&self) -> PlaCommand {
        PlaCommand::CHILD
    }

    open spec fn spec_parent_id(&self) -> u32 {
        self.parent_id
    }

    fn get_command(&self) -> PlaCommand {
        PlaCommand::CHILD
    }

    fn get_parent_id(&self) -> u32 {
        self.parent_id
    }
}

impl PlaSubBlock for SubRecord {
    open spec fn spec_command(&self) -> PlaCommand {
        self@.command()
    }

    open spec fn spec_parent_id(&self) -> u32 {
        self@.parent_id()
    }

    fn get_command(&self) -> PlaCommand {
        match self {
            SubRecord::Start(block) => block.get_command(),
            SubRecord::Duration(block) => block.get_command(),
            SubRecord::Dependency(block) => block.get_command(),
            SubRecord::Child(block) => block.get_command(),
            SubRecord::Resource(block) => block.get_command(),
        }
    }

    fn get_parent_id(&self) -> u32 {
        match self {
            SubRecord::Start(block) => block.get_parent_id(),
            SubRecord::Duration(block) => block.get_parent_id(),
            SubRecord::Dependency(block) => block.get_parent_id(),
            SubRecord::Child(block) => block.get_parent_id(),
            SubRecord::Resource(block) => block.get_parent_id(),
        }
    }
}

/// The sub-record of a `start` line, once its date has been read: `date` is
/// what the second piece of the line gave, `hour` the third piece, if any.
/// A line without an hour starts at midnight.
pub open spec fn spec_start_block(
    parent_id: u32,
    date: Option<PlaDate>,
    hour: Option<Seq<char>>,
) -> Result<SubRecordView, PlaParseErrorKind> {
    match date {
        None => Err(PlaParseErrorKind::InvalidDate),
        Some(date) => match hour {
            None => Ok(SubRecordView::Start { parent_id, date, hour: 0 }),
            Some(hour) => match spec_parse_u32(hour) {
                Some(hour) => Ok(SubRecordView::Start { parent_id, date, hour }),
                None => Err(PlaParseErrorKind::InvalidHour),
            },
        },
    }
}

/// The sub-record of a `start` line with the text `text`.
pub open spec fn spec_start(parent_id: u32, text: Seq<char>) -> Result<
    SubRecordView,
    PlaParseErrorKind,
> {
    let tokens = spec_split(text, ' ');
    if tokens.len() < 2 {
        Err(PlaParseErrorKind::InvalidDate)
    } else {
        spec_start_block(
            parent_id,
            naive_date_from_str(tokens[1], DATE_FORMAT@),
            if tokens.len() < 3 {
                None
            } else {
                Some(tokens[2])
            },
        )
    }
}

/// The sub-record of a `duration` line with the text `text`.
pub open spec fn spec_duration(parent_id: u32, text: Seq<char>) -> Result<
    SubRecordView,
    PlaParseErrorKind,
> {
    match spec_number_argument(text) {
        Some(length) => Ok(SubRecordView::Duration { parent_id, length }),
        None => Err(PlaParseErrorKind::InvalidDuration),
    }
}

/// The sub-record of a `dep` line with the text `text`.
pub open spec fn spec_dependency(parent_id: u32, text: Seq<char>) -> Result<
    SubRecordView,
    PlaParseErrorKind,
> {
    match spec_number_argument(text) {
        Some(dependency_id) => Ok(SubRecordView::Dependency { parent_id, dependency_id }),
        None => Err(PlaParseErrorKind::InvalidDependency),
    }
}

/// The sub-record of a `child` line with the text `text`.
pub open spec fn spec_child(parent_id: u32, text: Seq<char>) -> Result<
    SubRecordView,
    PlaParseErrorKind,
> {
    match spec_number_argument(text) {
        Some(child_id) => Ok(SubRecordView::Child { parent_id, child_id }),
        None => Err(PlaParseErrorKind::InvalidChild),
    }
}

/// The sub-record of a `res` line, once the pattern has been matched
/// against it: the name is the second capture group.
pub open spec fn spec_resource_block(
    parent_id: u32,
    captures: Option<Seq<Option<Seq<char>>>>,
) -> Result<SubRecordView, PlaParseErrorKind> {
    match spec_group(captures, 2) {
        Some(name) => Ok(SubRecordView::Resource { parent_id, name }),
        None => Err(PlaParseErrorKind::InvalidResource),
    }
}

/// The sub-record of a `res` line with the text `text`.
pub open spec fn spec_resource(parent_id: u32, text: Seq<char>) -> Result<
    SubRecordView,
    PlaParseErrorKind,
> {
    spec_resource_block(parent_id, regex_captures(RESOURCE_PATTERN@, text))
}

/// The sub-record of the given kind that a command with the text `text`
/// gives to the entry `parent_id`.
pub open spec fn spec_sub_block(command: PlaCommand, parent_id: u32, text: Seq<char>) -> Result<
    SubRecordView,
    PlaParseErrorKind,
>
    recommends
        command.spec_is_sub_block(),
{
    match command {
        PlaCommand::START => spec_start(parent_id, text),
        PlaCommand::DURATION => spec_duration(parent_id, text),
        PlaCommand::DEPENDENCY => spec_dependency(parent_id, text),
        PlaCommand::CHILD => spec_child(parent_id, text),
        _ => spec_resource(parent_id, text),
    }
}

/// The sub-record of the given kind that a line gives: the line must have
/// an owner, and its text is read without the white space at its start.
pub open spec fn spec_line_block(command: PlaCommand, line: HeirarchicalPlaLineView) -> Result<
    SubRecordView,
    PlaParseErrorKind,
>
    recommends
        command.spec_is_sub_block(),
{
    match line.parent_id {
        None => Err(PlaParseErrorKind::OrphanCommand),
        Some(parent_id) => spec_sub_block(command, parent_id, spec_trim_start(line.text)),
    }
}

/// The sub-record that a line carries. Entry headers and lines with no
/// known command carry none.
pub open spec fn spec_sub_record(line: HeirarchicalPlaLineView) -> Result<
    Option<SubRecordView>,
    PlaParseErrorKind,
> {
    if line.command.spec_is_sub_block() {
        match spec_line_block(line.command, line) {
            Ok(record) => Ok(Some(record)),
            Err(kind) => Err(kind),
        }
    } else {
        Ok(None)
    }
}

impl PlaStartBlock {
    /// Builds the sub-record of a `start` line from what reading its date
    /// gave and from the piece that holds its hour, if it has one.
    pub fn from_date(parent_id: u32, date: Option<PlaDate>, hour: Option<&str>) -> (block: Result<
        PlaStartBlock,
        PlaParseError,
    >)
        ensures
            reports(block, spec_start_block(parent_id, date, hour.deep_view())),
    {
        match date {
            None => Err(PlaParseError::new(PlaParseErrorKind::InvalidDate)),
            Some(date) => match hour {
                None => Ok(PlaStartBlock { parent_id, date, hour: 0 }),
                Some(hour) => match parse_u32(hour) {
                    Some(hour) => Ok(PlaStartBlock { parent_id, date, hour }),
                    None => Err(PlaParseError::new(PlaParseErrorKind::InvalidHour)),
                },
            },
        }
    }
}

impl PlaResourceBlock {
    /// Builds the sub-record of a `res` line from what matching the pattern
    /// against the line gave.
    pub fn from_captures(parent_id: u32, captures: &Option<Vec<Option<String>>>) -> (block: Result<
        PlaResourceBlock,
        PlaParseError,
    >)
        ensures
            reports(block, spec_resource_block(parent_id, captures.deep_view())),
    {
        match group(captures, 2) {
            Some(name) => Ok(PlaResourceBlock { parent_id, resource_name: String::from_str(name) }),
            None => Err(PlaParseError::new(PlaParseErrorKind::InvalidResource)),
        }
    }
}

// The conversions from text and from lines can end in an error that owns
// its message, and some give a sub-record that owns its name. No ghost value
// equals an owned string, so each conversion states its result in its own
// `ensures`, over the views, and claims nothing through `try_from_spec`.

impl<'a> TryFromSpecImpl<(u32, &'a str)> for PlaStartBlock {
    open spec fn obeys_try_from_spec() -> bool {
        false
    }

    open spec fn try_from_spec(value: (u32, &'a str)) -> Result<Self, PlaParseError> {
        arbitrary()
    }
}

impl<'a> TryFrom<(u32, &'a str)> for PlaStartBlock {
    type Error = PlaParseError;

    /// Reads the text of a `start` line: the date, then the hour if there
    /// is one.
    fn try_from(value: (u32, &'a str)) -> (block: Result<Self, PlaParseError>)
        ensures
            reports(block, spec_start(value.0, value.1@)),
            block matches Ok(start) ==> start.date.wf(),
    {
        let (parent_id, text) = value;
        let tokens = split(text, ' ');
        if tokens.len() < 2 {
            return Err(PlaParseError::new(PlaParseErrorKind::InvalidDate));
        }
        let date = parse_naive_date(tokens[1].as_str(), DATE_FORMAT);
        let hour = if tokens.len() < 3 {
            None
        } else {
            Some(tokens[2].as_str())
        };
        PlaStartBlock::from_date(parent_id, date, hour)
    }
}

impl<'a> TryFromSpecImpl<(u32, &'a str)> for PlaDurationBlock {
    open spec fn obeys_try_from_spec() -> bool {
        false
    }

    open spec fn try_from_spec(value: (u32, &'a str)) -> Result<Self, PlaParseError> {
        arbitrary()
    }
}

impl<'a> TryFrom<(u32, &'a str)> for PlaDurationBlock {
    type Error = PlaParseError;

    /// Reads the text of a `duration` line.
    fn try_from(value: (u32, &'a str)) -> (block: Result<Self, PlaParseError>)
        ensures
            reports(block, spec_duration(value.0, value.1@)),
    {
        let (parent_id, text) = value;
        match number_argument(text) {
            Some(duration) => Ok(PlaDurationBlock { parent_id, duration }),
            None => Err(PlaParseError::new(PlaParseErrorKind::InvalidDuration)),
        }
    }
}

impl<'a> TryFromSpecImpl<(u32, &'a str)> for PlaDependencyBlock {
    open spec fn obeys_try_from_spec() -> bool {
        false
    }

    open spec fn try_from_spec(value: (u32, &'a str)) -> Result<Self, PlaParseError> {
        arbitrary()
    }
}

impl<'a> TryFrom<(u32, &'a str)> for PlaDependencyBlock {
    type Error = PlaParseError;

    /// Reads the text of a `dep` line.
    fn try_from(value: (u32, &'a str)) -> (block: Result<Self, PlaParseError>)
        ensures
            reports(block, spec_dependency(value.0, value.1@)),
    {
        let (parent_id, text) = value;
        match number_argument(text) {
            Some(dependency_id) => Ok(PlaDependencyBlock { parent_id, dependency_id }),
            None => Err(PlaParseError::new(PlaParseErrorKind::InvalidDependency)),
        }
    }
}

impl<'a> TryFromSpecImpl<(u32, &'a str)> for PlaChildBlock {
    open spec fn obeys_try_from_spec() -> bool {
        false
    }

    open spec fn try_from_spec(value: (u32, &'a str)) -> Result<Self, PlaParseError> {
        arbitrary()
    }
}

impl<'a> TryFrom<(u32, &'a str)> for PlaChildBlock {
    type Error = PlaParseError;

    /// Reads the text of a `child` line.
    fn try_from(value: (u32, &'a str)) -> (block: Result<Self, PlaParseError>)
        ensures
            reports(block, spec_child(value.0, value.1@)),
    {
        let (parent_id, text) = value;
        match number_argument(text) {
            Some(child_id) => Ok(PlaChildBlock { parent_id, child_id }),
            None => Err(PlaParseError::new(PlaParseErrorKind::InvalidChild)),
        }
    }
}

impl<'a> TryFromSpecImpl<(u32, &'a str)> for PlaResourceBlock {
    open spec fn obeys_try_from_spec() -> bool {
        false
    }

    open spec fn try_from_spec(value: (u32, &'a str)) -> Result<Self, PlaParseError> {
        arbitrary()
    }
}

impl<'a> TryFrom<(u32, &'a str)> for PlaResourceBlock {
    type Error = PlaParseError;

    /// Reads the text of a `res` line.
    fn try_from(value: (u32, &'a str)) -> (block: Result<Self, PlaParseError>)
        ensures
            reports(block, spec_resource(value.0, value.1@)),
    {
        let (parent_id, text) = value;
        let found = captures(RESOURCE_PATTERN, text);
        PlaResourceBlock::from_captures(parent_id, &found)
    }
}

impl<'a> TryFromSpecImpl<&'a HeirarchicalPlaLine> for PlaStartBlock {
    open spec fn obeys_try_from_spec() -> bool {
        false
    }

    open spec fn try_from_spec(value: &'a HeirarchicalPlaLine) -> Result<Self, PlaParseError> {
        arbitrary()
    }
}

impl<'a> TryFrom<&'a HeirarchicalPlaLine> for PlaStartBlock {
    type Error = PlaParseError;

    /// Reads a line as a `start` line of the entry that owns it.
    fn try_from(value: &'a HeirarchicalPlaLine) -> (block: Result<Self, PlaParseError>)
        ensures
            reports(block, spec_line_block(PlaCommand::START, value@)),
            block matches Ok(start) ==> start.date.wf(),
    {
        match value.parent_id {
            Some(parent_id) => PlaStartBlock::try_from((parent_id, trim_start(value.text.as_str()))),
            None => Err(PlaParseError::new(PlaParseErrorKind::OrphanCommand)),
        }
    }
}

impl<'a> TryFromSpecImpl<&'a HeirarchicalPlaLine> for PlaDurationBlock {
    open spec fn obeys_try_from_spec() -> bool {
        false
    }

    open spec fn try_from_spec(value: &'a HeirarchicalPlaLine) -> Result<Self, PlaParseError> {
        arbitrary()
    }
}

impl<'a> TryFrom<&'a HeirarchicalPlaLine> for PlaDurationBlock {
    type Error = PlaParseError;

    /// Reads a line as a `duration` line of the entry that owns it.
    fn try_from(value: &'a HeirarchicalPlaLine) -> (block: Result<Self, PlaParseError>)
        ensures
            reports(block, spec_line_block(PlaCommand::DURATION, value@)),
    {
        match value.parent_id {
            Some(parent_id) => PlaDurationBlock::try_from(
                (parent_id, trim_start(value.text.as_str())),
            ),
            None => Err(PlaParseError::new(PlaParseErrorKind::OrphanCommand)),
        }
    }
}

impl<'a> TryFromSpecImpl<&'a HeirarchicalPlaLine> for PlaDependencyBlock {
    open spec fn obeys_try_from_spec() -> bool {
        false
    }

    open spec fn try_from_spec(value: &'a HeirarchicalPlaLine) -> Result<Self, PlaParseError> {
        arbitrary()
    }
}

impl<'a> TryFrom<&'a HeirarchicalPlaLine> for PlaDependencyBlock {
    type Error = PlaParseError;

    /// Reads a line as a `dep` line of the entry that owns it.
    fn try_from(value: &'a HeirarchicalPlaLine) -> (block: Result<Self, PlaParseError>)
        ensures
            reports(block, spec_line_block(PlaCommand::DEPENDENCY, value@)),
    {
        match value.parent_id {
            Some(parent_id) => PlaDependencyBlock::try_from(
                (parent_id, trim_start(value.text.as_str())),
            ),
            None => Err(PlaParseError::new(PlaParseErrorKind::OrphanCommand)),
        }
    }
}

impl<'a> TryFromSpecImpl<&'a HeirarchicalPlaLine> for PlaChildBlock {
    open spec fn obeys_try_from_spec() -> bool {
        false
    }

    open spec fn try_from_spec(value: &'a HeirarchicalPlaLine) -> Result<Self, PlaParseError> {
        arbitrary()
    }
}

impl<'a> TryFrom<&'a HeirarchicalPlaLine> for PlaChildBlock {
    type Error = PlaParseError;

    /// Reads a line as a `child` line of the entry that owns it.
    fn try_from(value: &'a HeirarchicalPlaLine) -> (block: Result<Self, PlaParseError>)
        ensures
            reports(block, spec_line_block(PlaCommand::CHILD, value@)),
    {
        match value.parent_id {
            Some(parent_id) => PlaChildBlock::try_from((parent_id, trim_start(value.text.as_str()))),
            None => Err(PlaParseError::new(PlaParseErrorKind::OrphanCommand)),
        }
    }
}

impl<'a> TryFromSpecImpl<&'a HeirarchicalPlaLine> for PlaResourceBlock {
    open spec fn obeys_try_from_spec() -> bool {
        false
    }

    open spec fn try_from_spec(value: &'a HeirarchicalPlaLine) -> Result<Self, PlaParseError> {
        arbitrary()
    }
}

impl<'a> TryFrom<&'a HeirarchicalPlaLine> for PlaResourceBlock {
    type Error = PlaParseError;

    /// Reads a line as a `res` line of the entry that owns it.
    fn try_from(value: &'a HeirarchicalPlaLine) -> (block: Result<Self, PlaParseError>)
        ensures
            reports(block, spec_line_block(PlaCommand::RESOURCE, value@)),
    {
        match value.parent_id {
            Some(parent_id) => PlaResourceBlock::try_from(
                (parent_id, trim_start(value.text.as_str())),
            ),
            None => Err(PlaParseError::new(PlaParseErrorKind::OrphanCommand)),
        }
    }
}

impl<'a> TryFromSpecImpl<&'a SubRecord> for PlaStartBlock {
    open spec fn obeys_try_from_spec() -> bool {
        true
    }

    open spec fn try_from_spec(value: &'a SubRecord) -> Result<Self, PlaSubBlockConversionError> {
        match *value {
            SubRecord::Start(block) => Ok(block),
            _ => Err(PlaSubBlockConversionError { initial_type: PlaCommand::START }),
        }
    }
}

impl<'a> TryFrom<&'a SubRecord> for PlaStartBlock {
    type Error = PlaSubBlockConversionError;

    /// The `start` sub-record that `value` holds, if it holds one.
    fn try_from(value: &'a SubRecord) -> (block: Result<Self, PlaSubBlockConversionError>) {
        match value {
            SubRecord::Start(block) => Ok(*block),
            _ => Err(PlaSubBlockConversionError { initial_type: PlaCommand::START }),
        }
    }
}

impl<'a> TryFromSpecImpl<&'a SubRecord> for PlaDurationBlock {
    open spec fn obeys_try_from_spec() -> bool {
        true
    }

    open spec fn try_from_spec(value: &'a SubRecord) -> Result<Self, PlaSubBlockConversionError> {
        match *value {
            SubRecord::Duration(block) => Ok(block),
            _ => Err(PlaSubBlockConversionError { initial_type: PlaCommand::DURATION }),
        }
    }
}

impl<'a> TryFrom<&'a SubRecord> for PlaDurationBlock {
    type Error = PlaSubBlockConversionError;

    /// The `duration` sub-record that `value` holds, if it holds one.
    fn try_from(value: &'a SubRecord) -> (block: Result<Self, PlaSubBlockConversionError>) {
        match value {
            SubRecord::Duration(block) => Ok(*block),
            _ => Err(PlaSubBlockConversionError { initial_type: PlaCommand::DURATION }),
        }
    }
}

impl<'a> TryFromSpecImpl<&'a SubRecord> for PlaDependencyBlock {
    open spec fn obeys_try_from_spec() -> bool {
        true
    }

    open spec fn try_from_spec(value: &'a SubRecord) -> Result<Self, PlaSubBlockConversionError> {
        match *value {
            SubRecord::Dependency(block) => Ok(block),
            _ => Err(PlaSubBlockConversionError { initial_type: PlaCommand::DEPENDENCY }),
        }
    }
}

impl<'a> TryFrom<&'a SubRecord> for PlaDependencyBlock {
    type Error = PlaSubBlockConversionError;

    /// The `dep` sub-record that `value` holds, if it holds one.
    fn try_from(value: &'a SubRecord) -> (block: Result<Self, PlaSubBlockConversionError>) {
        match value {
            SubRecord::Dependency(block) => Ok(*block),
            _ => Err(PlaSubBlockConversionError { initial_type: PlaCommand::DEPENDENCY }),
        }
    }
}

impl<'a> TryFromSpecImpl<&'a SubRecord> for PlaChildBlock {
    open spec fn obeys_try_from_spec() -> bool {
        true
    }

    open spec fn try_from_spec(value: &'a SubRecord) -> Result<Self, PlaSubBlockConversionError> {
        match *value {
            SubRecord::Child(block) => Ok(block),
            _ => Err(PlaSubBlockConversionError { initial_type: PlaCommand::CHILD }),
        }
    }
}

impl<'a> TryFrom<&'a SubRecord> for PlaChildBlock {
    type Error = PlaSubBlockConversionError;

    /// The `child` sub-record that `value` holds, if it holds one.
    fn try_from(value: &'a SubRecord) -> (block: Result<Self, PlaSubBlockConversionError>) {
        match value {
            SubRecord::Child(block) => Ok(*block),
            _ => Err(PlaSubBlockConversionError { initial_type: PlaCommand::CHILD }),
        }
    }
}

impl<'a> TryFromSpecImpl<&'a SubRecord> for PlaResourceBlock {
    open spec fn obeys_try_from_spec() -> bool {
        true
    }

    open spec fn try_from_spec(value: &'a SubRecord) -> Result<Self, PlaSubBlockConversionError> {
        match *value {
            SubRecord::Resource(block) => Ok(block),
            _ => Err(PlaSubBlockConversionError { initial_type: PlaCommand::RESOURCE }),
        }
    }
}

impl<'a> TryFrom<&'a SubRecord> for PlaResourceBlock {
    type Error = PlaSubBlockConversionError;

    /// A copy of the `res` sub-record that `value` holds, if it holds one.
    fn try_from(value: &'a SubRecord) -> (block: Result<Self, PlaSubBlockConversionError>) {
        match value {
            SubRecord::Resource(block) => Ok(block.clone()),
            _ => Err(PlaSubBlockConversionError { initial_type: PlaCommand::RESOURCE }),
        }
    }
}

impl SubRecord {
    /// Reads the sub-record that a line carries, by the command of the
    /// line. Entry headers and lines with no known command carry none.
    pub fn from_line(line: &HeirarchicalPlaLine) -> (record: Result<Option<SubRecord>, PlaParseError>)
        ensures
            reports(record, spec_sub_record(line@)),
            record matches Ok(Some(found)) ==> found@.wf(),
    {
        match line.command {
            PlaCommand::START => match PlaStartBlock::try_from(line) {
                Ok(block) => Ok(Some(SubRecord::Start(block))),
                Err(error) => Err(error),
            },
            PlaCommand::DURATION => match PlaDurationBlock::try_from(line) {
                Ok(block) => Ok(Some(SubRecord::Duration(block))),
                Err(error) => Err(error),
            },
            PlaCommand::DEPENDENCY => match PlaDependencyBlock::try_from(line) {
                Ok(block) => Ok(Some(SubRecord::Dependency(block))),
                Err(error) => Err(error),
            },
            PlaCommand::CHILD => match PlaChildBlock::try_from(line) {
                Ok(block) => Ok(Some(SubRecord::Child(block))),
                Err(error) => Err(error),
            },
            PlaCommand::RESOURCE => match PlaResourceBlock::try_from(line) {
                Ok(block) => Ok(Some(SubRecord::Resource(block))),
                Err(error) => Err(error),
            },
            PlaCommand::ENTRY | PlaCommand::UNKNOWN => Ok(None),
        }
    }
}

} // verus!
