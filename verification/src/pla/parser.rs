//! Lines, the hierarchy among them, and the parser over a whole file.

use std::collections::HashMap;
use vstd::prelude::*;
use crate::pla::command::PlaCommand;
use crate::pla::entry::{PlaEntry, PlaEntryView};
use crate::pla::error::{reports, PlaParseError, PlaParseErrorKind};
use crate::pla::pattern::{captures, group, regex_captures, spec_group};
use crate::pla::sub_blocks::{spec_sub_record, PlaSubBlock, SubRecord, SubRecordView};
use crate::pla::text::{
    first_token, lines, parse_u32, spec_first_token, spec_lines, spec_parse_u32, spec_trim, trim,
};

verus! {

/// One line of a file that holds something: what it is about, and its text
/// without the white space at either end.
#[derive(Debug)]
pub struct PlaLine {
    pub command: PlaCommand,
    pub text: String,
}

/// A `PlaLine`, its text as a sequence of characters.
pub struct PlaLineView {
    pub command: PlaCommand,
    pub text: Seq<char>,
}

impl View for PlaLine {
    type V = PlaLineView;

    open spec fn view(&self) -> PlaLineView {
        PlaLineView { command: self.command, text: self.text@ }
    }
}

impl DeepView for PlaLine {
    type V = PlaLineView;

    open spec fn deep_view(&self) -> PlaLineView {
        self@
    }
}

/// A line together with the entry that owns it: the number of the entry
/// header that came last before the line. An entry header owns itself and
/// has no parent.
#[derive(Debug)]
pub struct HeirarchicalPlaLine {
    pub command: PlaCommand,
    pub text: String,
    pub parent_id: Option<u32>,
}

/// A `HeirarchicalPlaLine`, its text as a sequence of characters.
pub struct HeirarchicalPlaLineView {
    pub command: PlaCommand,
    pub text: Seq<char>,
    pub parent_id: Option<u32>,
}

impl View for HeirarchicalPlaLine {
    type V = HeirarchicalPlaLineView;

    open spec fn view(&self) -> HeirarchicalPlaLineView {
        HeirarchicalPlaLineView {
            command: self.command,
            text: self.text@,
            parent_id: self.parent_id,
        }
    }
}

impl DeepView for HeirarchicalPlaLine {
    type V = HeirarchicalPlaLineView;

    open spec fn deep_view(&self) -> HeirarchicalPlaLineView {
        self@
    }
}

/// The pattern of an entry header: a number in square brackets at the
/// start of the line, white space, and the description.
pub const ENTRY_PATTERN: &'static str = "^\\[(\\d*)\\](\\s)*(.*)";

/// What a line is about, given its text without the white space at either
/// end and what matching the pattern of an entry header against that text
/// gave: an entry where the pattern matched, else the command that the first
/// word of the line stands for.
pub open spec fn spec_line_command(
    text: Seq<char>,
    header: Option<Seq<Option<Seq<char>>>>,
) -> PlaCommand {
    if header is Some {
        PlaCommand::ENTRY
    } else {
        PlaCommand::spec_from_word(spec_first_token(text))
    }
}

/// The line that a piece of a file gives: none where the piece holds white
/// space only.
pub open spec fn spec_parse_line(line: Seq<char>) -> Option<PlaLineView> {
    let text = spec_trim(line);
    if text.len() == 0 {
        None
    } else {
        Some(
            PlaLineView {
                command: spec_line_command(text, regex_captures(ENTRY_PATTERN@, text)),
                text,
            },
        )
    }
}

/// `spec_parse_line` as a function value.
pub open spec fn line_parser() -> spec_fn(Seq<char>) -> Option<PlaLineView> {
    |line: Seq<char>| spec_parse_line(line)
}

/// The lines that the pieces of a file give, blank pieces left out.
pub open spec fn spec_parse_pla_lines(lines: Seq<Seq<char>>) -> Seq<PlaLineView> {
    lines.filter_map(line_parser())
}

/// The number of an entry, given what matching the pattern of an entry
/// header gave: the first capture group, read as a number.
pub open spec fn spec_id_of(header: Option<Seq<Option<Seq<char>>>>) -> Option<u32> {
    match spec_group(header, 1) {
        Some(digits) => spec_parse_u32(digits),
        None => None,
    }
}

/// The number that a text has as an entry header, if it is one and the
/// number fits.
pub open spec fn spec_entry_id(text: Seq<char>) -> Option<u32> {
    spec_id_of(regex_captures(ENTRY_PATTERN@, text))
}

/// The number and the description of an entry, given what matching the
/// pattern of an entry header gave. The description is the third capture
/// group, and empty where that group is absent.
pub open spec fn spec_entry_header(header: Option<Seq<Option<Seq<char>>>>) -> Result<
    (u32, Seq<char>),
    PlaParseErrorKind,
> {
    match spec_id_of(header) {
        Some(id) => Ok(
            (
                id,
                match spec_group(header, 3) {
                    Some(description) => description,
                    None => Seq::empty(),
                },
            ),
        ),
        None => Err(PlaParseErrorKind::MalformedId),
    }
}

/// The number of the entry header that comes last in `lines`, if there is
/// an entry header and its number can be read.
pub open spec fn spec_current_parent(lines: Seq<PlaLineView>) -> Option<u32>
    decreases lines.len(),
{
    if lines.len() == 0 {
        None
    } else if lines.last().command == PlaCommand::ENTRY {
        spec_entry_id(lines.last().text)
    } else {
        spec_current_parent(lines.drop_last())
    }
}

/// The lines with their owners. Lines with no known command are left out
/// and change nothing. An entry header has no owner, and its number must be
/// readable. Every other line is owned by the entry header that comes last
/// before it, if there is one.
pub open spec fn spec_create_hierarchy(lines: Seq<PlaLineView>) -> Result<
    Seq<HeirarchicalPlaLineView>,
    PlaParseErrorKind,
>
    decreases lines.len(),
{
    if lines.len() == 0 {
        Ok(Seq::empty())
    } else {
        let line = lines.last();
        match spec_create_hierarchy(lines.drop_last()) {
            Err(kind) => Err(kind),
            Ok(before) => if line.command == PlaCommand::UNKNOWN {
                Ok(before)
            } else if line.command == PlaCommand::ENTRY {
                if spec_entry_id(line.text) is Some {
                    Ok(
                        before.push(
                            HeirarchicalPlaLineView {
                                command: line.command,
                                text: line.text,
                                parent_id: None,
                            },
                        ),
                    )
                } else {
                    Err(PlaParseErrorKind::MalformedId)
                }
            } else {
                Ok(
                    before.push(
                        HeirarchicalPlaLineView {
                            command: line.command,
                            text: line.text,
                            parent_id: spec_current_parent(lines.drop_last()),
                        },
                    ),
                )
            },
        }
    }
}

/// The sub-records that the lines carry, in the order of the lines. The
/// first line that fails decides the error.
pub open spec fn spec_sub_records(lines: Seq<HeirarchicalPlaLineView>) -> Result<
    Seq<SubRecordView>,
    PlaParseErrorKind,
>
    decreases lines.len(),
{
    if lines.len() == 0 {
        Ok(Seq::empty())
    } else {
        match spec_sub_records(lines.drop_last()) {
            Err(kind) => Err(kind),
            Ok(before) => match spec_sub_record(lines.last()) {
                Err(kind) => Err(kind),
                Ok(Some(record)) => Ok(before.push(record)),
                Ok(None) => Ok(before),
            },
        }
    }
}

/// The sub-records that the entry `id` owns.
pub open spec fn owned_by(id: u32) -> spec_fn(SubRecordView) -> bool {
    |record: SubRecordView| record.parent_id() == id
}

/// The sub-records among `records` that the entry `id` owns, in their
/// order; `None` where it owns none.
pub open spec fn spec_children(records: Seq<SubRecordView>, id: u32) -> Option<Seq<SubRecordView>> {
    let own = records.filter(owned_by(id));
    if own.len() == 0 {
        None
    } else {
        Some(own)
    }
}

/// The entry that a header line with the text `text` gives, with its
/// children from among `records`.
pub open spec fn spec_entry(text: Seq<char>, records: Seq<SubRecordView>) -> Result<
    PlaEntryView,
    PlaParseErrorKind,
> {
    match spec_entry_header(regex_captures(ENTRY_PATTERN@, text)) {
        Ok((id, description)) => Ok(
            PlaEntryView { id, description, children: spec_children(records, id) },
        ),
        Err(kind) => Err(kind),
    }
}

/// The entries that the header lines among `lines` give, in the order of
/// the lines, each with its children from among `records`.
pub open spec fn spec_entries(
    lines: Seq<HeirarchicalPlaLineView>,
    records: Seq<SubRecordView>,
) -> Result<Seq<PlaEntryView>, PlaParseErrorKind>
    decreases lines.len(),
{
    if lines.len() == 0 {
        Ok(Seq::empty())
    } else {
        match spec_entries(lines.drop_last(), records) {
            Err(kind) => Err(kind),
            Ok(before) => if lines.last().command == PlaCommand::ENTRY {
                match spec_entry(lines.last().text, records) {
                    Ok(entry) => Ok(before.push(entry)),
                    Err(kind) => Err(kind),
                }
            } else {
                Ok(before)
            },
        }
    }
}

/// The entries of a file that is given as its lines: the lines are
/// classified, then given their owners, then read as sub-records, and last
/// the entries are put together. The first stage that fails decides the
/// error, and within it the first line that fails.
pub open spec fn spec_parse_lines(lines: Seq<Seq<char>>) -> Result<
    Seq<PlaEntryView>,
    PlaParseErrorKind,
> {
    match spec_create_hierarchy(spec_parse_pla_lines(lines)) {
        Err(kind) => Err(kind),
        Ok(hierarchy) => match spec_sub_records(hierarchy) {
            Err(kind) => Err(kind),
            Ok(records) => spec_entries(hierarchy, records),
        },
    }
}

/// The entries of a file that is given as one text: its lines are the
/// pieces between line breaks, whether a line ends in a line feed, in a
/// carriage return or in both.
pub open spec fn spec_parse(text: Seq<char>) -> Result<Seq<PlaEntryView>, PlaParseErrorKind> {
    spec_parse_lines(spec_lines(text))
}

/// The last position in `entries` at which the entry has the number `id`.
pub open spec fn spec_last_position(entries: Seq<PlaEntryView>, id: u32) -> Option<int>
    decreases entries.len(),
{
    if entries.len() == 0 {
        None
    } else if entries.last().id == id {
        Some(entries.len() - 1)
    } else {
        spec_last_position(entries.drop_last(), id)
    }
}

/// The index of a list of entries: each number that occurs, with the last
/// position at which it occurs.
pub open spec fn spec_build_map(entries: Seq<PlaEntryView>) -> Map<u32, usize> {
    Map::new(
        |id: u32| spec_last_position(entries, id) is Some,
        |id: u32| spec_last_position(entries, id).unwrap() as usize,
    )
}

/// The entry that is found under the number `id`: the last one in the list
/// that has it.
pub open spec fn spec_get_entry_by_id(entries: Seq<PlaEntryView>, id: u32) -> Option<
    PlaEntryView,
> {
    match spec_last_position(entries, id) {
        Some(at) => Some(entries[at]),
        None => None,
    }
}

/// Whether every sub-record of the list is well-formed.
pub open spec fn all_records_wf(records: Seq<SubRecordView>) -> bool {
    forall|i: int| 0 <= i < records.len() ==> (#[trigger] records[i]).wf()
}

/// Whether every entry of the list is well-formed.
pub open spec fn all_entries_wf(entries: Seq<PlaEntryView>) -> bool {
    forall|i: int| 0 <= i < entries.len() ==> (#[trigger] entries[i]).wf()
}

/// Where the last position of a number is `at`, the entry there has the
/// number, and no later entry has it.
pub proof fn lemma_last_position(entries: Seq<PlaEntryView>, id: u32)
    ensures
        spec_last_position(entries, id) matches Some(at) ==> 0 <= at < entries.len()
            && entries[at].id == id && forall|j: int|
            at < j < entries.len() ==> (#[trigger] entries[j]).id != id,
        spec_last_position(entries, id) is None ==> forall|j: int|
            0 <= j < entries.len() ==> (#[trigger] entries[j]).id != id,
    decreases entries.len(),
{
    if entries.len() > 0 && entries.last().id != id {
        lemma_last_position(entries.drop_last(), id);
        assert forall|j: int| 0 <= j < entries.len() - 1 implies entries.drop_last()[j]
            == entries[j] by {}
    }
}

/// Once a prefix of the lines has failed to get its owners, the whole fails
/// in the same way.
pub proof fn lemma_hierarchy_error_stays(lines: Seq<PlaLineView>, upto: int)
    requires
        0 <= upto <= lines.len(),
        spec_create_hierarchy(lines.take(upto)) is Err,
    ensures
        spec_create_hierarchy(lines) == spec_create_hierarchy(lines.take(upto)),
    decreases lines.len(),
{
    if upto == lines.len() {
        assert(lines.take(upto) =~= lines);
    } else {
        assert(lines.drop_last().take(upto) =~= lines.take(upto));
        lemma_hierarchy_error_stays(lines.drop_last(), upto);
    }
}

/// Once a prefix of the lines has failed to give its sub-records, the whole
/// fails in the same way.
pub proof fn lemma_sub_records_error_stays(lines: Seq<HeirarchicalPlaLineView>, upto: int)
    requires
        0 <= upto <= lines.len(),
        spec_sub_records(lines.take(upto)) is Err,
    ensures
        spec_sub_records(lines) == spec_sub_records(lines.take(upto)),
    decreases lines.len(),
{
    if upto == lines.len() {
        assert(lines.take(upto) =~= lines);
    } else {
        assert(lines.drop_last().take(upto) =~= lines.take(upto));
        lemma_sub_records_error_stays(lines.drop_last(), upto);
    }
}

/// Once a prefix of the lines has failed to give its entries, the whole
/// fails in the same way.
pub proof fn lemma_entries_error_stays(
    lines: Seq<HeirarchicalPlaLineView>,
    records: Seq<SubRecordView>,
    upto: int,
)
    requires
        0 <= upto <= lines.len(),
        spec_entries(lines.take(upto), records) is Err,
    ensures
        spec_entries(lines, records) == spec_entries(lines.take(upto), records),
    decreases lines.len(),
{
    if upto == lines.len() {
        assert(lines.take(upto) =~= lines);
    } else {
        assert(lines.drop_last().take(upto) =~= lines.take(upto));
        lemma_entries_error_stays(lines.drop_last(), records, upto);
    }
}

impl PlaLine {
    /// Decides what a line is about from its text and from what matching
    /// the pattern of an entry header against the text gave.
    pub fn classify(text: &str, header: &Option<Vec<Option<String>>>) -> (command: PlaCommand)
        ensures
            command == spec_line_command(text@, header.deep_view()),
    {
        if header.is_some() {
            PlaCommand::ENTRY
        } else {
            match PlaCommand::from_str(first_token(text)) {
                Ok(command) => command,
                Err(_) => PlaCommand::UNKNOWN,
            }
        }
    }

    /// Reads one piece of a file as a line. A piece of white space only
    /// gives no line.
    pub fn parse_line(line: &str) -> (parsed: Option<PlaLine>)
        ensures
            parsed.deep_view() == spec_parse_line(line@),
    {
        let text = trim(line);
        if text.is_empty() {
            return None;
        }
        let header = captures(ENTRY_PATTERN, text);
        let command = PlaLine::classify(text, &header);
        Some(PlaLine { command, text: String::from_str(text) })
    }

    /// Reads the number of an entry from what matching the pattern of an
    /// entry header gave.
    pub fn id_of(header: &Option<Vec<Option<String>>>) -> (id: Option<u32>)
        ensures
            id == spec_id_of(header.deep_view()),
    {
        match group(header, 1) {
            Some(digits) => parse_u32(digits),
            None => None,
        }
    }

    /// The number that the line has as an entry header, if it is one and
    /// the number fits.
    pub fn get_id(&self) -> (id: Option<u32>)
        ensures
            id == spec_entry_id(self@.text),
    {
        let header = captures(ENTRY_PATTERN, self.text.as_str());
        PlaLine::id_of(&header)
    }
}

/// The entries of a file in the order of their headers, and an index from
/// the number of an entry to its place among them.
pub struct PlaParser {
    entries: Vec<PlaEntry>,
    // Each number that occurs among the entries, with the place of the last
    // entry that has it.
    id_map: HashMap<u32, usize>,
}

impl View for PlaParser {
    type V = Seq<PlaEntryView>;

    closed spec fn view(&self) -> Seq<PlaEntryView> {
        self.entries.deep_view()
    }
}

impl DeepView for PlaParser {
    type V = Seq<PlaEntryView>;

    open spec fn deep_view(&self) -> Seq<PlaEntryView> {
        self@
    }
}

impl PlaParser {
    #[verifier::type_invariant]
    spec fn index_is_built(&self) -> bool {
        self.id_map@ == spec_build_map(self.entries.deep_view()) && all_entries_wf(
            self.entries.deep_view(),
        )
    }

    /// The entries, in the order of their header lines.
    pub fn entries(&self) -> (entries: &Vec<PlaEntry>)
        ensures
            entries.deep_view() == self@,
            all_entries_wf(self@),
    {
        proof {
            use_type_invariant(self);
        }
        &self.entries
    }

    /// Classifies the pieces of a file and leaves the blank ones out.
    pub fn parse_pla_lines(lines: Vec<String>) -> (pla_lines: Vec<PlaLine>)
        ensures
            pla_lines.deep_view() == spec_parse_pla_lines(lines.deep_view()),
    {
        let mut pla_lines: Vec<PlaLine> = Vec::new();
        let mut at: usize = 0;
        while at < lines.len()
            invariant
                at <= lines.len(),
                pla_lines.deep_view() == spec_parse_pla_lines(lines.deep_view().take(at as int)),
            decreases lines.len() - at,
        {
            let parsed = PlaLine::parse_line(lines[at].as_str());
            proof {
                lines.deep_view().lemma_filter_map_take_succ(line_parser(), at as int);
            }
            if let Some(line) = parsed {
                pla_lines.push(line);
            }
            at += 1;
        }
        assert(lines.deep_view().take(at as int) =~= lines.deep_view());
        pla_lines
    }

    /// Gives each line its owner in one pass from the first line to the
    /// last. An entry header whose number cannot be read ends the pass with
    /// `MalformedId`.
    pub fn create_hierarchy(lines: &Vec<PlaLine>) -> (hierarchy: Result<
        Vec<HeirarchicalPlaLine>,
        PlaParseError,
    >)
        ensures
            reports(hierarchy, spec_create_hierarchy(lines.deep_view())),
    {
        let mut hierarchy: Vec<HeirarchicalPlaLine> = Vec::new();
        let mut current: Option<u32> = None;
        let mut at: usize = 0;
        assert(hierarchy.deep_view() =~= Seq::empty());
        while at < lines.len()
            invariant
                at <= lines.len(),
                spec_create_hierarchy(lines.deep_view().take(at as int)) == Ok::<
                    Seq<HeirarchicalPlaLineView>,
                    PlaParseErrorKind,
                >(hierarchy.deep_view()),
                current == spec_current_parent(lines.deep_view().take(at as int)),
            decreases lines.len() - at,
        {
            let line = &lines[at];
            let ghost before = hierarchy.deep_view();
            proof {
                let longer = lines.deep_view().take(at + 1);
                assert(longer.drop_last() =~= lines.deep_view().take(at as int));
            }
            match line.command {
                PlaCommand::UNKNOWN => {},
                PlaCommand::ENTRY => match line.get_id() {
                    Some(id) => {
                        current = Some(id);
                        hierarchy.push(
                            HeirarchicalPlaLine {
                                command: line.command,
                                text: line.text.clone(),
                                parent_id: None,
                            },
                        );
                    },
                    None => {
                        proof {
                            lemma_hierarchy_error_stays(lines.deep_view(), at + 1);
                        }
                        return Err(PlaParseError::new(PlaParseErrorKind::MalformedId));
                    },
                },
                _ => {
                    hierarchy.push(
                        HeirarchicalPlaLine {
                            command: line.command,
                            text: line.text.clone(),
                            parent_id: current,
                        },
                    );
                },
            }
            proof {
                if line.command != PlaCommand::UNKNOWN {
                    assert(hierarchy.deep_view() =~= before.push(hierarchy@.last()@));
                }
            }
            at += 1;
        }
        assert(lines.deep_view().take(at as int) =~= lines.deep_view());
        Ok(hierarchy)
    }

    /// Reads the sub-records that the lines carry, in the order of the
    /// lines. The first line that cannot be read ends the pass with its
    /// error.
    pub fn parse_sub_blocks(hierarchy: &Vec<HeirarchicalPlaLine>) -> (records: Result<
        Vec<SubRecord>,
        PlaParseError,
    >)
        ensures
            reports(records, spec_sub_records(hierarchy.deep_view())),
            records matches Ok(list) ==> all_records_wf(list.deep_view()),
    {
        let mut records: Vec<SubRecord> = Vec::new();
        let mut at: usize = 0;
        assert(records.deep_view() =~= Seq::empty());
        while at < hierarchy.len()
            invariant
                at <= hierarchy.len(),
                spec_sub_records(hierarchy.deep_view().take(at as int)) == Ok::<
                    Seq<SubRecordView>,
                    PlaParseErrorKind,
                >(records.deep_view()),
                all_records_wf(records.deep_view()),
            decreases hierarchy.len() - at,
        {
            let ghost before = records.deep_view();
            proof {
                let longer = hierarchy.deep_view().take(at + 1);
                assert(longer.drop_last() =~= hierarchy.deep_view().take(at as int));
            }
            match SubRecord::from_line(&hierarchy[at]) {
                Ok(Some(record)) => {
                    records.push(record);
                    assert(records.deep_view() =~= before.push(record@));
                },
                Ok(None) => {},
                Err(error) => {
                    proof {
                        lemma_sub_records_error_stays(hierarchy.deep_view(), at + 1);
                    }
                    return Err(error);
                },
            }
            at += 1;
        }
        assert(hierarchy.deep_view().take(at as int) =~= hierarchy.deep_view());
        Ok(records)
    }

    /// Copies of the sub-records that the entry `id` owns, in their order;
    /// `None` where it owns none.
    pub fn children_of(records: &Vec<SubRecord>, id: u32) -> (children: Option<Vec<SubRecord>>)
        ensures
            children.deep_view() == spec_children(records.deep_view(), id),
            all_records_wf(records.deep_view()) ==> (children matches Some(list)
                ==> all_records_wf(list.deep_view())),
    {
        let mut own: Vec<SubRecord> = Vec::new();
        let mut at: usize = 0;
        proof {
            reveal(Seq::filter);
        }
        while at < records.len()
            invariant
                at <= records.len(),
                own.deep_view() == records.deep_view().take(at as int).filter(owned_by(id)),
                all_records_wf(records.deep_view()) ==> all_records_wf(own.deep_view()),
            decreases records.len() - at,
        {
            let ghost before = own.deep_view();
            proof {
                let shorter = records.deep_view().take(at as int);
                assert(records.deep_view().take(at + 1) =~= shorter.push(records@[at as int]@));
                shorter.lemma_filter_push(records@[at as int]@, owned_by(id));
            }
            if records[at].get_parent_id() == id {
                own.push(records[at].clone());
                assert(own.deep_view() =~= before.push(records@[at as int]@));
                assert(records.deep_view()[at as int] == records@[at as int]@);
            }
            at += 1;
        }
        assert(records.deep_view().take(at as int) =~= records.deep_view());
        if own.len() == 0 {
            None
        } else {
            Some(own)
        }
    }

    /// Reads the number and the description of an entry from what matching
    /// the pattern of an entry header gave.
    pub fn entry_header(header: &Option<Vec<Option<String>>>) -> (parts: Result<
        (u32, String),
        PlaParseError,
    >)
        ensures
            reports(parts, spec_entry_header(header.deep_view())),
    {
        match PlaLine::id_of(header) {
            Some(id) => {
                let description = match group(header, 3) {
                    Some(description) => String::from_str(description),
                    None => String::new(),
                };
                Ok((id, description))
            },
            None => Err(PlaParseError::new(PlaParseErrorKind::MalformedId)),
        }
    }

    /// Puts the entries together: one for each header line, in the order of
    /// the lines, with the sub-records that carry its number.
    pub fn assemble_entries(hierarchy: &Vec<HeirarchicalPlaLine>, records: &Vec<SubRecord>) -> (entries:
        Result<Vec<PlaEntry>, PlaParseError>)
        ensures
            reports(entries, spec_entries(hierarchy.deep_view(), records.deep_view())),
            all_records_wf(records.deep_view()) ==> (entries matches Ok(list) ==> all_entries_wf(
                list.deep_view(),
            )),
    {
        let mut entries: Vec<PlaEntry> = Vec::new();
        let mut at: usize = 0;
        assert(entries.deep_view() =~= Seq::empty());
        while at < hierarchy.len()
            invariant
                at <= hierarchy.len(),
                spec_entries(hierarchy.deep_view().take(at as int), records.deep_view()) == Ok::<
                    Seq<PlaEntryView>,
                    PlaParseErrorKind,
                >(entries.deep_view()),
                all_records_wf(records.deep_view()) ==> all_entries_wf(entries.deep_view()),
            decreases hierarchy.len() - at,
        {
            let line = &hierarchy[at];
            let ghost before = entries.deep_view();
            proof {
                let longer = hierarchy.deep_view().take(at + 1);
                assert(longer.drop_last() =~= hierarchy.deep_view().take(at as int));
            }
            if line.command == PlaCommand::ENTRY {
                let header = captures(ENTRY_PATTERN, line.text.as_str());
                match PlaParser::entry_header(&header) {
                    Ok((id, description)) => {
                        let children = PlaParser::children_of(records, id);
                        let entry = PlaEntry { id, description, children };
                        proof {
                            records.deep_view().lemma_filter_len(owned_by(id));
                        }
                        entries.push(entry);
                        assert(entries.deep_view() =~= before.push(entries@.last()@));
                    },
                    Err(error) => {
                        proof {
                            lemma_entries_error_stays(
                                hierarchy.deep_view(),
                                records.deep_view(),
                                at + 1,
                            );
                        }
                        return Err(error);
                    },
                }
            }
            at += 1;
        }
        assert(hierarchy.deep_view().take(at as int) =~= hierarchy.deep_view());
        Ok(entries)
    }

    /// Builds the index of a list of entries. Where two entries have one
    /// number, the later one is found under it.
    pub fn build_map(entries: &Vec<PlaEntry>) -> (map: HashMap<u32, usize>)
        ensures
            map@ == spec_build_map(entries.deep_view()),
    {
        broadcast use vstd::std_specs::hash::group_hash_axioms;

        let mut map: HashMap<u32, usize> = HashMap::new();
        let mut at: usize = 0;
        while at < entries.len()
            invariant
                at <= entries.len(),
                map@ == spec_build_map(entries.deep_view().take(at as int)),
            decreases entries.len() - at,
        {
            proof {
                let longer = entries.deep_view().take(at + 1);
                assert(longer.drop_last() =~= entries.deep_view().take(at as int));
            }
            map.insert(entries[at].id, at);
            at += 1;
        }
        assert(entries.deep_view().take(at as int) =~= entries.deep_view());
        map
    }

    /// Reads a file that is given as its lines.
    pub fn parse_lines(lines: Vec<String>) -> (parser: Result<PlaParser, PlaParseError>)
        ensures
            reports(parser, spec_parse_lines(lines.deep_view())),
            parser matches Ok(parsed) ==> all_entries_wf(parsed@),
    {
        let pla_lines = PlaParser::parse_pla_lines(lines);
        let hierarchy = match PlaParser::create_hierarchy(&pla_lines) {
            Ok(hierarchy) => hierarchy,
            Err(error) => return Err(error),
        };
        let records = match PlaParser::parse_sub_blocks(&hierarchy) {
            Ok(records) => records,
            Err(error) => return Err(error),
        };
        let entries = match PlaParser::assemble_entries(&hierarchy, &records) {
            Ok(entries) => entries,
            Err(error) => return Err(error),
        };
        let id_map = PlaParser::build_map(&entries);
        Ok(PlaParser { entries, id_map })
    }

    /// Reads a file that is given as one text. Its lines are the pieces
    /// between line breaks, whether a line ends in a line feed, in a
    /// carriage return or in both.
    pub fn parse(text: &str) -> (parser: Result<PlaParser, PlaParseError>)
        ensures
            reports(parser, spec_parse(text@)),
            parser matches Ok(parsed) ==> all_entries_wf(parsed@),
    {
        PlaParser::parse_lines(lines(text))
    }

    /// A copy of the entry that is found under the number `id`: the last
    /// entry of the list that has it. A number that no entry has finds
    /// nothing.
    pub fn get_entry_by_id(&self, id: u32) -> (found: Option<PlaEntry>)
        ensures
            found.deep_view() == spec_get_entry_by_id(self@, id),
            found matches Some(entry) ==> entry@.wf(),
    {
        broadcast use vstd::std_specs::hash::group_hash_axioms;

        proof {
            use_type_invariant(self);
            lemma_last_position(self.entries.deep_view(), id);
        }
        match self.id_map.get(&id) {
            Some(at) => {
                assert(spec_last_position(self@, id) == Some(*at as int)) by {
                    assert(0 <= spec_last_position(self@, id).unwrap() < self.entries.len());
                }
                Some(self.entries[*at].clone())
            },
            None => None,
        }
    }
}

} // verus!
