//! What holds of every file and of every list of entries.

use vstd::prelude::*;
use crate::pla::command::PlaCommand;
use crate::pla::date::naive_date_from_str;
use crate::pla::entry::PlaEntryView;
use crate::pla::error::PlaParseErrorKind;
use crate::pla::parser::{
    lemma_last_position, lemma_sub_records_error_stays, owned_by, spec_build_map, spec_children,
    spec_create_hierarchy, spec_current_parent, spec_entries, spec_entry, spec_entry_id,
    spec_get_entry_by_id, spec_last_position, spec_parse, spec_parse_line, spec_parse_lines,
    spec_parse_pla_lines, spec_sub_records, HeirarchicalPlaLineView, PlaLineView,
};
use crate::pla::sub_blocks::{spec_start, spec_sub_record, SubRecordView, DATE_FORMAT};
use crate::pla::text::{
    blank, lemma_prefix_len_bounds, lemma_suffix_len_bounds, neither, non_blank, prefix_len,
    spec_first_token, spec_lines, spec_split, spec_split_either, spec_trim, spec_trim_start,
    suffix_len, white_space,
};

verus! {

/// A `start` line with a date and nothing after it is read exactly where
/// its date is, and then starts at midnight.
pub proof fn lemma_start_without_hour_is_midnight(parent_id: u32, text: Seq<char>)
    requires
        spec_split(text, ' ').len() == 2,
    ensures
        spec_start(parent_id, text) is Ok <==> naive_date_from_str(
            spec_split(text, ' ')[1],
            DATE_FORMAT@,
        ) is Some,
        spec_start(parent_id, text) matches Ok(record) ==> record matches SubRecordView::Start {
            hour,
            ..
        } && hour == 0,
{
}

/// A `start` line with nothing after the command word has no date.
pub proof fn lemma_start_without_date_is_invalid(parent_id: u32, text: Seq<char>)
    requires
        spec_split(text, ' ').len() < 2,
    ensures
        spec_start(parent_id, text) == Err::<SubRecordView, PlaParseErrorKind>(
            PlaParseErrorKind::InvalidDate,
        ),
{
}

/// A number that no entry has finds nothing, and only such a number does.
/// A number that some entry has finds the last entry of the list that has
/// it, whole.
pub proof fn lemma_lookup_finds_the_last(entries: Seq<PlaEntryView>, id: u32)
    ensures
        spec_get_entry_by_id(entries, id) is None <==> forall|i: int|
            0 <= i < entries.len() ==> (#[trigger] entries[i]).id != id,
        spec_get_entry_by_id(entries, id) matches Some(found) ==> found.id == id && (
        spec_last_position(entries, id) matches Some(at) && 0 <= at < entries.len() && entries[at]
            == found && forall|j: int| at < j < entries.len() ==> (#[trigger] entries[j]).id != id),
{
    lemma_last_position(entries, id);
}

/// The index holds one place under each number that occurs, the entry at
/// that place has the number, and no two numbers share a place.
pub proof fn lemma_index_is_one_to_one(entries: Seq<PlaEntryView>, first: u32, second: u32)
    requires
        entries.len() <= usize::MAX,
        spec_build_map(entries).contains_key(first),
        spec_build_map(entries).contains_key(second),
    ensures
        0 <= spec_build_map(entries)[first] < entries.len(),
        entries[spec_build_map(entries)[first] as int].id == first,
        spec_build_map(entries)[first] == spec_build_map(entries)[second] ==> first == second,
{
    lemma_last_position(entries, first);
    lemma_last_position(entries, second);
}

/// Reading one text twice gives the same entries in the same order: what
/// reading gives depends on the text alone.
pub proof fn lemma_reading_twice_agrees(
    text: Seq<char>,
    first: Seq<PlaEntryView>,
    second: Seq<PlaEntryView>,
)
    requires
        spec_parse(text) == Ok::<Seq<PlaEntryView>, PlaParseErrorKind>(first),
        spec_parse(text) == Ok::<Seq<PlaEntryView>, PlaParseErrorKind>(second),
    ensures
        first.len() == second.len(),
        forall|i: int|
            0 <= i < first.len() ==> (#[trigger] first[i]).id == second[i].id
                && first[i].description == second[i].description,
{
}

/// Whether a piece of a file gives nothing to read: it is blank, or its
/// first word is no known command and it is no entry header.
pub open spec fn says_nothing(line: Seq<char>) -> bool {
    match spec_parse_line(line) {
        None => true,
        Some(parsed) => parsed.command == PlaCommand::UNKNOWN,
    }
}

/// Lines that give nothing to read leave no line with an owner.
proof fn lemma_unknown_lines_leave_no_hierarchy(lines: Seq<Seq<char>>)
    requires
        forall|i: int| 0 <= i < lines.len() ==> says_nothing(#[trigger] lines[i]),
    ensures
        spec_create_hierarchy(spec_parse_pla_lines(lines)) == Ok::<
            Seq<HeirarchicalPlaLineView>,
            PlaParseErrorKind,
        >(Seq::empty()),
    decreases lines.len(),
{
    if lines.len() > 0 {
        let before = lines.drop_last();
        lemma_unknown_lines_leave_no_hierarchy(before);
        if spec_parse_line(lines.last()) is Some {
            assert(spec_parse_pla_lines(lines).drop_last() =~= spec_parse_pla_lines(before));
        }
    }
}

/// A file of blank lines and of lines with no known command is read
/// without an error, and has no entries.
pub proof fn lemma_unknown_lines_give_no_entries(lines: Seq<Seq<char>>)
    requires
        forall|i: int| 0 <= i < lines.len() ==> says_nothing(#[trigger] lines[i]),
    ensures
        spec_parse_lines(lines) == Ok::<Seq<PlaEntryView>, PlaParseErrorKind>(Seq::empty()),
{
    lemma_unknown_lines_leave_no_hierarchy(lines);
}

/// The same of a file that is given as one text.
pub proof fn lemma_unknown_text_gives_no_entries(text: Seq<char>)
    requires
        forall|i: int|
            0 <= i < spec_lines(text).len() ==> says_nothing(#[trigger] spec_lines(text)[i]),
    ensures
        spec_parse(text) == Ok::<Seq<PlaEntryView>, PlaParseErrorKind>(Seq::empty()),
{
    lemma_unknown_lines_give_no_entries(spec_lines(text));
}

/// The sub-records of an entry all carry its number, each is one of the
/// sub-records of the file, and they are never an empty list. An entry has
/// none exactly where no sub-record carries its number.
pub proof fn lemma_children_carry_the_number(records: Seq<SubRecordView>, id: u32)
    ensures
        spec_children(records, id) is None <==> forall|i: int|
            0 <= i < records.len() ==> (#[trigger] records[i]).parent_id() != id,
        spec_children(records, id) matches Some(own) ==> own.len() > 0 && forall|j: int|
            0 <= j < own.len() ==> (#[trigger] own[j]).parent_id() == id && records.contains(
                own[j],
            ),
{
    let own = records.filter(owned_by(id));
    assert forall|j: int| 0 <= j < own.len() implies (#[trigger] own[j]).parent_id() == id
        && records.contains(own[j]) by {
        records.lemma_filter_pred(owned_by(id), j);
        records.lemma_filter_contains_rev(owned_by(id), own[j]);
    }
    if own.len() == 0 {
        assert forall|i: int| 0 <= i < records.len() implies (#[trigger] records[i]).parent_id()
            != id by {
            if records[i].parent_id() == id {
                records.lemma_filter_contains(owned_by(id), i);
            }
        }
    } else {
        assert(records.contains(own[0]));
    }
}

/// Where the lines have an owner, it is the number of the entry header
/// that comes last among them: none comes after it.
pub proof fn lemma_owner_is_the_last_header(lines: Seq<PlaLineView>) -> (at: int)
    requires
        spec_current_parent(lines) is Some,
    ensures
        0 <= at < lines.len(),
        lines[at].command == PlaCommand::ENTRY,
        spec_entry_id(lines[at].text) == spec_current_parent(lines),
        forall|j: int| at < j < lines.len() ==> (#[trigger] lines[j]).command != PlaCommand::ENTRY,
    decreases lines.len(),
{
    if lines.last().command == PlaCommand::ENTRY {
        lines.len() - 1
    } else {
        let at = lemma_owner_is_the_last_header(lines.drop_last());
        assert forall|j: int| at < j < lines.len() implies (#[trigger] lines[j]).command
            != PlaCommand::ENTRY by {
            if j < lines.len() - 1 {
                assert(lines.drop_last()[j] == lines[j]);
            }
        }
        at
    }
}

/// Lines without an entry header have no owner.
pub proof fn lemma_no_header_no_owner(lines: Seq<PlaLineView>)
    requires
        forall|i: int| 0 <= i < lines.len() ==> (#[trigger] lines[i]).command != PlaCommand::ENTRY,
    ensures
        spec_current_parent(lines) is None,
    decreases lines.len(),
{
    if lines.len() > 0 {
        lemma_no_header_no_owner(lines.drop_last());
    }
}

/// Line `at` as it stands among the lines with their owners: an entry
/// header owns itself, every other line is owned by the header that comes
/// last before it.
pub open spec fn spec_with_owner(lines: Seq<PlaLineView>, at: int) -> HeirarchicalPlaLineView {
    HeirarchicalPlaLineView {
        command: lines[at].command,
        text: lines[at].text,
        parent_id: if lines[at].command == PlaCommand::ENTRY {
            None
        } else {
            spec_current_parent(lines.take(at))
        },
    }
}

/// Every line as it stands among the lines with their owners.
pub open spec fn spec_all_with_owner(lines: Seq<PlaLineView>) -> Seq<HeirarchicalPlaLineView> {
    Seq::new(lines.len(), |at: int| spec_with_owner(lines, at))
}

/// The lines whose command is known.
pub open spec fn is_known() -> spec_fn(HeirarchicalPlaLineView) -> bool {
    |line: HeirarchicalPlaLineView| line.command != PlaCommand::UNKNOWN
}

/// Where the lines get their owners, what comes out is the lines whose
/// command is known, in their order, each with the number of the entry
/// header that came last before it.
pub proof fn lemma_hierarchy_is_the_known_lines(lines: Seq<PlaLineView>)
    requires
        spec_create_hierarchy(lines) is Ok,
    ensures
        spec_create_hierarchy(lines).unwrap() == spec_all_with_owner(lines).filter(is_known()),
    decreases lines.len(),
{
    reveal(Seq::filter);
    if lines.len() > 0 {
        let before = lines.drop_last();
        let last = lines.len() - 1;
        lemma_hierarchy_is_the_known_lines(before);
        assert forall|at: int| 0 <= at < before.len() implies spec_with_owner(before, at)
            == spec_with_owner(lines, at) by {
            assert(before.take(at) =~= lines.take(at));
        }
        assert(lines.take(last) =~= before);
        assert(spec_all_with_owner(lines) =~= spec_all_with_owner(before).push(
            spec_with_owner(lines, last),
        ));
        spec_all_with_owner(before).lemma_filter_push(spec_with_owner(lines, last), is_known());
    }
}

/// Whether the number of every entry header among the lines can be read.
pub open spec fn headers_are_readable(lines: Seq<PlaLineView>) -> bool {
    forall|i: int|
        0 <= i < lines.len() && (#[trigger] lines[i]).command == PlaCommand::ENTRY
            ==> spec_entry_id(lines[i].text) is Some
}

/// Whether every command line among the lines has an owner and can be read
/// as a sub-record of it.
pub open spec fn commands_are_readable(lines: Seq<PlaLineView>) -> bool {
    forall|i: int| 0 <= i < lines.len() ==> spec_sub_record(#[trigger] spec_with_owner(lines, i)) is Ok
}

/// Whether a file holds no error: every header has a number that can be
/// read, and every command line can be read as a sub-record of its owner.
pub open spec fn well_formed(lines: Seq<PlaLineView>) -> bool {
    headers_are_readable(lines) && commands_are_readable(lines)
}

/// The lines get their owners exactly where the number of every entry
/// header can be read, and fail in no other way than with `MalformedId`.
pub proof fn lemma_hierarchy_succeeds(lines: Seq<PlaLineView>)
    ensures
        spec_create_hierarchy(lines) is Ok <==> headers_are_readable(lines),
        spec_create_hierarchy(lines) matches Err(kind) ==> kind == PlaParseErrorKind::MalformedId,
    decreases lines.len(),
{
    if lines.len() > 0 {
        let before = lines.drop_last();
        lemma_hierarchy_succeeds(before);
        assert forall|i: int| 0 <= i < before.len() implies before[i] == lines[i] by {}
    }
}

/// Among lines that got their owners, the sub-records are read exactly
/// where every command line can be read as a sub-record of its owner.
pub proof fn lemma_sub_records_succeed(lines: Seq<PlaLineView>)
    requires
        spec_create_hierarchy(lines) is Ok,
    ensures
        spec_sub_records(spec_create_hierarchy(lines).unwrap()) is Ok <==> commands_are_readable(
            lines,
        ),
    decreases lines.len(),
{
    if lines.len() > 0 {
        let before = lines.drop_last();
        let last = lines.len() - 1;
        let line = lines.last();
        let hierarchy = spec_create_hierarchy(lines).unwrap();
        let shorter = spec_create_hierarchy(before).unwrap();
        lemma_sub_records_succeed(before);
        assert forall|i: int| 0 <= i < before.len() implies spec_with_owner(before, i)
            == spec_with_owner(lines, i) by {
            assert(before.take(i) =~= lines.take(i));
        }
        if line.command != PlaCommand::UNKNOWN {
            assert(hierarchy.drop_last() =~= shorter);
            assert(hierarchy.last() == spec_with_owner(lines, last));
        }
    }
}

/// The number of every entry header among lines that got their owners can
/// be read.
pub proof fn lemma_owned_headers_are_readable(lines: Seq<PlaLineView>)
    requires
        spec_create_hierarchy(lines) is Ok,
    ensures
        forall|i: int|
            0 <= i < spec_create_hierarchy(lines).unwrap().len() && (
            #[trigger] spec_create_hierarchy(lines).unwrap()[i]).command == PlaCommand::ENTRY
                ==> spec_entry_id(spec_create_hierarchy(lines).unwrap()[i].text) is Some,
    decreases lines.len(),
{
    if lines.len() > 0 {
        lemma_owned_headers_are_readable(lines.drop_last());
    }
}

/// Entries are put together without an error from lines whose entry
/// headers all have a number that can be read.
pub proof fn lemma_entries_succeed(
    hierarchy: Seq<HeirarchicalPlaLineView>,
    records: Seq<SubRecordView>,
)
    requires
        forall|i: int|
            0 <= i < hierarchy.len() && (#[trigger] hierarchy[i]).command == PlaCommand::ENTRY
                ==> spec_entry_id(hierarchy[i].text) is Some,
    ensures
        spec_entries(hierarchy, records) is Ok,
    decreases hierarchy.len(),
{
    if hierarchy.len() > 0 {
        lemma_entries_succeed(hierarchy.drop_last(), records);
    }
}

/// A file is read without an error exactly where it is well-formed. Where
/// the number of some entry header cannot be read, the error is
/// `MalformedId`, whatever else the file holds.
pub proof fn lemma_well_formed_files_are_read(lines: Seq<Seq<char>>)
    ensures
        spec_parse_lines(lines) is Ok <==> well_formed(spec_parse_pla_lines(lines)),
        !headers_are_readable(spec_parse_pla_lines(lines)) ==> spec_parse_lines(lines) == Err::<
            Seq<PlaEntryView>,
            PlaParseErrorKind,
        >(PlaParseErrorKind::MalformedId),
{
    let classified = spec_parse_pla_lines(lines);
    lemma_hierarchy_succeeds(classified);
    if spec_create_hierarchy(classified) is Ok {
        let hierarchy = spec_create_hierarchy(classified).unwrap();
        lemma_sub_records_succeed(classified);
        lemma_owned_headers_are_readable(classified);
        if spec_sub_records(hierarchy) is Ok {
            lemma_entries_succeed(hierarchy, spec_sub_records(hierarchy).unwrap());
        }
    }
}

/// Among the lines with their owners, the first that cannot be read as a
/// sub-record decides the error.
pub proof fn lemma_first_failure_decides(lines: Seq<HeirarchicalPlaLineView>, at: int)
    requires
        0 <= at < lines.len(),
        spec_sub_records(lines.take(at)) is Ok,
        spec_sub_record(lines[at]) is Err,
    ensures
        spec_sub_records(lines) matches Err(kind) && spec_sub_record(lines[at]) matches Err(first)
            && kind == first,
{
    assert(lines.take(at + 1).drop_last() =~= lines.take(at));
    lemma_sub_records_error_stays(lines, at + 1);
}

/// The texts of the entry headers among the lines, in their order.
pub open spec fn spec_header_texts(lines: Seq<PlaLineView>) -> Seq<Seq<char>>
    decreases lines.len(),
{
    if lines.len() == 0 {
        Seq::empty()
    } else if lines.last().command == PlaCommand::ENTRY {
        spec_header_texts(lines.drop_last()).push(lines.last().text)
    } else {
        spec_header_texts(lines.drop_last())
    }
}

/// The texts of the entry headers among lines with owners, in their order.
pub open spec fn spec_owned_header_texts(lines: Seq<HeirarchicalPlaLineView>) -> Seq<Seq<char>>
    decreases lines.len(),
{
    if lines.len() == 0 {
        Seq::empty()
    } else if lines.last().command == PlaCommand::ENTRY {
        spec_owned_header_texts(lines.drop_last()).push(lines.last().text)
    } else {
        spec_owned_header_texts(lines.drop_last())
    }
}

/// Giving the lines their owners keeps the entry headers, and their order.
pub proof fn lemma_hierarchy_keeps_the_headers(lines: Seq<PlaLineView>)
    requires
        spec_create_hierarchy(lines) is Ok,
    ensures
        spec_owned_header_texts(spec_create_hierarchy(lines).unwrap()) == spec_header_texts(lines),
    decreases lines.len(),
{
    if lines.len() > 0 {
        let before = lines.drop_last();
        let hierarchy = spec_create_hierarchy(lines).unwrap();
        let shorter = spec_create_hierarchy(before).unwrap();
        lemma_hierarchy_keeps_the_headers(before);
        if lines.last().command != PlaCommand::UNKNOWN {
            assert(hierarchy.drop_last() =~= shorter);
        }
    }
}

/// There is one entry for each entry header, in the order of the headers,
/// and it is the entry that the text of its header gives.
pub proof fn lemma_one_entry_for_each_header(
    hierarchy: Seq<HeirarchicalPlaLineView>,
    records: Seq<SubRecordView>,
)
    requires
        spec_entries(hierarchy, records) is Ok,
    ensures
        spec_entries(hierarchy, records).unwrap().len() == spec_owned_header_texts(hierarchy).len(),
        forall|k: int|
            0 <= k < spec_owned_header_texts(hierarchy).len() ==> spec_entry(
                #[trigger] spec_owned_header_texts(hierarchy)[k],
                records,
            ) == Ok::<PlaEntryView, PlaParseErrorKind>(spec_entries(hierarchy, records).unwrap()[k]),
    decreases hierarchy.len(),
{
    if hierarchy.len() > 0 {
        lemma_one_entry_for_each_header(hierarchy.drop_last(), records);
    }
}

/// Of a file that is read without an error: there is one entry for each
/// entry header, in the order of the headers; the number of each entry is
/// the number between the brackets of its header; and its children are the
/// sub-records of the file that carry its number.
pub proof fn lemma_entries_are_the_headers(lines: Seq<Seq<char>>)
    requires
        spec_parse_lines(lines) is Ok,
    ensures
        spec_parse_lines(lines).unwrap().len() == spec_header_texts(
            spec_parse_pla_lines(lines),
        ).len(),
        forall|k: int|
            0 <= k < spec_parse_lines(lines).unwrap().len() ==> spec_entry_id(
                spec_header_texts(spec_parse_pla_lines(lines))[k],
            ) == Some((#[trigger] spec_parse_lines(lines).unwrap()[k]).id) && spec_parse_lines(
                lines,
            ).unwrap()[k].children == spec_children(
                spec_sub_records(
                    spec_create_hierarchy(spec_parse_pla_lines(lines)).unwrap(),
                ).unwrap(),
                spec_parse_lines(lines).unwrap()[k].id,
            ),
{
    let classified = spec_parse_pla_lines(lines);
    let hierarchy = spec_create_hierarchy(classified).unwrap();
    lemma_hierarchy_keeps_the_headers(classified);
    lemma_one_entry_for_each_header(hierarchy, spec_sub_records(hierarchy).unwrap());
}

/// Every entry of a file that is read without an error is of the shape
/// that an entry has: where it has children, the list is not empty, and
/// each child carries the number of the entry.
pub proof fn lemma_children_of_entries_carry_their_number(lines: Seq<Seq<char>>, k: int)
    requires
        spec_parse_lines(lines) is Ok,
        0 <= k < spec_parse_lines(lines).unwrap().len(),
    ensures
        spec_parse_lines(lines).unwrap()[k].children matches Some(children) ==> children.len() > 0
            && forall|j: int|
            0 <= j < children.len() ==> (#[trigger] children[j]).parent_id() == spec_parse_lines(
                lines,
            ).unwrap()[k].id,
{
    lemma_entries_are_the_headers(lines);
    let entry = spec_parse_lines(lines).unwrap()[k];
    let records = spec_sub_records(
        spec_create_hierarchy(spec_parse_pla_lines(lines)).unwrap(),
    ).unwrap();
    lemma_children_carry_the_number(records, entry.id);
}

/// A trimmed text is a part of the text, and neither starts nor ends in
/// white space.
pub proof fn lemma_trimmed_text_has_bare_ends(s: Seq<char>)
    ensures
        exists|from: int, to: int|
            0 <= from <= to <= s.len() && spec_trim(s) == #[trigger] s.subrange(from, to),
        spec_trim(s).len() > 0 ==> !white_space(spec_trim(s).first()) && !white_space(
            spec_trim(s).last(),
        ),
{
    let front = spec_trim_start(s);
    let from = prefix_len(s, blank()) as int;
    lemma_prefix_len_bounds(s, blank());
    lemma_suffix_len_bounds(front, blank());
    let to = s.len() - suffix_len(front, blank());
    assert(spec_trim(s) =~= s.subrange(from, to));
}

/// The first token of a text holds no white space, and the text goes on
/// with white space behind it or ends with it.
pub proof fn lemma_first_token_is_one_word(s: Seq<char>)
    ensures
        spec_first_token(s).len() <= s.len(),
        forall|j: int|
            0 <= j < spec_first_token(s).len() ==> !white_space(#[trigger] spec_first_token(s)[j]),
        spec_first_token(s).len() < s.len() ==> white_space(s[spec_first_token(s).len() as int]),
{
    lemma_prefix_len_bounds(s, non_blank());
}

/// Splitting gives at least one piece, and no piece holds a separator.
pub proof fn lemma_pieces_hold_no_separator(s: Seq<char>, a: char, b: char)
    ensures
        spec_split_either(s, a, b).len() >= 1,
        forall|k: int|
            0 <= k < spec_split_either(s, a, b).len() ==> !(#[trigger] spec_split_either(
                s,
                a,
                b,
            )[k]).contains(a) && !spec_split_either(s, a, b)[k].contains(b),
    decreases s.len(),
{
    let i = prefix_len(s, neither(a, b)) as int;
    lemma_prefix_len_bounds(s, neither(a, b));
    let first = s.take(i);
    assert(!first.contains(a) && !first.contains(b));
    if i < s.len() {
        lemma_pieces_hold_no_separator(s.skip(i + 1), a, b);
    }
}

} // verus!
