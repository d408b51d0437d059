//! Entries: the numbered blocks of a file, each with its sub-records.

use vstd::prelude::*;
use vstd::std_specs::cmp::PartialEqSpecImpl;
use crate::pla::sub_blocks::{SubRecord, SubRecordView};

verus! {

/// One entry of a file: its number, the text behind the number, and the
/// sub-records that belong to it, in the order of their lines. An entry
/// without sub-records has `None` for them, never an empty list.
#[derive(Debug)]
pub struct PlaEntry {
    pub id: u32,
    pub description: String,
    pub children: Option<Vec<SubRecord>>,
}

/// An entry as a mathematical value.
pub struct PlaEntryView {
    pub id: u32,
    pub description: Seq<char>,
    pub children: Option<Seq<SubRecordView>>,
}

impl PlaEntryView {
    /// Whether the entry is of a shape that reading a file gives: a list of
    /// children is never empty, and each child is well-formed.
    pub open spec fn wf(self) -> bool {
        self.children matches Some(children) ==> children.len() > 0 && forall|i: int|
            0 <= i < children.len() ==> (#[trigger] children[i]).wf()
    }
}

impl View for PlaEntry {
    type V = PlaEntryView;

    open spec fn view(&self) -> PlaEntryView {
        PlaEntryView {
            id: self.id,
            description: self.description@,
            children: self.children.deep_view(),
        }
    }
}

impl DeepView for PlaEntry {
    type V = PlaEntryView;

    open spec fn deep_view(&self) -> PlaEntryView {
        self@
    }
}

impl PlaEntry {
    /// Whether any sub-record belongs to the entry.
    pub fn has_children(&self) -> (yes: bool)
        ensures
            yes == (self@.children is Some),
    {
        self.children.is_some()
    }
}

impl Clone for PlaEntry {
    /// A copy that shares nothing with the entry and equals it in every
    /// part, its sub-records included.
    fn clone(&self) -> (copy: Self)
        ensures
            copy@ == self@,
    {
        let children = match &self.children {
            Some(list) => {
                let mut copies: Vec<SubRecord> = Vec::new();
                let mut at: usize = 0;
                while at < list.len()
                    invariant
                        at <= list.len(),
                        copies@ == list@.take(at as int),
                    decreases list.len() - at,
                {
                    copies.push(list[at].clone());
                    at += 1;
                }
                assert(list@.take(at as int) =~= list@);
                Some(copies)
            },
            None => None,
        };
        PlaEntry { id: self.id, description: self.description.clone(), children }
    }
}

impl PartialEq for PlaEntry {
    /// Two entries are equal where their numbers and their descriptions
    /// are: their sub-records are not compared.
    fn eq(&self, other: &Self) -> (equal: bool) {
        self.id == other.id && self.description == other.description
    }
}

impl PartialEqSpecImpl for PlaEntry {
    open spec fn obeys_eq_spec() -> bool {
        true
    }

    open spec fn eq_spec(&self, other: &Self) -> bool {
        self.id == other.id && self.description@ == other.description@
    }
}

} // verus!
