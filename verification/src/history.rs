//! Conversion records and the history they are kept in.
//!
//! A record holds the two unit labels and the two values of one conversion.
//! The history is the sequence of records, oldest first. The library never
//! looks into a value, so a record is generic in the type `V` of its values:
//! a number where records are made and stored, a text where they are shown.

use crate::error::{ErrorKind, ErrorView};
use crate::text::{numbered, numbered_lines, texts};
use crate::units::Unit;
use vstd::prelude::*;
use vstd::string::StringExecFns;

verus! {

/// The record of one conversion.
#[derive(Debug, PartialEq)]
pub struct ConvHist<V> {
    pub from_unit: String,
    pub from_value: V,
    pub to_unit: String,
    pub to_value: V,
}

/// The heading of the shown history.
pub open spec fn history_heading() -> Seq<char> {
    "Riwayat Konversi:"@
}

/// The line shown in place of the records when the history holds none.
pub open spec fn no_history() -> Seq<char> {
    "Belum ada riwayat konversi."@
}

/// The text of a record whose values are already written out: the first
/// value and its unit, an equals sign, the second value and its unit.
pub open spec fn record_text(record: ConvHist<String>) -> Seq<char> {
    record.from_value@ + " "@ + record.from_unit@ + " = "@ + record.to_value@ + " "@
        + record.to_unit@
}

/// The texts of the records of a history, in order.
pub open spec fn record_texts(histories: Seq<ConvHist<String>>) -> Seq<Seq<char>> {
    Seq::new(histories.len(), |i: int| record_text(histories[i]))
}

/// The lines that show a history: the heading, then the records as a
/// numbered list, or a single line saying that there are none.
pub open spec fn history_lines(histories: Seq<ConvHist<String>>) -> Seq<Seq<char>> {
    if histories.len() == 0 {
        seq![history_heading(), no_history()]
    } else {
        seq![history_heading()] + numbered_lines(record_texts(histories))
    }
}

impl<V> ConvHist<V> {
    /// The record of a conversion of `from_value`, in `from_unit`, into
    /// `to_value`, in `to_unit`. There is no record of a conversion between
    /// units of different families.
    pub fn new(from_unit: &Unit, to_unit: &Unit, from_value: V, to_value: V) -> (record: Result<
        ConvHist<V>,
        ErrorKind,
    >)
        ensures
            if from_unit.spec_family() == to_unit.spec_family() {
                record matches Ok(r) && r.from_unit@ == from_unit.label() && r.from_value
                    == from_value && r.to_unit@ == to_unit.label() && r.to_value == to_value
            } else {
                record matches Err(e) && e@ == ErrorView::IncompatibleUnits(*from_unit, *to_unit)
            },
    {
        if from_unit.family() == to_unit.family() {
            Ok(
                ConvHist {
                    from_unit: from_unit.as_unit(),
                    from_value,
                    to_unit: to_unit.as_unit(),
                    to_value,
                },
            )
        } else {
            Err(ErrorKind::IncompatibleUnits(*from_unit, *to_unit))
        }
    }
}

impl ConvHist<String> {
    /// The text of this record.
    pub fn to_string(&self) -> (text: String)
        ensures
            text@ == record_text(*self),
    {
        self.from_value.clone().concat(" ").concat(self.from_unit.as_str()).concat(" = ").concat(
            self.to_value.as_str(),
        ).concat(" ").concat(self.to_unit.as_str())
    }
}

/// Appends a record to a history. The records already there keep their
/// places, and the new one comes last.
pub fn add_conversion<V>(histories: &mut Vec<ConvHist<V>>, record: ConvHist<V>)
    ensures
        final(histories)@ == old(histories)@.push(record),
{
    histories.push(record);
}

/// A history after it was cleared: whatever it held, it holds no record.
pub open spec fn cleared<V>(histories: Seq<ConvHist<V>>) -> Seq<ConvHist<V>> {
    Seq::empty()
}

/// The history that takes the place of the stored one when the history is
/// cleared. It holds no record, whatever the store held.
pub fn clear_hist<V>() -> (histories: Vec<ConvHist<V>>)
    ensures
        histories@ == Seq::<ConvHist<V>>::empty(),
        forall|held: Seq<ConvHist<V>>| histories@ == #[trigger] cleared(held),
{
    Vec::new()
}

/// The lines that show a history whose values are written out.
pub fn show_hist(histories: &Vec<ConvHist<String>>) -> (lines: Vec<String>)
    ensures
        texts(lines@) == history_lines(histories@),
{
    let mut lines: Vec<String> = Vec::new();
    lines.push(String::from_str("Riwayat Konversi:"));
    if histories.len() == 0 {
        lines.push(String::from_str("Belum ada riwayat konversi."));
        assert(texts(lines@) =~= history_lines(histories@));
        lines
    } else {
        let mut records: Vec<String> = Vec::new();
        let mut index: usize = 0;
        while index < histories.len()
            invariant
                index <= histories.len(),
                records.len() == index,
                forall|i: int| 0 <= i < index ==> (#[trigger] records[i])@ == record_text(histories[i]),
            decreases histories.len() - index,
        {
            records.push(histories[index].to_string());
            index = index + 1;
        }
        assert(texts(records@) =~= record_texts(histories@));
        let mut list = numbered(&records);
        let ghost heading = lines@;
        let ghost listed = list@;
        lines.append(&mut list);
        assert(lines@ == heading + listed);
        assert(texts(lines@) =~= history_lines(histories@));
        lines
    }
}

/// Clearing leaves nothing to show: after any number of records were added
/// to a history and the history was then emptied, it holds no record, and
/// showing it gives the heading and the line that says there is none.
pub proof fn lemma_clear_after_appends(
    before: Seq<ConvHist<String>>,
    added: Seq<ConvHist<String>>,
)
    ensures
        cleared(before + added).len() == 0,
        history_lines(cleared(before + added)) == seq![history_heading(), no_history()],
{
}

/// Appending keeps what was there: after a record is added, the history is
/// one longer, the earlier records stand where they stood, and the new one
/// is the last.
pub proof fn lemma_append_keeps_order<V>(histories: Seq<ConvHist<V>>, record: ConvHist<V>)
    ensures
        histories.push(record).len() == histories.len() + 1,
        histories.push(record).last() == record,
        forall|i: int| 0 <= i < histories.len() ==> histories.push(record)[i] == histories[i],
{
}

} // verus!
