//! What the two transports share: turning a batch of events into records,
//! and the outcomes of handing a record to a stream.

use vstd::prelude::*;
use crate::sdl_event::{is_one_line, SdlEvent};

verus! {

/// How writing one record to a stream, and flushing it, ended.
#[derive(Clone, Copy, Debug, PartialEq, Eq, Structural)]
pub enum WriteOutcome {
    /// The stream took this many bytes and the flush succeeded.
    Written(usize),
    /// The write failed.
    WriteFailed,
    /// The write succeeded and the flush failed.
    FlushFailed,
}

/// The text of the error in a result, if it is one.
pub open spec fn error_text<T>(result: Result<T, String>) -> Option<Seq<char>> {
    match result {
        Ok(_) => None,
        Err(message) => Some(message@),
    }
}

/// The records of a batch of events: one per event, in the same order.
pub open spec fn records_of(events: Seq<SdlEvent>) -> Seq<Seq<char>> {
    Seq::new(events.len(), |i: int| events[i].record_text())
}

/// The texts of a vector of records.
pub open spec fn texts_of(records: Seq<String>) -> Seq<Seq<char>> {
    Seq::new(records.len(), |i: int| records[i]@)
}

/// Whether every text is one line.
pub open spec fn all_one_line(texts: Seq<Seq<char>>) -> bool {
    forall|i: int| 0 <= i < texts.len() ==> is_one_line(#[trigger] texts[i])
}

/// Serialises each event of a batch to its record, keeping the order.
pub fn serialize_all(events: &Vec<SdlEvent>) -> (records: Vec<String>)
    ensures
        texts_of(records@) == records_of(events@),
        all_one_line(texts_of(records@)),
{
    let mut records: Vec<String> = Vec::new();
    let mut i: usize = 0;
    while i < events.len()
        invariant
            i <= events.len(),
            records@.len() == i,
            forall|k: int| 0 <= k < i ==> (#[trigger] records@[k])@ == events@[k].record_text(),
            forall|k: int| 0 <= k < i ==> is_one_line((#[trigger] records@[k])@),
        decreases events.len() - i,
    {
        let record = events[i].to_record();
        records.push(record);
        i = i + 1;
    }
    assert(texts_of(records@) =~= records_of(events@));
    records
}

} // verus!
