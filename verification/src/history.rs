//! The roll history: the most recent rolls, oldest first, never more than
//! fifty of them.

use vstd::prelude::*;

verus! {

/// How many rolls the history keeps.
pub const HISTORY_LIMIT: usize = 50;

/// One roll as it is remembered.
#[derive(Debug, Clone, Copy, PartialEq, Eq)]
pub struct RollRecord {
    /// The four dice, each from 1 to 6.
    pub dice: [u8; 4],
    /// Their sum.
    pub sum: u8,
    /// Whether the sum marked a cell.
    pub matched: bool,
    /// When the roll was made, in microseconds.
    pub timestamp_micros: u64,
    /// The fee paid for the roll, in atto-units.
    pub fee_paid_atto: u128,
    /// Whether the sum marked more than one cell.
    pub is_lucky: bool,
}

/// The most recent records of `records`: all of them, or the last fifty.
pub open spec fn spec_keep_recent(records: Seq<RollRecord>) -> Seq<RollRecord> {
    if records.len() <= HISTORY_LIMIT {
        records
    } else {
        records.subrange(records.len() - HISTORY_LIMIT, records.len() as int)
    }
}

/// The history after `record` is appended and the oldest records beyond the
/// limit are dropped.
pub open spec fn spec_push_record(history: Seq<RollRecord>, record: RollRecord) -> Seq<RollRecord> {
    spec_keep_recent(history.push(record))
}

/// The history after each of `records` is appended in turn.
pub open spec fn spec_push_all(history: Seq<RollRecord>, records: Seq<RollRecord>) -> Seq<
    RollRecord,
>
    decreases records.len(),
{
    if records.len() == 0 {
        history
    } else {
        spec_push_record(spec_push_all(history, records.drop_last()), records.last())
    }
}

/// Appends a record and drops the oldest records until at most fifty remain.
pub fn push_record(history: &mut Vec<RollRecord>, record: RollRecord)
    ensures
        final(history)@ == spec_push_record(old(history)@, record),
        final(history)@.len() <= HISTORY_LIMIT,
        final(history)@.last() == record,
{
    history.push(record);
    let ghost pushed = history@;
    while history.len() > 50
        invariant
            history@.len() <= pushed.len(),
            history@.len() >= HISTORY_LIMIT || history@.len() == pushed.len(),
            pushed == old(history)@.push(record),
            history@ == pushed.subrange(pushed.len() - history@.len(), pushed.len() as int),
        decreases history@.len(),
    {
        history.remove(0);
        assert(history@ =~= pushed.subrange(pushed.len() - history@.len(), pushed.len() as int));
    }
    assert(pushed.subrange(0, pushed.len() as int) =~= pushed);
}

/// Keeping the recent records of a history and then appending is the same as
/// appending first.
pub proof fn lemma_keep_recent_absorbs(records: Seq<RollRecord>, record: RollRecord)
    ensures
        spec_keep_recent(spec_keep_recent(records).push(record)) == spec_keep_recent(
            records.push(record),
        ),
{
    assert(spec_keep_recent(spec_keep_recent(records).push(record)) =~= spec_keep_recent(
        records.push(record),
    ));
}

/// The history bound: however many rolls are recorded, the history holds the
/// most recent fifty of all that it was given, in their order, and no more.
pub proof fn lemma_history_holds_most_recent(history: Seq<RollRecord>, records: Seq<RollRecord>)
    ensures
        spec_push_all(spec_keep_recent(history), records) == spec_keep_recent(history + records),
        spec_push_all(spec_keep_recent(history), records).len() <= HISTORY_LIMIT,
    decreases records.len(),
{
    if records.len() == 0 {
        assert(history + records =~= history);
    } else {
        let earlier = records.drop_last();
        lemma_history_holds_most_recent(history, earlier);
        lemma_keep_recent_absorbs(history + earlier, records.last());
        assert((history + earlier).push(records.last()) =~= history + records);
    }
}

/// From an empty history: after `n` rolls it holds all of them while `n` is
/// at most fifty, and after that the last fifty.
pub proof fn lemma_history_from_empty(records: Seq<RollRecord>)
    ensures
        spec_push_all(Seq::empty(), records) == spec_keep_recent(records),
        records.len() <= HISTORY_LIMIT ==> spec_push_all(Seq::empty(), records) == records,
        records.len() > HISTORY_LIMIT ==> spec_push_all(Seq::empty(), records)
            == records.subrange(records.len() - HISTORY_LIMIT, records.len() as int),
{
    let nothing = Seq::<RollRecord>::empty();
    lemma_history_holds_most_recent(nothing, records);
    assert(nothing + records =~= records);
}

impl Default for RollRecord {
    /// A record with every field zero or false.
    fn default() -> (record: RollRecord)
        ensures
            record.dice@ == seq![0u8, 0u8, 0u8, 0u8],
            record.sum == 0,
            !record.matched,
            record.timestamp_micros == 0,
            record.fee_paid_atto == 0,
            !record.is_lucky,
    {
        RollRecord {
            dice: [0u8; 4],
            sum: 0,
            matched: false,
            timestamp_micros: 0,
            fee_paid_atto: 0,
            is_lucky: false,
        }
    }
}

} // verus!
