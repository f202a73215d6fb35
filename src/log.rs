//! The append-only log of message records.
use vstd::prelude::*;

use crate::account::AccountId;

verus! {

/// One stored message.
#[derive(Debug)]
pub struct MessageRecord {
    /// The text payload.
    pub content: String,
    /// The intended recipient.
    pub to: AccountId,
    /// The sender: the authenticated caller at send time.
    pub from: AccountId,
    /// Reserved correlation tag; every record written by the store holds 0.
    pub dataid: u128,
    /// Reserved time tag; every record written by the store holds 0.
    pub timestamp: u128,
}

/// The mathematical value of a [`MessageRecord`].
pub struct RecordView {
    pub content: Seq<char>,
    pub to: Seq<u8>,
    pub from: Seq<u8>,
    pub dataid: u128,
    pub timestamp: u128,
}

impl View for MessageRecord {
    type V = RecordView;

    open spec fn view(&self) -> RecordView {
        RecordView {
            content: self.content@,
            to: self.to@,
            from: self.from@,
            dataid: self.dataid,
            timestamp: self.timestamp,
        }
    }
}

/// Position of the newest record of `log` addressed to `id`, if any.
pub open spec fn latest_index(log: Seq<RecordView>, id: Seq<u8>) -> Option<int>
    decreases log.len(),
{
    if log.len() == 0 {
        None
    } else if log.last().to == id {
        Some(log.len() - 1)
    } else {
        latest_index(log.drop_last(), id)
    }
}

/// Content of the newest record of `log` addressed to `id`, if any.
pub open spec fn latest_content(log: Seq<RecordView>, id: Seq<u8>) -> Option<Seq<char>> {
    match latest_index(log, id) {
        Some(i) => Some(log[i].content),
        None => None,
    }
}

/// `latest_index` finds the record with the largest position addressed to `id`,
/// and finds none exactly when no record is addressed to `id`.
pub proof fn lemma_latest_index_is_largest(log: Seq<RecordView>, id: Seq<u8>)
    ensures
        match latest_index(log, id) {
            Some(i) => {
                &&& 0 <= i < log.len()
                &&& log[i].to == id
                &&& forall|j: int| i < j < log.len() ==> log[j].to != id
            },
            None => forall|j: int| 0 <= j < log.len() ==> log[j].to != id,
        },
    decreases log.len(),
{
    if log.len() > 0 && log.last().to != id {
        lemma_latest_index_is_largest(log.drop_last(), id);
        assert forall|j: int| 0 <= j < log.len() - 1 implies log[j] == log.drop_last()[j] by {}
    }
}

/// The records in order of insertion; positions start at 0 and never change.
pub struct ContentLog {
    records: Vec<MessageRecord>,
}

impl View for ContentLog {
    type V = Seq<RecordView>;

    closed spec fn view(&self) -> Seq<RecordView> {
        self.records@.map_values(|r: MessageRecord| r@)
    }
}

impl ContentLog {
    /// An empty log.
    pub fn new() -> (r: ContentLog)
        ensures
            r@ == Seq::<RecordView>::empty(),
    {
        let r = ContentLog { records: Vec::new() };
        assert(r@ =~= Seq::<RecordView>::empty());
        r
    }

    /// A log that holds `records`, oldest first.
    pub fn from_records(records: Vec<MessageRecord>) -> (r: ContentLog)
        ensures
            r@ == records@.map_values(|m: MessageRecord| m@),
    {
        ContentLog { records }
    }

    /// The records, oldest first.
    pub fn records(&self) -> (r: &Vec<MessageRecord>)
        ensures
            r@.map_values(|m: MessageRecord| m@) == self@,
    {
        &self.records
    }

    /// Number of records.
    pub fn len(&self) -> (r: usize)
        ensures
            r == self@.len(),
    {
        self.records.len()
    }

    /// The record at position `i`.
    pub fn get(&self, i: usize) -> (r: &MessageRecord)
        requires
            i < self@.len(),
        ensures
            r@ == self@[i as int],
    {
        &self.records[i]
    }

    /// Adds `record` at the end and returns the position it was given.
    pub fn append(&mut self, record: MessageRecord) -> (i: usize)
        ensures
            i == old(self)@.len(),
            final(self)@ == old(self)@.push(record@),
    {
        let i = self.records.len();
        self.records.push(record);
        assert(self@ =~= old(self)@.push(record@));
        i
    }

    /// Scans from the newest record back and returns the position of the first
    /// one addressed to `id`.
    pub fn latest_for(&self, id: &AccountId) -> (r: Option<usize>)
        ensures
            match r {
                Some(i) => latest_index(self@, id@) == Some(i as int),
                None => latest_index(self@, id@) == None::<int>,
            },
    {
        proof {
            lemma_latest_index_is_largest(self@, id@);
        }
        let mut i: usize = self.records.len();
        while i > 0
            invariant
                i <= self@.len(),
                self@.len() == self.records@.len(),
                forall|j: int| i <= j < self@.len() ==> self@[j].to != id@,
            decreases i,
        {
            i = i - 1;
            if self.records[i].to.is_same(id) {
                proof {
                    lemma_latest_index_is_largest(self@, id@);
                    let k = latest_index(self@, id@);
                    assert(self@[i as int].to == id@);
                    if k is Some {
                        assert(!(k->0 < i) && !(k->0 > i));
                    }
                }
                return Some(i);
            }
        }
        None
    }
}

} // verus!
