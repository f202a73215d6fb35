//! The message service: sending, fetching the newest message, and the
//! notifications that accompany both.
use vstd::prelude::*;

use crate::account::AccountId;
use crate::log::{
    latest_content, latest_index, lemma_latest_index_is_largest, ContentLog, MessageRecord,
    RecordView,
};

verus! {

/// The notification of a sent message.
///
/// `operator` and `from` are both the sender.
#[derive(Debug)]
pub struct TransferSingle {
    pub operator: AccountId,
    pub from: AccountId,
    pub to: AccountId,
    pub content: String,
}

/// The notification of a retrieved message.
///
/// Unlike in [`TransferSingle`], `from` here is the principal who retrieved the
/// message (as is `operator`), not its original sender; `to` and `content` are
/// those of the retrieved record. The field names are kept as they are seen by
/// observers of the published notifications.
#[derive(Debug)]
pub struct Getcontent {
    pub operator: AccountId,
    pub from: AccountId,
    pub to: AccountId,
    pub content: String,
}

/// The mathematical value of a notification.
pub struct EventView {
    pub operator: Seq<u8>,
    pub from: Seq<u8>,
    pub to: Seq<u8>,
    pub content: Seq<char>,
}

impl View for TransferSingle {
    type V = EventView;

    open spec fn view(&self) -> EventView {
        EventView {
            operator: self.operator@,
            from: self.from@,
            to: self.to@,
            content: self.content@,
        }
    }
}

impl View for Getcontent {
    type V = EventView;

    open spec fn view(&self) -> EventView {
        EventView {
            operator: self.operator@,
            from: self.from@,
            to: self.to@,
            content: self.content@,
        }
    }
}

/// The record that a send by `caller` to `to` of `content` appends.
pub open spec fn sent_record(caller: Seq<u8>, to: Seq<u8>, content: Seq<char>) -> RecordView {
    RecordView { content, to, from: caller, dataid: 0, timestamp: 0 }
}

/// The notification of a send by `caller` to `to` of `content`.
pub open spec fn sent_event(caller: Seq<u8>, to: Seq<u8>, content: Seq<char>) -> EventView {
    EventView { operator: caller, from: caller, to, content }
}

/// The notification of `caller` retrieving `record`.
pub open spec fn retrieved_event(caller: Seq<u8>, record: RecordView) -> EventView {
    EventView { operator: caller, from: caller, to: record.to, content: record.content }
}

/// The mathematical value of a [`Contract`].
pub struct ContractView {
    /// The legacy toggle.
    pub value: bool,
    /// The message log, oldest first.
    pub log: Seq<RecordView>,
}

/// The store: the message log, and a legacy boolean toggle that nothing else uses.
pub struct Contract {
    value: bool,
    contents: ContentLog,
}

impl View for Contract {
    type V = ContractView;

    closed spec fn view(&self) -> ContractView {
        ContractView { value: self.value, log: self.contents@ }
    }
}

impl Default for Contract {
    fn default() -> (r: Contract)
        ensures
            r@.value == false,
            r@.log == Seq::<RecordView>::empty(),
    {
        Contract::new()
    }
}

impl Contract {
    /// A fresh store: no messages, the toggle off.
    pub fn new() -> (r: Contract)
        ensures
            r@.value == false,
            r@.log == Seq::<RecordView>::empty(),
    {
        Contract { value: false, contents: ContentLog::new() }
    }

    /// A store with the given toggle and log.
    pub fn from_parts(value: bool, contents: ContentLog) -> (r: Contract)
        ensures
            r@.value == value,
            r@.log == contents@,
    {
        Contract { value, contents }
    }

    /// The message log.
    pub fn contents(&self) -> (r: &ContentLog)
        ensures
            r@ == self@.log,
    {
        &self.contents
    }

    /// Flips the legacy toggle.
    pub fn flip(&mut self)
        ensures
            final(self)@.value == !old(self)@.value,
            final(self)@.log == old(self)@.log,
    {
        self.value = !self.value;
    }

    /// The legacy toggle.
    pub fn get(&self) -> (r: bool)
        ensures
            r == self@.value,
    {
        self.value
    }

    /// Appends a message from `caller` to `to` (which may be `caller` itself) and
    /// returns the notification to publish. Every call adds a new record, also
    /// for an empty or repeated `message`.
    pub fn sendmessage(&mut self, caller: AccountId, to: AccountId, message: String) -> (ev:
        TransferSingle)
        ensures
            final(self)@.log == old(self)@.log.push(sent_record(caller@, to@, message@)),
            final(self)@.value == old(self)@.value,
            ev@ == sent_event(caller@, to@, message@),
    {
        let content = message.clone();
        self.contents.append(MessageRecord { content, to, from: caller, dataid: 0, timestamp: 0 });
        TransferSingle { operator: caller, from: caller, to, content: message }
    }

    /// The notification for `caller` retrieving the newest message addressed to
    /// them, or `None` when there is no such message (and nothing to publish).
    pub fn fetch_latest(&self, caller: &AccountId) -> (r: Option<Getcontent>)
        ensures
            match latest_index(self@.log, caller@) {
                Some(i) => r is Some && r->0@ == retrieved_event(caller@, self@.log[i]),
                None => r is None,
            },
    {
        match self.contents.latest_for(caller) {
            Some(i) => {
                proof {
                    lemma_latest_index_is_largest(self@.log, caller@);
                }
                let record = self.contents.get(i);
                Some(
                    Getcontent {
                        operator: *caller,
                        from: *caller,
                        to: record.to,
                        content: record.content.clone(),
                    },
                )
            },
            None => None,
        }
    }

    /// The content of the newest message addressed to `caller`, or `None` when
    /// there is none.
    pub fn getmessage(&self, caller: &AccountId) -> (r: Option<String>)
        ensures
            match latest_content(self@.log, caller@) {
                Some(c) => r is Some && r->0@ == c,
                None => r is None,
            },
    {
        match self.fetch_latest(caller) {
            Some(ev) => Some(ev.content),
            None => None,
        }
    }
}

} // verus!
