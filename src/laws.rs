//! Properties of the store that relate several operations.
use vstd::prelude::*;

use crate::contract::sent_record;
use crate::log::{latest_content, latest_index, lemma_latest_index_is_largest, RecordView};

verus! {

/// The arguments of one send: who sends, to whom, what.
pub struct SendCall {
    pub caller: Seq<u8>,
    pub to: Seq<u8>,
    pub content: Seq<char>,
}

/// The log after `sends` were made, in order, on a store whose log was `log`.
pub open spec fn log_after(log: Seq<RecordView>, sends: Seq<SendCall>) -> Seq<RecordView>
    decreases sends.len(),
{
    if sends.len() == 0 {
        log
    } else {
        let s = sends.last();
        log_after(log, sends.drop_last()).push(sent_record(s.caller, s.to, s.content))
    }
}

proof fn lemma_log_after_fresh(sends: Seq<SendCall>)
    ensures
        log_after(Seq::empty(), sends).len() == sends.len(),
        forall|i: int|
            0 <= i < sends.len() ==> #[trigger] log_after(Seq::empty(), sends)[i] == sent_record(
                sends[i].caller,
                sends[i].to,
                sends[i].content,
            ),
    decreases sends.len(),
{
    if sends.len() > 0 {
        lemma_log_after_fresh(sends.drop_last());
        assert forall|i: int| 0 <= i < sends.len() - 1 implies sends.drop_last()[i] == sends[i] by {}
    }
}

/// On a fresh store, after any sequence of sends, fetching for `x` gives the
/// content of the last send addressed to `x`, and nothing when none was.
pub proof fn lemma_fetch_gives_last_send(sends: Seq<SendCall>, x: Seq<u8>)
    ensures
        match latest_content(log_after(Seq::empty(), sends), x) {
            Some(c) => exists|i: int|
                {
                    &&& 0 <= i < sends.len()
                    &&& #[trigger] sends[i].to == x
                    &&& sends[i].content == c
                    &&& forall|j: int| i < j < sends.len() ==> sends[j].to != x
                },
            None => forall|i: int| 0 <= i < sends.len() ==> sends[i].to != x,
        },
{
    let log = log_after(Seq::empty(), sends);
    lemma_log_after_fresh(sends);
    lemma_latest_index_is_largest(log, x);
    match latest_index(log, x) {
        Some(i) => {
            assert(log[i] == sent_record(sends[i].caller, sends[i].to, sends[i].content));
            assert forall|j: int| i < j < sends.len() implies sends[j].to != x by {
                assert(log[j] == sent_record(sends[j].caller, sends[j].to, sends[j].content));
            }
            assert(sends[i].to == x);
        },
        None => {
            assert forall|i: int| 0 <= i < sends.len() implies sends[i].to != x by {
                assert(log[i] == sent_record(sends[i].caller, sends[i].to, sends[i].content));
            }
        },
    }
}

/// After a principal sends `content` to itself, fetching for it gives `content`,
/// whatever the log held before.
pub proof fn lemma_self_send_then_fetch(log: Seq<RecordView>, a: Seq<u8>, content: Seq<char>)
    ensures
        latest_content(log.push(sent_record(a, a, content)), a) == Some(content),
{
    let l = log.push(sent_record(a, a, content));
    assert(l.last().to == a);
    assert(latest_index(l, a) == Some(l.len() - 1));
}

/// Fetching on an empty log finds nothing.
pub proof fn lemma_empty_log_has_nothing(a: Seq<u8>)
    ensures
        latest_content(Seq::<RecordView>::empty(), a) == None::<Seq<char>>,
{
}

} // verus!
