use message_store::{AccountId, ContentLog, Contract, MessageRecord};

fn account(b: u8) -> AccountId {
    AccountId::from_bytes([b; 32])
}

#[test]
fn default_works() {
    let test1 = Contract::default();
    assert_eq!(test1.get(), false);
}

#[test]
fn it_works() {
    let mut test1 = Contract::new();
    assert_eq!(test1.get(), false);
    test1.flip();
    assert_eq!(test1.get(), true);
}

#[test]
fn messagetest() {
    let mut contract = Contract::new();
    // the caller that the host reports by default
    let caller = account(1);
    let to = AccountId::from_bytes([1u8; 32]);
    contract.sendmessage(caller, to, "test".to_owned());
    let ret = contract.getmessage(&caller);
    assert_eq!("test", ret.unwrap().as_str());
}

#[test]
fn newest_message_to_recipient_wins() {
    let (a, b, c) = (account(0xA), account(0xB), account(0xC));
    let mut store = Contract::new();
    store.sendmessage(a, b, "hello".to_string());
    store.sendmessage(a, b, "world".to_string());
    store.sendmessage(c, b, "other".to_string());
    assert_eq!(store.getmessage(&b), Some("other".to_string()));
}

#[test]
fn fresh_store_then_note_to_self() {
    let a = account(0xA);
    let mut store = Contract::new();
    assert_eq!(store.getmessage(&a), None);
    store.sendmessage(a, a, "note".to_string());
    assert_eq!(store.getmessage(&a), Some("note".to_string()));
}

#[test]
fn last_send_to_each_recipient() {
    let (a, b, c, d) = (account(1), account(2), account(3), account(4));
    let mut store = Contract::new();
    store.sendmessage(a, b, "1".to_string());
    store.sendmessage(b, c, "2".to_string());
    store.sendmessage(c, b, "3".to_string());
    store.sendmessage(a, c, "4".to_string());
    store.sendmessage(d, a, "5".to_string());
    assert_eq!(store.getmessage(&a), Some("5".to_string()));
    assert_eq!(store.getmessage(&b), Some("3".to_string()));
    assert_eq!(store.getmessage(&c), Some("4".to_string()));
    assert_eq!(store.getmessage(&d), None);
}

#[test]
fn repeated_fetch_changes_nothing() {
    let (a, b) = (account(1), account(2));
    let mut store = Contract::new();
    store.sendmessage(a, b, "x".to_string());
    let first = store.getmessage(&b);
    let second = store.getmessage(&b);
    let third = store.fetch_latest(&b).map(|e| e.content);
    assert_eq!(first, Some("x".to_string()));
    assert_eq!(first, second);
    assert_eq!(first, third);
    assert_eq!(store.contents().len(), 1);
}

#[test]
fn self_addressed_message() {
    let a = account(7);
    let mut store = Contract::new();
    store.sendmessage(a, a, "x".to_string());
    assert_eq!(store.getmessage(&a), Some("x".to_string()));
}

#[test]
fn empty_store_has_nothing() {
    let store = Contract::new();
    assert_eq!(store.getmessage(&account(1)), None);
    assert!(store.fetch_latest(&account(1)).is_none());
    assert_eq!(store.contents().len(), 0);
}

#[test]
fn send_event_names_caller_twice() {
    let (a, b) = (account(1), account(2));
    let mut store = Contract::new();
    let ev = store.sendmessage(a, b, "hi".to_string());
    assert_eq!(ev.operator, a);
    assert_eq!(ev.from, a);
    assert_eq!(ev.to, b);
    assert_eq!(ev.content, "hi");
}

#[test]
fn retrieval_event_names_retriever() {
    let (a, b) = (account(1), account(2));
    let mut store = Contract::new();
    store.sendmessage(a, b, "hi".to_string());
    let ev = store.fetch_latest(&b).unwrap();
    assert_eq!(ev.operator, b);
    assert_eq!(ev.from, b);
    assert_eq!(ev.to, b);
    assert_eq!(ev.content, "hi");
    assert!(store.fetch_latest(&a).is_none());
}

#[test]
fn empty_message_is_stored() {
    let (a, b) = (account(1), account(2));
    let mut store = Contract::new();
    store.sendmessage(a, b, "full".to_string());
    store.sendmessage(a, b, String::new());
    assert_eq!(store.getmessage(&b), Some(String::new()));
}

#[test]
fn records_keep_sender_and_zero_tags() {
    let (a, b) = (account(1), account(2));
    let mut store = Contract::new();
    store.sendmessage(a, b, "m".to_string());
    store.sendmessage(a, b, "m".to_string());
    let log = store.contents();
    assert_eq!(log.len(), 2);
    let r = log.get(1);
    assert_eq!(r.from, a);
    assert_eq!(r.to, b);
    assert_eq!(r.content, "m");
    assert_eq!(r.dataid, 0);
    assert_eq!(r.timestamp, 0);
}

#[test]
fn flip_leaves_messages_alone() {
    let (a, b) = (account(1), account(2));
    let mut store = Contract::new();
    store.sendmessage(a, b, "m".to_string());
    store.flip();
    store.flip();
    assert_eq!(store.get(), false);
    assert_eq!(store.getmessage(&b), Some("m".to_string()));
}

#[test]
fn log_append_returns_positions() {
    let (a, b) = (account(1), account(2));
    let mut log = ContentLog::new();
    let rec = |s: &str| MessageRecord {
        content: s.to_string(),
        to: b,
        from: a,
        dataid: 0,
        timestamp: 0,
    };
    assert_eq!(log.append(rec("p")), 0);
    assert_eq!(log.append(rec("q")), 1);
    assert_eq!(log.latest_for(&b), Some(1));
    assert_eq!(log.latest_for(&a), None);
    assert_eq!(log.records().len(), 2);
}

#[test]
fn identifiers_compare_by_bytes() {
    let mut bytes = [5u8; 32];
    let x = AccountId::from_bytes(bytes);
    bytes[31] = 6;
    let y = AccountId::from_bytes(bytes);
    assert!(x.is_same(&AccountId::from_bytes([5u8; 32])));
    assert!(!x.is_same(&y));
    assert_ne!(x, y);
    assert_eq!(y.to_bytes(), bytes);
}
