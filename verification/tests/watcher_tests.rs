//! The watcher lifecycle and the channel bridge: ordering, graceful
//! shutdown, idempotent stop, and the delivered shape of a change event.

use fswatch::channel::watch_channel;
use fswatch::channel::Received;
use fswatch::convert::convert;
use fswatch::event::serialize_event;
use fswatch::event::ChangeKind;
use fswatch::event::EventData;
use fswatch::value::DynamicValue;
use fswatch::watcher::run_loop;
use fswatch::watcher::CollectingSubscriber;
use fswatch::watcher::FsWatcher;
use fswatch::watcher::WatchError;

use notify::event::CreateKind;
use notify::Event;
use notify::EventKind;
use std::path::PathBuf;

fn create_event(path: &str) -> Event {
    Event::new(EventKind::Create(CreateKind::File)).add_path(PathBuf::from(path))
}

fn expected_create_payload(path: &str) -> DynamicValue {
    let data = EventData {
        kind: ChangeKind::Create,
        paths: vec![path.to_string()],
    };
    convert(&serialize_event(&data))
}

#[test]
fn stop_is_idempotent() {
    let mut w = FsWatcher::from_paths(&vec![]).unwrap();
    assert!(!w.is_stopped());
    w.stop();
    assert!(w.is_stopped());
    w.stop();
    assert!(w.is_stopped());
}

#[test]
fn empty_path_list_is_legal() {
    assert!(FsWatcher::from_paths(&vec![]).is_ok());
}

#[test]
fn unregistrable_path_is_named_in_the_error() {
    let bad = "/fswatch-no-such-directory-xyzzy/nested".to_string();
    match FsWatcher::from_paths(&vec![bad.clone()]) {
        Err(WatchError::Watch(p)) => assert_eq!(p, bad),
        other => panic!("expected a watch error, got {:?}", other.is_ok()),
    }
}

#[test]
fn events_are_delivered_in_send_order() {
    let (tx, rx) = watch_channel();
    let paths = ["/w/e1", "/w/e2", "/w/e3", "/w/e4", "/w/e5"];
    for p in paths.iter() {
        assert!(tx.send(create_event(p)));
    }
    drop(tx);
    let mut sub = CollectingSubscriber::new();
    run_loop(&rx, &mut sub);
    let expected: Vec<DynamicValue> =
        paths.iter().map(|p| expected_create_payload(p)).collect();
    assert_eq!(sub.values, expected);
}

#[test]
fn drained_loop_terminates_after_senders_drop() {
    let (tx, rx) = watch_channel();
    tx.send(create_event("/w/a"));
    tx.send(create_event("/w/b"));
    drop(tx);
    let mut sub = CollectingSubscriber::new();
    run_loop(&rx, &mut sub);
    assert_eq!(sub.values.len(), 2);
}

#[test]
fn loop_on_a_closed_empty_channel_returns_at_once() {
    let (tx, rx) = watch_channel();
    drop(tx);
    let mut sub = CollectingSubscriber::new();
    run_loop(&rx, &mut sub);
    assert!(sub.values.is_empty());
}

#[test]
fn receive_reports_events_then_closure() {
    let (tx, rx) = watch_channel();
    assert!(tx.send(create_event("/w/x")));
    drop(tx);
    assert!(matches!(rx.receive(), Received::Event(_)));
    assert!(matches!(rx.receive(), Received::Closed));
}

#[test]
fn rename_events_carry_the_rename_tag() {
    let e = Event::new(EventKind::Modify(notify::event::ModifyKind::Name(
        notify::event::RenameMode::Both,
    )))
    .add_path(PathBuf::from("/w/old"))
    .add_path(PathBuf::from("/w/new"));
    let expected = convert(&serialize_event(&EventData {
        kind: ChangeKind::Rename,
        paths: vec!["/w/old".to_string(), "/w/new".to_string()],
    }));
    assert_eq!(fswatch::event::event_payload(&e), expected);
}

#[test]
fn plain_modification_keeps_the_modify_tag() {
    let e = Event::new(EventKind::Modify(notify::event::ModifyKind::Data(
        notify::event::DataChange::Content,
    )))
    .add_path(PathBuf::from("/w/f"));
    let expected = convert(&serialize_event(&EventData {
        kind: ChangeKind::Modify,
        paths: vec!["/w/f".to_string()],
    }));
    assert_eq!(fswatch::event::event_payload(&e), expected);
}

#[test]
fn event_payload_matches_the_serialize_then_convert_pipeline() {
    let e = create_event("/w/p.txt");
    assert_eq!(
        fswatch::event::event_payload(&e),
        expected_create_payload("/w/p.txt")
    );
}

#[test]
fn forwarding_sends_events_and_drops_errors() {
    let (tx, rx) = watch_channel();
    fswatch::channel::forward_event(&tx, Ok(create_event("/w/ok")));
    fswatch::channel::forward_event(&tx, Err(notify::Error::generic("boom")));
    drop(tx);
    let mut sub = CollectingSubscriber::new();
    run_loop(&rx, &mut sub);
    assert_eq!(sub.values, vec![expected_create_payload("/w/ok")]);
}

#[test]
fn send_after_receiver_dropped_reports_failure() {
    let (tx, rx) = watch_channel();
    drop(rx);
    assert!(!tx.send(create_event("/w/x")));
}

#[test]
fn create_event_delivers_kind_tag_and_path_list() {
    let (tx, rx) = watch_channel();
    assert!(tx.send(create_event("/tmp/watched/a.txt")));
    drop(tx);
    let mut sub = CollectingSubscriber::new();
    run_loop(&rx, &mut sub);
    let expected = DynamicValue::Mapping(vec![
        (
            "kind".to_string(),
            DynamicValue::Text("create".to_string()),
        ),
        (
            "paths".to_string(),
            DynamicValue::Sequence(vec![DynamicValue::Text(
                "/tmp/watched/a.txt".to_string(),
            )]),
        ),
    ]);
    assert_eq!(sub.values, vec![expected]);
}

#[test]
fn start_drains_a_watcher_built_from_a_receiver() {
    let (tx, rx) = watch_channel();
    assert!(tx.send(create_event("/w/one")));
    drop(tx);
    let w = FsWatcher::from_receiver(rx);
    assert!(w.is_stopped());
    let mut sub = CollectingSubscriber::new();
    w.start(&mut sub);
    assert_eq!(sub.values, vec![expected_create_payload("/w/one")]);
}

#[test]
fn start_after_stop_drains_and_returns() {
    let mut w = FsWatcher::from_paths(&vec![]).unwrap();
    w.stop();
    let mut sub = CollectingSubscriber::new();
    w.start(&mut sub);
    assert!(sub.values.is_empty());
}

#[test]
fn every_change_kind_has_its_tag() {
    let cases = [
        (ChangeKind::Any, "any"),
        (ChangeKind::Access, "access"),
        (ChangeKind::Create, "create"),
        (ChangeKind::Modify, "modify"),
        (ChangeKind::Rename, "rename"),
        (ChangeKind::Remove, "remove"),
        (ChangeKind::Other, "other"),
    ];
    for (kind, tag) in cases.iter() {
        let data = EventData {
            kind: *kind,
            paths: vec![],
        };
        match convert(&serialize_event(&data)) {
            DynamicValue::Mapping(entries) => {
                assert_eq!(entries[0].0, "kind");
                assert_eq!(entries[0].1, DynamicValue::Text(tag.to_string()));
                assert_eq!(entries[1].0, "paths");
                assert_eq!(entries[1].1, DynamicValue::Sequence(vec![]));
            }
            other => panic!("expected a mapping, got {:?}", other),
        }
    }
}
