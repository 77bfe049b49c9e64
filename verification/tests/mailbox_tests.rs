use lunatic_state::mailbox::{MessageMailbox, ReceiveStatus};
use lunatic_state::message::{Message, MessageScratchArea};
use lunatic_state::signal::{Signal, SignalEvent};

fn tagged(tag: i64, byte: u8) -> Message {
    Message { tag: Some(tag), data: vec![byte], resources: Vec::new() }
}

#[test]
fn selective_receive_keeps_order() {
    let mut mb = MessageMailbox::new();
    mb.push(tagged(1, 10));
    mb.push(tagged(2, 20));
    mb.push(tagged(1, 30));

    let filter = vec![2];
    let got = mb.pop(Some(&filter)).expect("a tag-2 message is queued");
    assert_eq!(got.tag, Some(2));
    assert_eq!(got.data, vec![20]);

    assert_eq!(mb.len(), 2);
    let first = mb.pop(None).expect("two messages remain");
    let second = mb.pop(None).expect("one message remains");
    assert_eq!(first.data, vec![10]);
    assert_eq!(second.data, vec![30]);
    assert!(mb.pop(None).is_none());
}

#[test]
fn pop_without_match_leaves_queue() {
    let mut mb = MessageMailbox::new();
    mb.push(tagged(1, 1));
    let filter = vec![9];
    assert!(mb.pop(Some(&filter)).is_none());
    assert_eq!(mb.len(), 1);
}

#[test]
fn untagged_message_matches_only_open_receive() {
    let mut mb = MessageMailbox::new();
    mb.push(Message { tag: None, data: vec![7], resources: Vec::new() });
    let filter = vec![1];
    assert!(mb.pop(Some(&filter)).is_none());
    let got = mb.pop(None).expect("open receive takes the untagged message");
    assert_eq!(got.data, vec![7]);
}

#[test]
fn terminate_signal_unblocks_empty_receive() {
    let mut mb = MessageMailbox::new();
    let filter = vec![5];
    let r = mb.receive_step(Some(&filter), SignalEvent::Arrived(Signal::Kill));
    assert!(matches!(r, ReceiveStatus::Terminated));
    assert_eq!(mb.len(), 0);

    let r = mb.receive_step(Some(&filter), SignalEvent::Arrived(Signal::LinkDied(9)));
    assert!(matches!(r, ReceiveStatus::Terminated));
}

#[test]
fn closed_channel_unblocks_empty_receive() {
    let mut mb = MessageMailbox::new();
    let r = mb.receive_step(None, SignalEvent::Closed);
    assert!(matches!(r, ReceiveStatus::Terminated));
}

#[test]
fn matching_message_is_delivered_while_waiting() {
    let mut mb = MessageMailbox::new();
    let filter = vec![4];
    let r = mb.receive_step(
        Some(&filter),
        SignalEvent::Arrived(Signal::Message(tagged(4, 44))),
    );
    match r {
        ReceiveStatus::Delivered(m) => assert_eq!(m.data, vec![44]),
        _ => panic!("expected delivery"),
    }
    assert_eq!(mb.len(), 0);
}

#[test]
fn non_matching_message_is_queued_while_waiting() {
    let mut mb = MessageMailbox::new();
    let filter = vec![4];
    let r = mb.receive_step(
        Some(&filter),
        SignalEvent::Arrived(Signal::Message(tagged(3, 33))),
    );
    assert!(matches!(r, ReceiveStatus::KeepWaiting));
    assert_eq!(mb.len(), 1);
    let got = mb.pop(None).expect("the skipped message stays queued");
    assert_eq!(got.tag, Some(3));
}

#[test]
fn link_signals_keep_the_receive_waiting() {
    let mut mb = MessageMailbox::new();
    let r = mb.receive_step(None, SignalEvent::Arrived(Signal::Link(1)));
    assert!(matches!(r, ReceiveStatus::KeepWaiting));
    let r = mb.receive_step(None, SignalEvent::Arrived(Signal::UnLink(1)));
    assert!(matches!(r, ReceiveStatus::KeepWaiting));
    assert_eq!(mb.len(), 0);
}

#[test]
fn scratch_area_two_step_receive() {
    let mut scratch = MessageScratchArea::default();
    assert!(!scratch.is_occupied());
    scratch.stage(tagged(1, 9));
    assert!(scratch.is_occupied());
    assert_eq!(scratch.size(), 1);
    let m = scratch.take();
    assert_eq!(m.data, vec![9]);
    assert!(!scratch.is_occupied());
}
