use omt_obs_plugin::channel::DropChannel;

#[test]
fn drops_when_full() {
    let (mut ch, rx) = DropChannel::pair(1);
    assert!(ch.try_push(1));
    assert!(!ch.try_push(2));
    assert_eq!(ch.dropped(), 1);
    assert_eq!(rx.recv().unwrap(), 1);
}

#[test]
fn zero_depth_still_holds_one_item() {
    let (mut ch, rx) = DropChannel::pair(0);
    assert!(ch.try_push("a"));
    assert!(!ch.try_push("b"));
    assert!(!ch.try_push("c"));
    assert_eq!(ch.dropped(), 2);
    assert_eq!(rx.try_recv().unwrap(), "a");
    assert!(ch.try_push("d"));
    assert_eq!(ch.dropped(), 2);
}

#[test]
fn push_after_receiver_gone_is_dropped() {
    let (mut ch, rx) = DropChannel::pair(4);
    drop(rx);
    assert!(!ch.try_push(7u8));
    assert_eq!(ch.dropped(), 1);
    assert!(ch.sender().try_send(8u8).is_err());
}
