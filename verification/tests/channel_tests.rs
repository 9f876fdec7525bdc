use live_entity::{Broadcast, RecvOutcome};

#[test]
fn values_arrive_in_publication_order() {
    let mut chan: Broadcast<u64> = Broadcast::new(4);
    let mut rx = chan.subscribe();
    chan.publish(10);
    chan.publish(20);
    assert!(matches!(chan.try_recv(&mut rx), RecvOutcome::Received(10)));
    assert!(matches!(chan.try_recv(&mut rx), RecvOutcome::Received(20)));
    assert!(matches!(chan.try_recv(&mut rx), RecvOutcome::Empty));
}

#[test]
fn a_subscriber_sees_nothing_published_before_it() {
    let mut chan: Broadcast<u64> = Broadcast::new(4);
    chan.publish(1);
    let mut rx = chan.subscribe();
    assert!(matches!(chan.try_recv(&mut rx), RecvOutcome::Empty));
    chan.publish(2);
    assert!(matches!(chan.try_recv(&mut rx), RecvOutcome::Received(2)));
}

#[test]
fn falling_behind_the_replay_capacity_reports_the_gap() {
    let mut chan: Broadcast<u64> = Broadcast::new(2);
    let mut rx = chan.subscribe();
    chan.publish(1);
    chan.publish(2);
    chan.publish(3);
    match chan.try_recv(&mut rx) {
        RecvOutcome::Lagged(n) => assert_eq!(1, n),
        _ => panic!("A receiver behind the replay buffer must observe a gap."),
    }
    assert!(matches!(chan.try_recv(&mut rx), RecvOutcome::Received(2)));
    assert!(matches!(chan.try_recv(&mut rx), RecvOutcome::Received(3)));
    assert!(matches!(chan.try_recv(&mut rx), RecvOutcome::Empty));
}

#[test]
fn two_subscribers_each_see_every_event() {
    let mut chan: Broadcast<u64> = Broadcast::new(8);
    let mut a = chan.subscribe();
    let mut b = chan.subscribe();
    chan.publish(7);
    assert!(matches!(chan.try_recv(&mut a), RecvOutcome::Received(7)));
    assert!(matches!(chan.try_recv(&mut b), RecvOutcome::Received(7)));
    assert!(matches!(chan.try_recv(&mut a), RecvOutcome::Empty));
    assert!(matches!(chan.try_recv(&mut b), RecvOutcome::Empty));
}
