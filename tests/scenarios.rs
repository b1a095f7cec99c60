use oneshot::channel::{Channel, Outcome, Phase};
use oneshot::state::{Access, Found};
use oneshot::TryRecvError;

fn got<T>(o: Outcome<T>) -> Option<T> {
    match o {
        Outcome::Got(v) => Some(v),
        _ => None,
    }
}

#[test]
fn send_then_recv() {
    let mut c: Channel<u32> = Channel::new();
    assert!(c.send(19).is_ok());
    assert_eq!(got(c.receive(Access::Look, false)), Some(19));
    assert!(c.state_freed());
    assert_eq!(c.receiver_phase(), Phase::Gone);
}

#[test]
fn drop_sender_then_recv() {
    let mut c: Channel<u32> = Channel::new();
    c.drop_sender();
    assert!(matches!(c.receive(Access::Look, false), Outcome::Disconnected));
    assert!(c.state_freed());
}

#[test]
fn drop_receiver_then_send() {
    let mut c: Channel<u32> = Channel::new();
    c.drop_receiver();
    assert!(!c.state_freed());
    let err = c.send(5).unwrap_err();
    assert_eq!(*err.as_inner(), 5);
    assert_eq!(err.into_inner(), 5);
    assert!(c.state_freed());
}

#[test]
fn recv_then_send_from_other_side() {
    let mut c: Channel<u32> = Channel::new();
    assert!(matches!(c.receive(Access::Look, false), Outcome::NotYet));
    assert!(matches!(c.receive(Access::Publish, false), Outcome::Wait));
    assert_eq!(c.found(), Found::Waiter);
    // a spurious wake-up finds the waker still in place
    assert!(matches!(c.receive(Access::Look, false), Outcome::Wait));
    assert!(c.send(9).is_ok());
    assert_eq!(got(c.receive(Access::Look, false)), Some(9));
    assert!(c.state_freed());
}

#[test]
fn timeout_then_send() {
    let mut c: Channel<u32> = Channel::new();
    assert!(matches!(c.receive(Access::Look, true), Outcome::NotYet));
    assert!(matches!(c.receive(Access::Publish, true), Outcome::Wait));
    assert!(matches!(c.receive(Access::Expire, true), Outcome::Timeout));
    assert_eq!(c.found(), Found::Empty);
    assert_eq!(c.receiver_phase(), Phase::Idle);
    assert!(c.send(7).is_ok());
    assert_eq!(got(c.receive(Access::Look, true)), Some(7));
    assert_eq!(c.found(), Found::Closed);
}

#[test]
fn send_then_drop_receiver_without_recv() {
    let mut c: Channel<String> = Channel::new();
    assert!(c.send(String::from("nineteen")).is_ok());
    assert_eq!(c.found(), Found::Value);
    c.drop_receiver();
    assert!(c.state_freed());
    assert_eq!(c.found(), Found::Closed);
}

#[test]
fn at_most_one_receive_gets_the_value() {
    let mut c: Channel<u32> = Channel::new();
    assert!(c.send(3).is_ok());
    assert_eq!(c.try_recv(), Ok(3));
    assert_eq!(c.try_recv(), Err(TryRecvError::Disconnected));
    assert!(matches!(c.receive(Access::Look, true), Outcome::Disconnected));
    assert!(matches!(c.receive(Access::Publish, true), Outcome::Disconnected));
}

#[test]
fn value_sent_while_publishing_is_taken() {
    let mut c: Channel<u32> = Channel::new();
    assert!(matches!(c.receive(Access::Look, true), Outcome::NotYet));
    assert!(c.send(11).is_ok());
    assert_eq!(got(c.receive(Access::Publish, true)), Some(11));
    assert_eq!(c.found(), Found::Closed);
    c.drop_receiver();
    assert!(c.state_freed());
}

#[test]
fn sender_dropped_while_publishing() {
    let mut c: Channel<u32> = Channel::new();
    c.drop_sender();
    assert!(matches!(c.receive(Access::Publish, false), Outcome::Disconnected));
    assert!(c.state_freed());
}

#[test]
fn sender_dropped_while_waiting() {
    let mut c: Channel<u32> = Channel::new();
    assert!(matches!(c.receive(Access::Publish, true), Outcome::Wait));
    c.drop_sender();
    assert_eq!(c.found(), Found::Closed);
    assert!(matches!(c.receive(Access::Look, true), Outcome::Disconnected));
    assert!(!c.state_freed());
    c.drop_receiver();
    assert!(c.state_freed());
}

#[test]
fn value_sent_while_expiring_is_taken() {
    let mut c: Channel<u32> = Channel::new();
    assert!(matches!(c.receive(Access::Publish, true), Outcome::Wait));
    assert!(c.send(21).is_ok());
    assert_eq!(got(c.receive(Access::Expire, true)), Some(21));
    assert_eq!(c.found(), Found::Closed);
}

#[test]
fn sender_dropped_while_expiring() {
    let mut c: Channel<u32> = Channel::new();
    assert!(matches!(c.receive(Access::Publish, true), Outcome::Wait));
    c.drop_sender();
    assert!(matches!(c.receive(Access::Expire, true), Outcome::Disconnected));
    assert_eq!(c.found(), Found::Closed);
}

#[test]
fn try_recv_on_empty_channel() {
    let mut c: Channel<u32> = Channel::new();
    assert_eq!(c.try_recv(), Err(TryRecvError::Empty));
    assert_eq!(c.found(), Found::Empty);
    c.drop_sender();
    assert_eq!(c.try_recv(), Err(TryRecvError::Disconnected));
}

#[test]
fn dropping_a_waiting_receiver_frees_its_waker() {
    let mut c: Channel<u32> = Channel::new();
    assert!(matches!(c.receive(Access::Publish, true), Outcome::Wait));
    c.drop_receiver();
    assert!(!c.state_freed());
    assert_eq!(c.found(), Found::Closed);
    assert!(c.send(4).is_err());
    assert!(c.state_freed());
}

#[test]
fn both_dropped_frees_state() {
    let mut c: Channel<u32> = Channel::new();
    c.drop_sender();
    assert!(!c.state_freed());
    assert!(c.sender_alive() == false);
    c.drop_receiver();
    assert!(c.state_freed());
}
