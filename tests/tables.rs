use oneshot::state::{
    first_access, next_move, receiver_read, receiver_step, release_step, sender_read,
    sender_step, Access, Found, Mode, Move, ReceiverStep, ReleaseStep, SenderStep, CLOSED_WORD,
    EMPTY_WORD,
};
use oneshot::{closed, init};

#[test]
fn sentinels_are_distinct() {
    assert_eq!(init(), EMPTY_WORD);
    assert_eq!(closed(), CLOSED_WORD);
    assert_ne!(init(), closed());
}

#[test]
fn sender_reads_words() {
    assert_eq!(sender_read(init()), Found::Empty);
    assert_eq!(sender_read(closed()), Found::Closed);
    assert_eq!(sender_read(0x7f00_1000), Found::Waiter);
}

#[test]
fn receiver_reads_words() {
    assert_eq!(receiver_read(init(), None), Found::Empty);
    assert_eq!(receiver_read(closed(), Some(0x1000)), Found::Closed);
    assert_eq!(receiver_read(0x1000, Some(0x1000)), Found::Waiter);
    assert_eq!(receiver_read(0x2000, Some(0x1000)), Found::Value);
    assert_eq!(receiver_read(0x2000, None), Found::Value);
}

#[test]
fn sender_table() {
    assert_eq!(sender_step(Found::Empty), SenderStep::Leave);
    assert_eq!(sender_step(Found::Closed), SenderStep::Reclaim);
    assert_eq!(sender_step(Found::Waiter), SenderStep::Wake);
}

#[test]
fn receiver_table() {
    assert_eq!(receiver_step(Access::Look, Found::Empty), ReceiverStep::NotYet);
    assert_eq!(receiver_step(Access::Look, Found::Waiter), ReceiverStep::Wait);
    assert_eq!(receiver_step(Access::Look, Found::Closed), ReceiverStep::Disconnected);
    assert_eq!(receiver_step(Access::Look, Found::Value), ReceiverStep::Take);
    assert_eq!(receiver_step(Access::Publish, Found::Empty), ReceiverStep::Wait);
    assert_eq!(receiver_step(Access::Publish, Found::Closed), ReceiverStep::Disconnected);
    assert_eq!(receiver_step(Access::Publish, Found::Value), ReceiverStep::Take);
    assert_eq!(receiver_step(Access::Expire, Found::Waiter), ReceiverStep::Timeout);
    assert_eq!(receiver_step(Access::Expire, Found::Closed), ReceiverStep::Disconnected);
    assert_eq!(receiver_step(Access::Expire, Found::Value), ReceiverStep::Take);
}

#[test]
fn release_table() {
    assert_eq!(release_step(Found::Empty), ReleaseStep::Leave);
    assert_eq!(release_step(Found::Waiter), ReleaseStep::FreeWaker);
    assert_eq!(release_step(Found::Closed), ReleaseStep::FreeState);
    assert_eq!(release_step(Found::Value), ReleaseStep::FreeStateAndValue);
}

#[test]
fn receiving_moves() {
    assert_eq!(first_access(Mode::Blocking, false), Access::Look);
    assert_eq!(first_access(Mode::Poll, true), Access::Expire);
    assert_eq!(first_access(Mode::Poll, false), Access::Look);
    assert_eq!(next_move(Mode::Try, ReceiverStep::NotYet, false), Move::Finish);
    assert_eq!(next_move(Mode::Try, ReceiverStep::Wait, false), Move::Finish);
    assert_eq!(next_move(Mode::Blocking, ReceiverStep::NotYet, false), Move::Go(Access::Publish));
    assert_eq!(next_move(Mode::Blocking, ReceiverStep::Wait, true), Move::Park);
    assert_eq!(next_move(Mode::Deadline, ReceiverStep::Wait, false), Move::Park);
    assert_eq!(next_move(Mode::Deadline, ReceiverStep::Wait, true), Move::Go(Access::Expire));
    assert_eq!(next_move(Mode::Poll, ReceiverStep::Wait, false), Move::Pending);
    assert_eq!(next_move(Mode::Poll, ReceiverStep::Timeout, false), Move::Go(Access::Publish));
    assert_eq!(next_move(Mode::Deadline, ReceiverStep::Timeout, true), Move::Finish);
    assert_eq!(next_move(Mode::Blocking, ReceiverStep::Take, false), Move::Finish);
    assert_eq!(next_move(Mode::Poll, ReceiverStep::Disconnected, false), Move::Finish);
}
