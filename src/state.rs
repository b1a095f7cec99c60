//! The shared state word and the tables that decide, from what an atomic access found in it,
//! which endpoint owns and frees which heap object.
use vstd::prelude::*;

verus! {

/// Word of the empty state: the sender is alive and nothing was sent, the receiver is not
/// waiting. No heap allocation of the channel ever sits at this address.
pub const EMPTY_WORD: usize = 1;

/// Word of the closed state: one endpoint is gone, or the value was already taken.
/// No heap allocation of the channel ever sits at this address.
pub const CLOSED_WORD: usize = 2;

/// The word that marks a channel in its initial, empty state.
pub fn init() -> (r: usize)
    ensures
        r == EMPTY_WORD,
{
    EMPTY_WORD
}

/// The word that marks a closed channel.
pub fn closed() -> (r: usize)
    ensures
        r == CLOSED_WORD,
{
    CLOSED_WORD
}

/// The variant of the state that an atomic access found.
#[derive(Debug, Clone, Copy, PartialEq, Eq, Structural)]
pub enum Found {
    Empty,
    Closed,
    /// The address of the receiver's waker.
    Waiter,
    /// The address of a payload.
    Value,
}

/// How the sender reads a word. Only the sender ever publishes a payload address, so any
/// word but the two sentinels is the receiver's waker.
pub open spec fn sender_reads(word: usize) -> Found {
    if word == EMPTY_WORD {
        Found::Empty
    } else if word == CLOSED_WORD {
        Found::Closed
    } else {
        Found::Waiter
    }
}

/// How the receiver reads a word, given the address of the waker it published, if any. Any
/// other word but the two sentinels is the sender's payload.
pub open spec fn receiver_reads(word: usize, own_waker: Option<usize>) -> Found {
    if word == EMPTY_WORD {
        Found::Empty
    } else if word == CLOSED_WORD {
        Found::Closed
    } else if own_waker == Some(word) {
        Found::Waiter
    } else {
        Found::Value
    }
}

pub fn sender_read(word: usize) -> (r: Found)
    ensures
        r == sender_reads(word),
{
    if word == EMPTY_WORD {
        Found::Empty
    } else if word == CLOSED_WORD {
        Found::Closed
    } else {
        Found::Waiter
    }
}

pub fn receiver_read(word: usize, own_waker: Option<usize>) -> (r: Found)
    ensures
        r == receiver_reads(word, own_waker),
{
    if word == EMPTY_WORD {
        Found::Empty
    } else if word == CLOSED_WORD {
        Found::Closed
    } else {
        match own_waker {
            Some(w) => {
                if w == word {
                    Found::Waiter
                } else {
                    Found::Value
                }
            },
            None => Found::Value,
        }
    }
}

/// What the sender does after swapping its payload address, or the closed word, into the
/// state.
#[derive(Debug, Clone, Copy, PartialEq, Eq, Structural)]
pub enum SenderStep {
    /// The receiver is alive and not waiting: it frees the state (and the payload).
    Leave,
    /// The receiver is gone: the sender frees the state and takes its payload back.
    Reclaim,
    /// The receiver is waiting: the sender took its waker out, wakes it and frees it.
    Wake,
}

pub open spec fn sender_step_of(found: Found) -> SenderStep {
    match found {
        Found::Empty => SenderStep::Leave,
        Found::Closed => SenderStep::Reclaim,
        _ => SenderStep::Wake,
    }
}

/// The decision of the sender, on a send or a drop, from the state it swapped out.
pub fn sender_step(found: Found) -> (r: SenderStep)
    requires
        found != Found::Value,
    ensures
        r == sender_step_of(found),
{
    match found {
        Found::Empty => SenderStep::Leave,
        Found::Closed => SenderStep::Reclaim,
        _ => SenderStep::Wake,
    }
}

/// The atomic access a receiving operation makes on the state.
#[derive(Debug, Clone, Copy, PartialEq, Eq, Structural)]
pub enum Access {
    /// A load: a non-blocking receive, the first look of a blocking one, or the look after a
    /// wake-up.
    Look,
    /// A compare-and-swap from the empty word to the receiver's waker.
    Publish,
    /// A swap of the empty word back in when the deadline passed with the waker published.
    Expire,
}

/// Whether the receiver can find `found` through `access`: it publishes a waker only on the
/// empty word, and it only expires a waker it published.
pub open spec fn reachable(access: Access, found: Found) -> bool {
    match access {
        Access::Look => true,
        Access::Publish => found != Found::Waiter,
        Access::Expire => found != Found::Empty,
    }
}

/// What a receiving operation does after an access.
#[derive(Debug, Clone, Copy, PartialEq, Eq, Structural)]
pub enum ReceiverStep {
    /// Nothing was sent yet and no waker is published.
    NotYet,
    /// The receiver's waker is published: suspend until woken.
    Wait,
    /// The receiver took its own waker back out: the deadline passed, the channel stays open.
    Timeout,
    /// The sender is gone without a value, or the value was already taken.
    Disconnected,
    /// The sender's payload is there: take the value out and free the payload.
    Take,
}

pub open spec fn receiver_step_of(access: Access, found: Found) -> ReceiverStep {
    match found {
        Found::Empty => {
            if access == Access::Publish {
                ReceiverStep::Wait
            } else {
                ReceiverStep::NotYet
            }
        },
        Found::Waiter => {
            if access == Access::Expire {
                ReceiverStep::Timeout
            } else {
                ReceiverStep::Wait
            }
        },
        Found::Closed => ReceiverStep::Disconnected,
        Found::Value => ReceiverStep::Take,
    }
}

/// The decision of a receiving operation from what its access found.
pub fn receiver_step(access: Access, found: Found) -> (r: ReceiverStep)
    requires
        reachable(access, found),
    ensures
        r == receiver_step_of(access, found),
{
    match found {
        Found::Empty => {
            if access == Access::Publish {
                ReceiverStep::Wait
            } else {
                ReceiverStep::NotYet
            }
        },
        Found::Waiter => {
            if access == Access::Expire {
                ReceiverStep::Timeout
            } else {
                ReceiverStep::Wait
            }
        },
        Found::Closed => ReceiverStep::Disconnected,
        Found::Value => ReceiverStep::Take,
    }
}

/// Whether the receiver frees the waker it allocated for this access: it does when it took
/// the waker back out of the state, or when the waker never got in.
pub open spec fn receiver_frees_waker(access: Access, step: ReceiverStep) -> bool {
    match access {
        Access::Look => false,
        Access::Publish => step != ReceiverStep::Wait,
        Access::Expire => step == ReceiverStep::Timeout,
    }
}

/// What the receiver frees or writes after a step, besides taking a value out of its payload.
#[derive(Debug, Clone, Copy, PartialEq, Eq, Structural)]
pub struct Cleanup {
    /// Free the waker allocated for a publish that did not get in.
    pub free_new_waker: bool,
    /// Free the waker it published, which it took back out of the state.
    pub free_own_waker: bool,
    /// Forget the waker it published: the sender took it out and frees it.
    pub forget_own_waker: bool,
    /// Store the closed word, so that the handle's later operations see the channel closed.
    pub store_closed: bool,
    /// Free the state: the handle is consumed and the sender is gone.
    pub free_state: bool,
}

pub open spec fn cleanup_of(access: Access, step: ReceiverStep, keep: bool) -> Cleanup {
    let done = step == ReceiverStep::Take || step == ReceiverStep::Disconnected;
    Cleanup {
        free_new_waker: access == Access::Publish && step != ReceiverStep::Wait,
        free_own_waker: access == Access::Expire && step == ReceiverStep::Timeout,
        forget_own_waker: access != Access::Publish && done,
        store_closed: keep && (step == ReceiverStep::Take || (access == Access::Expire && done)),
        free_state: !keep && done,
    }
}

/// The receiver's share of the freeing after a step: whoever takes a pointer out of the state
/// frees what it points at, and a consumed handle frees the state once the sender is gone.
pub fn cleanup(access: Access, step: ReceiverStep, keep: bool) -> (r: Cleanup)
    ensures
        r == cleanup_of(access, step, keep),
{
    let done = step == ReceiverStep::Take || step == ReceiverStep::Disconnected;
    Cleanup {
        free_new_waker: access == Access::Publish && step != ReceiverStep::Wait,
        free_own_waker: access == Access::Expire && step == ReceiverStep::Timeout,
        forget_own_waker: access != Access::Publish && done,
        store_closed: keep && (step == ReceiverStep::Take || (access == Access::Expire && done)),
        free_state: !keep && done,
    }
}

/// How a receiving operation waits.
#[derive(Debug, Clone, Copy, PartialEq, Eq, Structural)]
pub enum Mode {
    /// Never waits: a single look.
    Try,
    /// Parks the thread until woken.
    Blocking,
    /// Parks the thread until woken or until a deadline.
    Deadline,
    /// Returns pending to a cooperative scheduler, which polls again after the wake-up.
    Poll,
}

/// What a receiving operation does after an access.
#[derive(Debug, Clone, Copy, PartialEq, Eq, Structural)]
pub enum Move {
    /// Make this access next.
    Go(Access),
    /// Park the thread, then look again.
    Park,
    /// Return pending; the next poll starts over.
    Pending,
    /// The operation is over: its result follows from the last step.
    Finish,
}

/// The first access of a receiving operation. A poll that finds its earlier waker still
/// published takes it back out before it publishes one of the current context.
pub open spec fn first_access_of(mode: Mode, registered: bool) -> Access {
    if mode == Mode::Poll && registered {
        Access::Expire
    } else {
        Access::Look
    }
}

pub fn first_access(mode: Mode, registered: bool) -> (r: Access)
    ensures
        r == first_access_of(mode, registered),
{
    if mode == Mode::Poll && registered {
        Access::Expire
    } else {
        Access::Look
    }
}

pub open spec fn next_move_of(mode: Mode, step: ReceiverStep, deadline_passed: bool) -> Move {
    match step {
        ReceiverStep::NotYet => {
            if mode == Mode::Try {
                Move::Finish
            } else {
                Move::Go(Access::Publish)
            }
        },
        ReceiverStep::Wait => {
            match mode {
                Mode::Try => Move::Finish,
                Mode::Poll => Move::Pending,
                Mode::Deadline => {
                    if deadline_passed {
                        Move::Go(Access::Expire)
                    } else {
                        Move::Park
                    }
                },
                _ => Move::Park,
            }
        },
        ReceiverStep::Timeout => {
            if mode == Mode::Poll {
                Move::Go(Access::Publish)
            } else {
                Move::Finish
            }
        },
        _ => Move::Finish,
    }
}

/// The decision of a receiving operation on what to do after a step: publish a waker when
/// nothing is there yet, suspend while the waker is published (or take it back once the
/// deadline passed), and finish on a value, a closed channel or a timeout.
pub fn next_move(mode: Mode, step: ReceiverStep, deadline_passed: bool) -> (r: Move)
    ensures
        r == next_move_of(mode, step, deadline_passed),
{
    match step {
        ReceiverStep::NotYet => {
            if mode == Mode::Try {
                Move::Finish
            } else {
                Move::Go(Access::Publish)
            }
        },
        ReceiverStep::Wait => {
            match mode {
                Mode::Try => Move::Finish,
                Mode::Poll => Move::Pending,
                Mode::Deadline => {
                    if deadline_passed {
                        Move::Go(Access::Expire)
                    } else {
                        Move::Park
                    }
                },
                _ => Move::Park,
            }
        },
        ReceiverStep::Timeout => {
            if mode == Mode::Poll {
                Move::Go(Access::Publish)
            } else {
                Move::Finish
            }
        },
        _ => Move::Finish,
    }
}

/// What the receiver does when its handle is dropped, after swapping the closed word in.
#[derive(Debug, Clone, Copy, PartialEq, Eq, Structural)]
pub enum ReleaseStep {
    /// The sender is alive: it frees the state.
    Leave,
    /// The receiver took its own published waker back: it frees it, the sender frees the
    /// state.
    FreeWaker,
    /// The sender is gone without a value: the receiver frees the state.
    FreeState,
    /// A value was sent and never received: the receiver frees the payload and the state.
    FreeStateAndValue,
}

pub open spec fn release_step_of(found: Found) -> ReleaseStep {
    match found {
        Found::Empty => ReleaseStep::Leave,
        Found::Waiter => ReleaseStep::FreeWaker,
        Found::Closed => ReleaseStep::FreeState,
        Found::Value => ReleaseStep::FreeStateAndValue,
    }
}

/// The decision of a dropped receiver from the state it swapped out.
pub fn release_step(found: Found) -> (r: ReleaseStep)
    ensures
        r == release_step_of(found),
{
    match found {
        Found::Empty => ReleaseStep::Leave,
        Found::Waiter => ReleaseStep::FreeWaker,
        Found::Closed => ReleaseStep::FreeState,
        Found::Value => ReleaseStep::FreeStateAndValue,
    }
}

} // verus!
