//! The channel as a whole: the state, both endpoints and the heap objects they own, advanced
//! one atomic access at a time. Any interleaving of the two endpoints is a sequence of these
//! steps, so what the invariant states holds under every interleaving.
use vstd::prelude::*;
use crate::errors::{SendError, TryRecvError};
use crate::state::{
    cleanup_of, first_access_of, next_move_of, reachable, receiver_reads, receiver_step,
    receiver_step_of, release_step, release_step_of, sender_reads, sender_step, sender_step_of,
    Access, Found, Mode, Move, ReceiverStep, ReleaseStep, SenderStep, CLOSED_WORD, EMPTY_WORD,
};

verus! {

/// The content of the shared state.
pub enum Slot<T> {
    Empty,
    Closed,
    /// The receiver's waker is published.
    Waiter,
    /// A payload holding the sent value.
    Value(T),
}

impl<T> Slot<T> {
    pub open spec fn found_spec(&self) -> Found {
        match self {
            Slot::Empty => Found::Empty,
            Slot::Closed => Found::Closed,
            Slot::Waiter => Found::Waiter,
            Slot::Value(_) => Found::Value,
        }
    }
}

/// Where the receiver endpoint stands.
#[derive(Debug, Clone, Copy, PartialEq, Eq, Structural)]
pub enum Phase {
    /// The handle exists and has no waker published.
    Idle,
    /// The handle published its waker and is suspended.
    Waiting,
    /// The handle was dropped or consumed.
    Gone,
}

/// What a receiving access hands back.
pub enum Outcome<T> {
    NotYet,
    Wait,
    Timeout,
    Disconnected,
    Got(T),
}

/// The mathematical state of a channel.
pub struct ChannelView<T> {
    pub slot: Slot<T>,
    /// The state's own allocation is not freed yet.
    pub state_live: bool,
    pub sender_alive: bool,
    pub receiver: Phase,
    /// Some receive returned the value.
    pub received: bool,
    /// The value of a send that returned `Ok`.
    pub sent: Option<T>,
    /// Wakers allocated and not freed.
    pub wakers: nat,
    /// Payloads allocated and neither freed nor handed back to the caller.
    pub payloads: nat,
}

impl<T> ChannelView<T> {
    pub open spec fn receiver_alive(self) -> bool {
        self.receiver != Phase::Gone
    }

    /// The protocol's invariant: who owns what in each state.
    pub open spec fn wf(self) -> bool {
        &&& self.state_live == (self.sender_alive || self.receiver_alive())
        &&& !self.state_live ==> self.slot is Closed
        &&& self.slot is Empty ==> self.sender_alive && self.receiver == Phase::Idle
        &&& self.slot is Waiter ==> self.sender_alive && self.receiver == Phase::Waiting
        &&& self.slot is Value ==> {
            &&& !self.sender_alive
            &&& self.receiver_alive()
            &&& !self.received
            &&& self.sent == Some(self.slot->Value_0)
        }
        &&& self.slot is Closed && self.state_live ==> !(self.sender_alive
            && self.receiver_alive())
        &&& self.receiver == Phase::Waiting ==> (self.slot is Waiter || !self.sender_alive)
        &&& self.sender_alive ==> self.sent is None
        &&& self.received ==> self.sent is Some && self.slot is Closed
        &&& self.sent is Some && !self.received && self.receiver_alive() ==> self.slot is Value
        &&& self.wakers == (if self.slot is Waiter { 1nat } else { 0nat })
        &&& self.payloads == (if self.slot is Value { 1nat } else { 0nat })
    }

    /// A fresh channel.
    pub open spec fn initial() -> Self {
        ChannelView {
            slot: Slot::Empty,
            state_live: true,
            sender_alive: true,
            receiver: Phase::Idle,
            received: false,
            sent: None,
            wakers: 0,
            payloads: 0,
        }
    }

    /// The state after the sender swaps in its payload (`Some`) or the closed word (`None`).
    pub open spec fn after_sender(self, value: Option<T>) -> Self {
        let swapped_in = match value {
            Some(v) => Slot::Value(v),
            None => Slot::Closed,
        };
        let added: nat = if value is Some { 1 } else { 0 };
        match sender_step_of(self.slot.found_spec()) {
            SenderStep::Leave => ChannelView {
                slot: swapped_in,
                sender_alive: false,
                sent: value,
                payloads: self.payloads + added,
                ..self
            },
            SenderStep::Reclaim => ChannelView {
                slot: Slot::Closed,
                state_live: false,
                sender_alive: false,
                ..self
            },
            SenderStep::Wake => ChannelView {
                slot: swapped_in,
                sender_alive: false,
                sent: value,
                wakers: (self.wakers - 1) as nat,
                payloads: self.payloads + added,
                ..self
            },
        }
    }

    /// Whether a send on this state hands the value back.
    pub open spec fn send_fails(self) -> bool {
        sender_step_of(self.slot.found_spec()) == SenderStep::Reclaim
    }

    /// The step that a receiving access decides on.
    pub open spec fn receiver_step(self, access: Access) -> ReceiverStep {
        receiver_step_of(access, self.slot.found_spec())
    }

    /// The state after a receiving access. With `keep`, the handle stays and leaves the
    /// state closed once it is done; without, the handle is consumed and frees the state.
    pub open spec fn after_receiver(self, access: Access, keep: bool) -> Self {
        match self.receiver_step(access) {
            ReceiverStep::NotYet => self,
            ReceiverStep::Wait => {
                if access == Access::Publish {
                    ChannelView {
                        slot: Slot::Waiter,
                        receiver: Phase::Waiting,
                        wakers: self.wakers + 1,
                        ..self
                    }
                } else {
                    self
                }
            },
            ReceiverStep::Timeout => ChannelView {
                slot: Slot::Empty,
                receiver: Phase::Idle,
                wakers: (self.wakers - 1) as nat,
                ..self
            },
            ReceiverStep::Disconnected => ChannelView {
                slot: Slot::Closed,
                state_live: keep,
                receiver: if keep { Phase::Idle } else { Phase::Gone },
                ..self
            },
            ReceiverStep::Take => ChannelView {
                slot: Slot::Closed,
                state_live: keep,
                receiver: if keep { Phase::Idle } else { Phase::Gone },
                received: true,
                payloads: (self.payloads - 1) as nat,
                ..self
            },
        }
    }

    /// The state after the receiver's handle is dropped.
    pub open spec fn after_release(self) -> Self {
        match release_step_of(self.slot.found_spec()) {
            ReleaseStep::Leave => ChannelView { slot: Slot::Closed, receiver: Phase::Gone, ..self },
            ReleaseStep::FreeWaker => ChannelView {
                slot: Slot::Closed,
                receiver: Phase::Gone,
                wakers: (self.wakers - 1) as nat,
                ..self
            },
            ReleaseStep::FreeState => ChannelView {
                slot: Slot::Closed,
                state_live: false,
                receiver: Phase::Gone,
                ..self
            },
            ReleaseStep::FreeStateAndValue => ChannelView {
                slot: Slot::Closed,
                state_live: false,
                receiver: Phase::Gone,
                payloads: (self.payloads - 1) as nat,
                ..self
            },
        }
    }
}

/// Which receiving accesses the receiver can make in a phase: a load at any time, a publish
/// only without a published waker, an expiry only with one.
pub open spec fn may_access(phase: Phase, access: Access) -> bool {
    match access {
        Access::Look => phase != Phase::Gone,
        Access::Publish => phase == Phase::Idle,
        Access::Expire => phase == Phase::Waiting,
    }
}

/// A one-shot channel, both endpoints included.
pub struct Channel<T> {
    /// The variant in the state word.
    word: Found,
    /// The payload that the word points at, while it is a value.
    payload: Option<T>,
    state_live: bool,
    sender_alive: bool,
    receiver: Phase,
    received: bool,
    sent: Ghost<Option<T>>,
    wakers: Ghost<nat>,
    payloads: Ghost<nat>,
}

impl<T> View for Channel<T> {
    type V = ChannelView<T>;

    closed spec fn view(&self) -> ChannelView<T> {
        ChannelView {
            slot: match self.word {
                Found::Empty => Slot::Empty,
                Found::Closed => Slot::Closed,
                Found::Waiter => Slot::Waiter,
                Found::Value => Slot::Value(self.payload->Some_0),
            },
            state_live: self.state_live,
            sender_alive: self.sender_alive,
            receiver: self.receiver,
            received: self.received,
            sent: self.sent@,
            wakers: self.wakers@,
            payloads: self.payloads@,
        }
    }
}

impl<T> Channel<T> {
    /// The protocol's invariant, and a payload present exactly while the word points at it.
    pub closed spec fn wf(&self) -> bool {
        &&& (self.payload is Some <==> self.word == Found::Value)
        &&& self@.wf()
    }

    /// Allocates the state of a new channel, empty, with both endpoints alive.
    pub fn new() -> (r: Self)
        ensures
            r@ == ChannelView::<T>::initial(),
            r.wf(),
    {
        Channel {
            word: Found::Empty,
            payload: None,
            state_live: true,
            sender_alive: true,
            receiver: Phase::Idle,
            received: false,
            sent: Ghost(None),
            wakers: Ghost(0),
            payloads: Ghost(0),
        }
    }

    /// Whether the state's allocation was freed.
    pub fn state_freed(&self) -> (r: bool)
        ensures
            r == !self@.state_live,
    {
        !self.state_live
    }

    /// Whether the sender endpoint still exists.
    pub fn sender_alive(&self) -> (r: bool)
        ensures
            r == self@.sender_alive,
    {
        self.sender_alive
    }

    /// Where the receiver endpoint stands.
    pub fn receiver_phase(&self) -> (r: Phase)
        ensures
            r == self@.receiver,
    {
        self.receiver
    }

    /// The variant the state word holds.
    pub fn found(&self) -> (r: Found)
        ensures
            r == self@.slot.found_spec(),
    {
        self.word
    }

    /// The sender's swap: its payload (`Some`) on a send, the closed word (`None`) on a drop.
    /// Hands the value back where the receiver is gone.
    fn sender_swap(&mut self, value: Option<T>) -> (r: Option<T>)
        requires
            old(self).wf(),
            old(self)@.sender_alive,
        ensures
            final(self)@ == old(self)@.after_sender(value),
            final(self).wf(),
            old(self)@.send_fails() ==> r == value,
            !old(self)@.send_fails() ==> r is None,
    {
        proof {
            lemma_sender_preserves(self@, value);
        }
        let ghost v = value;
        let step = sender_step(self.word);
        self.sender_alive = false;
        match step {
            SenderStep::Reclaim => {
                self.word = Found::Closed;
                self.state_live = false;
                value
            },
            _ => {
                if step == SenderStep::Wake {
                    self.wakers = Ghost((self.wakers@ - 1) as nat);
                }
                match value {
                    Some(x) => {
                        self.word = Found::Value;
                        self.payload = Some(x);
                        self.payloads = Ghost(self.payloads@ + 1);
                    },
                    None => {
                        self.word = Found::Closed;
                    },
                }
                self.sent = Ghost(v);
                None
            },
        }
    }

    /// Sends `value` to the receiver, consuming the sender. Fails, handing the value back,
    /// exactly when the receiver is already gone.
    pub fn send(&mut self, value: T) -> (r: Result<(), SendError<T>>)
        requires
            old(self).wf(),
            old(self)@.sender_alive,
        ensures
            final(self)@ == old(self)@.after_sender(Some(value)),
            final(self).wf(),
            r is Err <==> old(self)@.send_fails(),
            r matches Err(e) ==> e.inner() == value,
    {
        match self.sender_swap(Some(value)) {
            Some(back) => Err(SendError::new(Box::new(back))),
            None => Ok(()),
        }
    }

    /// Drops the sender without sending: closes the channel.
    pub fn drop_sender(&mut self)
        requires
            old(self).wf(),
            old(self)@.sender_alive,
        ensures
            final(self)@ == old(self)@.after_sender(None),
            final(self).wf(),
    {
        let _ = self.sender_swap(None);
    }

    /// One access of a receiving operation on the state. With `keep` the handle stays and
    /// leaves the state closed once done; without, the handle is consumed and frees the state.
    pub fn receive(&mut self, access: Access, keep: bool) -> (r: Outcome<T>)
        requires
            old(self).wf(),
            may_access(old(self)@.receiver, access),
        ensures
            final(self)@ == old(self)@.after_receiver(access, keep),
            final(self).wf(),
            r is NotYet <==> old(self)@.receiver_step(access) == ReceiverStep::NotYet,
            r is Wait <==> old(self)@.receiver_step(access) == ReceiverStep::Wait,
            r is Timeout <==> old(self)@.receiver_step(access) == ReceiverStep::Timeout,
            r is Disconnected <==> old(self)@.receiver_step(access) == ReceiverStep::Disconnected,
            r is Got <==> old(self)@.receiver_step(access) == ReceiverStep::Take,
            r matches Outcome::Got(v) ==> old(self)@.slot == Slot::Value(v) && old(self)@.sent
                == Some(v),
    {
        proof {
            lemma_receiver_preserves(self@, access, keep);
        }
        let step = receiver_step(access, self.word);
        match step {
            ReceiverStep::NotYet => Outcome::NotYet,
            ReceiverStep::Wait => {
                if access == Access::Publish {
                    self.word = Found::Waiter;
                    self.receiver = Phase::Waiting;
                    self.wakers = Ghost(self.wakers@ + 1);
                }
                Outcome::Wait
            },
            ReceiverStep::Timeout => {
                self.word = Found::Empty;
                self.receiver = Phase::Idle;
                self.wakers = Ghost((self.wakers@ - 1) as nat);
                Outcome::Timeout
            },
            ReceiverStep::Disconnected => {
                self.word = Found::Closed;
                self.state_live = keep;
                self.receiver = if keep {
                    Phase::Idle
                } else {
                    Phase::Gone
                };
                Outcome::Disconnected
            },
            ReceiverStep::Take => {
                let taken = self.payload.take();
                self.word = Found::Closed;
                self.state_live = keep;
                self.receiver = if keep {
                    Phase::Idle
                } else {
                    Phase::Gone
                };
                self.received = true;
                self.payloads = Ghost((self.payloads@ - 1) as nat);
                match taken {
                    Some(v) => Outcome::Got(v),
                    None => Outcome::Disconnected,
                }
            },
        }
    }

    /// A non-blocking receive: one load of the state.
    pub fn try_recv(&mut self) -> (r: Result<T, TryRecvError>)
        requires
            old(self).wf(),
            old(self)@.receiver_alive(),
        ensures
            final(self)@ == old(self)@.after_receiver(Access::Look, true),
            final(self).wf(),
            r == (match old(self)@.slot {
                Slot::Value(v) => Ok(v),
                Slot::Closed => Err(TryRecvError::Disconnected),
                _ => Err(TryRecvError::Empty),
            }),
    {
        match self.receive(Access::Look, true) {
            Outcome::Got(v) => Ok(v),
            Outcome::Disconnected => Err(TryRecvError::Disconnected),
            _ => Err(TryRecvError::Empty),
        }
    }

    /// Drops the receiver: closes the channel, and frees what the receiver owns.
    pub fn drop_receiver(&mut self)
        requires
            old(self).wf(),
            old(self)@.receiver_alive(),
        ensures
            final(self)@ == old(self)@.after_release(),
            final(self).wf(),
    {
        proof {
            lemma_release_preserves(self@);
        }
        let step = release_step(self.word);
        self.word = Found::Closed;
        self.receiver = Phase::Gone;
        match step {
            ReleaseStep::Leave => {},
            ReleaseStep::FreeWaker => {
                self.wakers = Ghost((self.wakers@ - 1) as nat);
            },
            ReleaseStep::FreeState => {
                self.state_live = false;
            },
            ReleaseStep::FreeStateAndValue => {
                let _dropped = self.payload.take();
                self.state_live = false;
                self.payloads = Ghost((self.payloads@ - 1) as nat);
            },
        }
    }
}

/// The state word that encodes a slot, given the addresses of the receiver's waker and of the
/// payload.
pub open spec fn word_of<T>(slot: Slot<T>, waker: usize, payload: usize) -> usize {
    match slot {
        Slot::Empty => EMPTY_WORD,
        Slot::Closed => CLOSED_WORD,
        Slot::Waiter => waker,
        Slot::Value(_) => payload,
    }
}

/// Variant discrimination is unambiguous: where the waker and the payload live apart from
/// each other and from the two sentinel words, each endpoint reads the word of a state as the
/// variant the state holds, the sender without knowing any address, the receiver knowing only
/// the waker it published.
pub proof fn lemma_reads_agree<T>(s: ChannelView<T>, waker: usize, payload: usize)
    requires
        s.wf(),
        waker != EMPTY_WORD && waker != CLOSED_WORD,
        payload != EMPTY_WORD && payload != CLOSED_WORD,
        waker != payload,
    ensures
        s.sender_alive ==> sender_reads(word_of(s.slot, waker, payload)) == s.slot.found_spec(),
        s.receiver_alive() ==> receiver_reads(
            word_of(s.slot, waker, payload),
            if s.receiver == Phase::Waiting {
                Some(waker)
            } else {
                None
            },
        ) == s.slot.found_spec(),
{
}

/// A fresh channel satisfies the invariant.
pub proof fn lemma_initial_wf<T>()
    ensures
        ChannelView::<T>::initial().wf(),
{
}

/// The sender's swap, on a send or a drop, preserves the invariant.
pub proof fn lemma_sender_preserves<T>(s: ChannelView<T>, value: Option<T>)
    requires
        s.wf(),
        s.sender_alive,
    ensures
        s.after_sender(value).wf(),
{
}

/// Every receiving access the receiver can make preserves the invariant.
pub proof fn lemma_receiver_preserves<T>(s: ChannelView<T>, access: Access, keep: bool)
    requires
        s.wf(),
        may_access(s.receiver, access),
    ensures
        reachable(access, s.slot.found_spec()),
        s.after_receiver(access, keep).wf(),
{
}

/// Dropping the receiver preserves the invariant.
pub proof fn lemma_release_preserves<T>(s: ChannelView<T>)
    requires
        s.wf(),
        s.receiver_alive(),
    ensures
        s.after_release().wf(),
{
}

/// At most one receive returns the value: once one has, no receiving access the receiver can
/// make takes a value again.
pub proof fn lemma_at_most_once<T>(s: ChannelView<T>, access: Access)
    requires
        s.wf(),
        s.received,
        may_access(s.receiver, access),
    ensures
        s.receiver_step(access) != ReceiverStep::Take,
{
}

/// Nothing is lost: after a send returned `Ok(())` and before any receive took the value, the
/// value waits in the state, and the next receiving access of a live receiver takes exactly it.
pub proof fn lemma_no_loss<T>(s: ChannelView<T>, access: Access)
    requires
        s.wf(),
        s.sent is Some,
        !s.received,
        may_access(s.receiver, access),
    ensures
        s.slot == Slot::Value(s.sent->Some_0),
        s.receiver_step(access) == ReceiverStep::Take,
{
}

/// A send after the receiver is gone fails: the sender takes its value back.
pub proof fn lemma_send_to_closed<T>(s: ChannelView<T>, value: T)
    requires
        s.wf(),
        s.sender_alive,
        !s.receiver_alive(),
    ensures
        s.send_fails(),
        s.after_sender(Some(value)).sent is None,
        s.after_sender(Some(value)).payloads == 0,
{
}

/// Closed is terminal: once a receive returned the value, or once the sender is gone without
/// sending, every receiving access reports the channel disconnected, and so does every later one.
pub proof fn lemma_terminal_closed<T>(s: ChannelView<T>, access: Access, keep: bool)
    requires
        s.wf(),
        s.received || (!s.sender_alive && s.sent is None),
        may_access(s.receiver, access),
    ensures
        s.slot is Closed,
        s.receiver_step(access) == ReceiverStep::Disconnected,
        s.after_receiver(access, keep).slot is Closed,
        s.after_receiver(access, keep).received == s.received,
        !s.after_receiver(access, keep).sender_alive,
        s.after_receiver(access, keep).sent == s.sent,
{
}

/// A timeout keeps the channel usable: after an expiry that reports a timeout, a send succeeds
/// and the next receive takes its value.
pub proof fn lemma_timeout_preserves<T>(s: ChannelView<T>, value: T)
    requires
        s.wf(),
        may_access(s.receiver, Access::Expire),
        s.receiver_step(Access::Expire) == ReceiverStep::Timeout,
    ensures
        ({
            let t = s.after_receiver(Access::Expire, true);
            let u = t.after_sender(Some(value));
            &&& t.wf()
            &&& t.sender_alive
            &&& t.receiver == Phase::Idle
            &&& !t.send_fails()
            &&& u.wf()
            &&& u.receiver_step(Access::Look) == ReceiverStep::Take
            &&& u.slot == Slot::Value(value)
        }),
{
    lemma_receiver_preserves(s, Access::Expire, true);
    lemma_sender_preserves(s.after_receiver(Access::Expire, true), Some(value));
}

/// No leaks: once both endpoints are gone, the state is freed and no waker or payload of the
/// channel is left allocated.
pub proof fn lemma_no_leaks<T>(s: ChannelView<T>)
    requires
        s.wf(),
        !s.sender_alive,
        !s.receiver_alive(),
    ensures
        !s.state_live,
        s.wakers == 0,
        s.payloads == 0,
{
}

/// No use after free: while either endpoint is alive the state is allocated, so every access
/// an endpoint makes lands on live memory; and a step frees the state only when it leaves no
/// endpoint alive, so it is freed once.
pub proof fn lemma_no_use_after_free<T>(s: ChannelView<T>, value: Option<T>, access: Access, keep: bool)
    requires
        s.wf(),
    ensures
        s.sender_alive || s.receiver_alive() ==> s.state_live,
        s.sender_alive && !s.after_sender(value).state_live ==> !s.after_sender(
            value,
        ).receiver_alive(),
        may_access(s.receiver, access) && !s.after_receiver(access, keep).state_live
            ==> !s.after_receiver(access, keep).sender_alive,
        s.receiver_alive() && !s.after_release().state_live ==> !s.after_release().sender_alive,
{
    if s.sender_alive {
        lemma_sender_preserves(s, value);
    }
    if may_access(s.receiver, access) {
        lemma_receiver_preserves(s, access, keep);
    }
    if s.receiver_alive() {
        lemma_release_preserves(s);
    }
}

/// The receiving decisions only ever ask for an access the receiver may make: the first one of
/// an operation, and each one that follows a step, including the look after a park.
pub proof fn lemma_moves_allowed<T>(
    s: ChannelView<T>,
    mode: Mode,
    access: Access,
    keep: bool,
    deadline_passed: bool,
)
    requires
        s.wf(),
        s.receiver_alive(),
    ensures
        may_access(s.receiver, first_access_of(mode, s.receiver == Phase::Waiting)),
        may_access(s.receiver, access) ==> {
            let t = s.after_receiver(access, keep);
            let next = next_move_of(mode, s.receiver_step(access), deadline_passed);
            &&& next matches Move::Go(a) ==> may_access(t.receiver, a)
            &&& next == Move::Park ==> may_access(t.receiver, Access::Look)
        },
{
}

/// The receiver's cleanup rule frees exactly what the step takes out of the channel: the state
/// when the step leaves it freed, a published waker when the step takes it back, and nothing
/// the sender still owns.
pub proof fn lemma_cleanup_matches<T>(s: ChannelView<T>, access: Access, keep: bool)
    requires
        s.wf(),
        may_access(s.receiver, access),
    ensures
        ({
            let c = cleanup_of(access, s.receiver_step(access), keep);
            let t = s.after_receiver(access, keep);
            &&& c.free_state <==> !t.state_live
            &&& c.free_own_waker <==> t.wakers + 1 == s.wakers
            &&& c.forget_own_waker ==> t.wakers == s.wakers && t.receiver != Phase::Waiting
            &&& c.store_closed ==> t.slot is Closed && t.state_live
        }),
{
    lemma_receiver_preserves(s, access, keep);
}

} // verus!
