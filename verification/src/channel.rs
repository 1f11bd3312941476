//! The shared record of one channel: a state word and a message slot.
//!
//! Every method here is one indivisible step of the state machine. A step
//! never blocks; suspending and waking are left to the caller, who is told
//! which waiting context, if any, a step has displaced.
//!
//! Which of the parties still exist is not stored at run time. The record
//! carries it for the proof alone.

use vstd::prelude::*;

verus! {

/// A token by which a suspended receiver can be resumed.
#[derive(Clone, Copy, Debug, PartialEq, Eq, Structural)]
pub enum WaitContext {
    /// A parked thread, resumed by an unpark signal.
    Thread(u64),
    /// A suspended task, resumed by invoking its notifier once.
    Task(u64),
}

/// The state word of a channel.
#[derive(Clone, Copy, Debug, PartialEq, Eq, Structural)]
pub enum State {
    /// Nothing has happened yet.
    Empty,
    /// The receiver has registered a waiting context and is suspended.
    Waiting(WaitContext),
    /// The message slot holds a value that nobody has taken.
    MessageReady,
    /// The required peer is gone, or the message has been taken.
    Disconnected,
}

impl State {
    /// The waiting context that a step away from this state has to wake.
    pub open spec fn waiter(self) -> Option<WaitContext> {
        match self {
            State::Waiting(ctx) => Some(ctx),
            _ => None,
        }
    }

    /// Whether a receiver could still be handed a message later on.
    pub open spec fn open(self) -> bool {
        self is Empty || self is Waiting
    }

    /// The context to wake, if this state holds one.
    pub fn waiting_context(&self) -> (ctx: Option<WaitContext>)
        ensures
            ctx == self.waiter(),
    {
        match self {
            State::Waiting(ctx) => Some(*ctx),
            _ => None,
        }
    }

    /// Whether the state is `Empty` or `Waiting`.
    pub fn is_open(&self) -> (b: bool)
        ensures
            b == self.open(),
    {
        match self {
            State::Empty => true,
            State::Waiting(_) => true,
            _ => false,
        }
    }
}

/// The parties that may hold a handle to a record.
pub ghost struct Parties {
    /// The sending half exists.
    pub sender: bool,
    /// The receiving half exists.
    pub receiver: bool,
    /// A send failure owns the record.
    pub error: bool,
}

impl Parties {
    /// Nobody holds the record.
    pub open spec fn nobody() -> Self {
        Parties { sender: false, receiver: false, error: false }
    }

    /// Both halves of a new channel.
    pub open spec fn both() -> Self {
        Parties { sender: true, receiver: true, error: false }
    }

    /// Whether anybody holds the record.
    pub open spec fn any(self) -> bool {
        self.sender || self.receiver || self.error
    }
}

/// What a channel is, mathematically: its state, the content of its slot,
/// and the parties that hold it.
pub ghost struct ChannelView<T> {
    pub state: State,
    pub message: Option<T>,
    pub parties: Parties,
}

impl<T> ChannelView<T> {
    /// The slot is filled exactly while the state says so, and the state
    /// fits the parties that are left.
    pub open spec fn wf(self) -> bool {
        &&& self.message is Some <==> self.state is MessageReady
        &&& !self.parties.any() ==> !(self.state is MessageReady)
        &&& self.parties.any() ==> match self.state {
            State::Empty | State::Waiting(_) => self.parties == Parties::both(),
            State::MessageReady => self.parties == (Parties {
                sender: false,
                receiver: true,
                error: false,
            }),
            State::Disconnected => {
                ||| self.parties == (Parties { sender: true, receiver: false, error: false })
                ||| self.parties == (Parties { sender: false, receiver: true, error: false })
                ||| self.parties == (Parties { sender: false, receiver: false, error: true })
            },
        }
    }

    /// A record on which no channel runs.
    pub open spec fn inert() -> Self {
        ChannelView { state: State::Empty, message: None, parties: Parties::nobody() }
    }

    /// The record of a channel that was just created.
    pub open spec fn fresh() -> Self {
        ChannelView { state: State::Empty, message: None, parties: Parties::both() }
    }

    /// A record that was torn down.
    pub open spec fn closed() -> Self {
        ChannelView { state: State::Disconnected, message: None, parties: Parties::nobody() }
    }
}

/// The record shared by the two halves of a channel.
pub struct Channel<T> {
    state: State,
    message: Option<T>,
    parties: Ghost<Parties>,
}

impl<T> View for Channel<T> {
    type V = ChannelView<T>;

    closed spec fn view(&self) -> ChannelView<T> {
        ChannelView { state: self.state, message: self.message, parties: self.parties@ }
    }
}

impl<T> Channel<T> {
    /// An inert record: initial state, unwritten slot, and no party.
    pub fn new() -> (c: Self)
        ensures
            c@ == ChannelView::<T>::inert(),
    {
        Channel { state: State::Empty, message: None, parties: Ghost(Parties::nobody()) }
    }

    /// The record of a new channel, with both halves in existence.
    pub fn paired() -> (c: Self)
        ensures
            c@ == ChannelView::<T>::fresh(),
    {
        Channel { state: State::Empty, message: None, parties: Ghost(Parties::both()) }
    }

    /// Reads the state word.
    pub fn state(&self) -> (s: State)
        ensures
            s == self@.state,
    {
        self.state
    }

    /// The sender's one step. On a disconnected channel nothing is written,
    /// the value comes back, and the record passes from the sender to the
    /// failure that will carry the value. Otherwise the value is written,
    /// the state becomes `MessageReady`, and the displaced waiting context
    /// is returned for the caller to wake.
    pub fn send(&mut self, value: T) -> (r: Result<Option<WaitContext>, T>)
        requires
            old(self)@.wf(),
            old(self)@.parties.sender,
        ensures
            final(self)@.wf(),
            old(self)@.state is Disconnected ==> r == Err::<Option<WaitContext>, T>(value)
                && final(self)@ == (ChannelView {
                parties: Parties { sender: false, receiver: false, error: true },
                ..old(self)@
            }),
            !(old(self)@.state is Disconnected) ==> r == Ok::<Option<WaitContext>, T>(
                old(self)@.state.waiter(),
            ) && final(self)@ == (ChannelView {
                state: State::MessageReady,
                message: Some(value),
                parties: Parties { sender: false, receiver: true, error: false },
            }),
    {
        match self.state {
            State::Disconnected => {
                self.parties = Ghost(Parties { sender: false, receiver: false, error: true });
                Err(value)
            },
            State::Waiting(ctx) => {
                self.message = Some(value);
                self.state = State::MessageReady;
                self.parties = Ghost(Parties { sender: false, receiver: true, error: false });
                Ok(Some(ctx))
            },
            _ => {
                self.message = Some(value);
                self.state = State::MessageReady;
                self.parties = Ghost(Parties { sender: false, receiver: true, error: false });
                Ok(None)
            },
        }
    }

    /// The sender leaves without sending: the state is swapped for
    /// `Disconnected` and the state found is returned. If it held a waiting
    /// context, the caller has to wake it; if it was `Disconnected`, the
    /// caller was the last party and has to release the record.
    pub fn disconnect_sender(&mut self) -> (prior: State)
        requires
            old(self)@.wf(),
            old(self)@.parties.sender,
        ensures
            final(self)@.wf() || prior is Disconnected,
            prior == old(self)@.state,
            final(self)@ == (ChannelView {
                state: State::Disconnected,
                parties: Parties { sender: false, ..old(self)@.parties },
                ..old(self)@
            }),
    {
        let prior = self.state;
        self.state = State::Disconnected;
        self.parties = Ghost(Parties { sender: false, ..self.parties@ });
        prior
    }

    /// The receiver leaves: the state is swapped for `Disconnected` and the
    /// state found is returned. A message that was written and never taken
    /// is dropped here. Unless the channel was still open, the caller was
    /// the last party and has to release the record.
    pub fn disconnect_receiver(&mut self) -> (prior: State)
        requires
            old(self)@.wf(),
            old(self)@.parties.receiver,
        ensures
            final(self)@.wf() || !prior.open(),
            prior == old(self)@.state,
            final(self)@ == (ChannelView::<T> {
                state: State::Disconnected,
                message: None,
                parties: Parties { receiver: false, ..old(self)@.parties },
            }),
    {
        let prior = self.state;
        self.state = State::Disconnected;
        self.message = None;
        self.parties = Ghost(Parties { receiver: false, ..self.parties@ });
        prior
    }

    /// Takes the message if one is ready, leaving the channel in its
    /// consumed terminal state. Any other state is left as it is.
    pub fn take_message(&mut self) -> (m: Option<T>)
        requires
            old(self)@.wf(),
        ensures
            final(self)@.wf(),
            m == old(self)@.message,
            old(self)@.state is MessageReady ==> final(self)@ == (ChannelView {
                state: State::Disconnected,
                message: None,
                ..old(self)@
            }),
            !(old(self)@.state is MessageReady) ==> final(self)@ == old(self)@,
    {
        match self.state {
            State::MessageReady => {
                self.state = State::Disconnected;
                self.message.take()
            },
            _ => None,
        }
    }

    /// Installs a waiting context if the channel is still open, replacing
    /// an earlier one. Returns whether the context was installed.
    pub fn register(&mut self, ctx: WaitContext) -> (installed: bool)
        ensures
            installed == old(self)@.state.open(),
            installed ==> final(self)@ == (ChannelView { state: State::Waiting(ctx), ..old(self)@ }),
            !installed ==> final(self)@ == old(self)@,
    {
        if self.state.is_open() {
            self.state = State::Waiting(ctx);
            true
        } else {
            false
        }
    }

    /// Withdraws the waiting context if the channel is still open, going
    /// back to `Empty`. Returns whether the channel was still open; if not,
    /// a send or a disconnect got there first and nothing changes.
    pub fn unregister(&mut self) -> (withdrawn: bool)
        ensures
            withdrawn == old(self)@.state.open(),
            withdrawn ==> final(self)@ == (ChannelView { state: State::Empty, ..old(self)@ }),
            !withdrawn ==> final(self)@ == old(self)@,
    {
        if self.state.is_open() {
            self.state = State::Empty;
            true
        } else {
            false
        }
    }

    /// Tears the record down: whatever message is left is dropped, and no
    /// party holds the record any more.
    pub fn close(&mut self)
        ensures
            final(self)@ == ChannelView::<T>::closed(),
    {
        self.state = State::Disconnected;
        self.message = None;
        self.parties = Ghost(Parties::nobody());
    }
}

} // verus!
