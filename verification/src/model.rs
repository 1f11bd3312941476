//! The mathematical model of one storage family: the channel record, who
//! still holds a handle to it, and how often it was initialized and released.
//!
//! Every operation of the two halves is a step of this model. The contracts
//! of the executable operations are written over `step`, `delivered`,
//! `returned` and `woken`.

use vstd::prelude::*;
use crate::channel::{ChannelView, Parties, State, WaitContext};

verus! {

/// All that is shared by the clones of one storage handle.
pub ghost struct Family<T> {
    /// The memory was allocated by the library (else the caller owns it).
    pub heap: bool,
    /// The memory exists and holds a channel record.
    pub resident: bool,
    /// The state word of the record.
    pub state: State,
    /// The message slot of the record.
    pub message: Option<T>,
    /// A channel runs on the record: it was initialized and not yet released.
    pub leased: bool,
    /// The sending half exists.
    pub sender: bool,
    /// The receiving half exists.
    pub receiver: bool,
    /// A send failure owns the record.
    pub error: bool,
    /// How often the record was initialized.
    pub leases: nat,
    /// How often the record was released.
    pub releases: nat,
}

/// What one of the parties does to a leased family.
pub ghost enum Event<T> {
    /// The sender sends a value.
    Send(T),
    /// The sender is dropped without sending.
    DropSender,
    /// The receiver looks for a message without suspending.
    TryRecv,
    /// The receiver polls, leaving a waiting context if nothing is decided.
    Poll(WaitContext),
    /// The receiver asks for the message and gives itself up once the
    /// outcome is decided.
    Recv(WaitContext),
    /// The receiver asks for the message before a deadline; the flag says
    /// whether the deadline has passed.
    RecvTimeout(WaitContext, bool),
    /// The receiver is dropped.
    DropReceiver,
    /// A send failure is consumed or dropped.
    SettleError,
}

impl<T> Family<T> {
    /// The invariant of a family.
    pub open spec fn wf(self) -> bool {
        &&& self.leased ==> self.resident
        &&& !self.heap ==> self.resident
        &&& self.message is Some <==> self.state is MessageReady
        &&& self.leased <==> self.sender || self.receiver || self.error
        &&& self.leases == self.releases + if self.leased { 1nat } else { 0nat }
        &&& self.heap ==> self.leases <= 1
        &&& self.heap && self.resident && !self.leased ==> self.leases == 0
        &&& !self.leased ==> !(self.state is MessageReady)
        &&& self.leased ==> match self.state {
            State::Empty | State::Waiting(_) => self.sender && self.receiver && !self.error,
            State::MessageReady => !self.sender && self.receiver && !self.error,
            State::Disconnected => {
                ||| self.sender && !self.receiver && !self.error
                ||| !self.sender && self.receiver && !self.error
                ||| !self.sender && !self.receiver && self.error
            },
        }
    }

    /// The channel record of the family.
    pub open spec fn record(self) -> ChannelView<T> {
        ChannelView {
            state: self.state,
            message: self.message,
            parties: Parties { sender: self.sender, receiver: self.receiver, error: self.error },
        }
    }

    /// The family with another channel record in its memory.
    pub open spec fn with_record(self, c: ChannelView<T>) -> Self {
        Family {
            state: c.state,
            message: c.message,
            sender: c.parties.sender,
            receiver: c.parties.receiver,
            error: c.parties.error,
            ..self
        }
    }

    /// Memory that holds an inert record on which no channel runs.
    pub open spec fn idle(self) -> bool {
        self.resident && !self.leased
    }

    /// The family right after a channel was created on it.
    pub open spec fn initialized(self) -> Self {
        Family {
            state: State::Empty,
            message: None,
            leased: true,
            sender: true,
            receiver: true,
            error: false,
            leases: self.leases + 1,
            ..self
        }
    }

    /// The family after its one release: the record is torn down, an unread
    /// message is dropped, every handle is invalid, and memory that the
    /// library allocated is gone.
    pub open spec fn released(self) -> Self {
        Family {
            resident: !self.heap,
            state: State::Disconnected,
            message: None,
            leased: false,
            sender: false,
            receiver: false,
            error: false,
            releases: self.releases + 1,
            ..self
        }
    }

    /// The family after the message, if one was ready, has been taken.
    pub open spec fn taken(self) -> Self {
        if self.state is MessageReady {
            Family { state: State::Disconnected, message: None, ..self }
        } else {
            self
        }
    }

    /// The family with a waiting context installed.
    pub open spec fn parked(self, ctx: WaitContext) -> Self {
        Family { state: State::Waiting(ctx), ..self }
    }

    /// Whether the party that causes the event still exists.
    pub open spec fn enabled(self, e: Event<T>) -> bool {
        match e {
            Event::Send(_) | Event::DropSender => self.sender,
            Event::SettleError => self.error,
            _ => self.receiver,
        }
    }

    /// The family after an event. An event of a party that no longer
    /// exists changes nothing.
    pub open spec fn step(self, e: Event<T>) -> Self {
        if !self.enabled(e) {
            self
        } else {
            match e {
                Event::Send(v) => if self.state is Disconnected {
                    Family { sender: false, error: true, ..self }
                } else {
                    Family { state: State::MessageReady, message: Some(v), sender: false, ..self }
                },
                Event::DropSender => if self.state is Disconnected {
                    self.released()
                } else {
                    Family { state: State::Disconnected, sender: false, ..self }
                },
                Event::TryRecv => self.taken(),
                Event::Poll(ctx) => if self.state.open() {
                    self.parked(ctx)
                } else {
                    self.taken()
                },
                Event::Recv(ctx) => if self.state.open() {
                    self.parked(ctx)
                } else {
                    self.released()
                },
                Event::RecvTimeout(ctx, expired) => if !self.state.open() {
                    self.taken()
                } else if expired {
                    Family { state: State::Empty, ..self }
                } else {
                    self.parked(ctx)
                },
                Event::DropReceiver => if self.state.open() {
                    Family { state: State::Disconnected, receiver: false, ..self }
                } else {
                    self.released()
                },
                Event::SettleError => self.released(),
            }
        }
    }

    /// The value that an event hands to the receiver.
    pub open spec fn delivered(self, e: Event<T>) -> Option<T> {
        if !self.enabled(e) {
            None
        } else {
            match e {
                Event::TryRecv | Event::Poll(_) | Event::Recv(_) | Event::RecvTimeout(_, _) =>
                    self.message,
                _ => None,
            }
        }
    }

    /// The value that an event hands back to the sender.
    pub open spec fn returned(self, e: Event<T>) -> Option<T> {
        match e {
            Event::Send(v) => if self.enabled(e) && self.state is Disconnected {
                Some(v)
            } else {
                None
            },
            _ => None,
        }
    }

    /// The waiting context that the party causing the event has to wake.
    pub open spec fn woken(self, e: Event<T>) -> Option<WaitContext> {
        match e {
            Event::Send(_) | Event::DropSender => if self.enabled(e) {
                self.state.waiter()
            } else {
                None
            },
            _ => None,
        }
    }
}

} // verus!
