//! The outcomes of the operations that can fail.

use vstd::prelude::*;
use crate::model::Event;
use crate::storage::abstractions::{attached, Storage};
use crate::storage::arena::Arena;
use crate::storage::global::Global;

verus! {

/// The failure of a send on a channel whose receiver is gone.
///
/// It carries the value that could not be sent, and it owns the record of
/// the channel: the record is released when the value is extracted with
/// `into_inner`, or when the error is given up with `drop`. Exactly one of
/// the two has to run.
pub struct SendError<T, S: Storage<T> = Global<T>> {
    storage: S,
    value: T,
}

impl<T, S: Storage<T>> SendError<T, S> {
    /// The handle to the record that the error owns.
    pub closed spec fn storage(&self) -> S {
        self.storage
    }

    /// The value that could not be sent.
    pub closed spec fn value(&self) -> T {
        self.value
    }

    /// The error owns the record it names.
    pub open spec fn holds(&self, arena: &Arena<T>) -> bool {
        &&& arena.wf()
        &&& attached(&self.storage(), arena)
        &&& arena@[self.storage().addr() as int].error
    }

    /// An error that takes over the record behind `storage` and the value
    /// that was not delivered.
    pub(crate) fn new(storage: S, value: T) -> (e: Self)
        ensures
            e.storage() == storage,
            e.value() == value,
    {
        Self { storage, value }
    }

    /// Consumes the error, releases the record, telling the owner of its
    /// memory, and returns the value that failed to be sent.
    pub fn into_inner(self, arena: &mut Arena<T>) -> (value: T)
        requires
            self.holds(old(arena)),
        ensures
            value == self.value(),
            final(arena).wf(),
            final(arena)@ == old(arena)@.update(
                self.storage().addr() as int,
                old(arena)@[self.storage().addr() as int].step(Event::SettleError),
            ),
            self.storage().notified(),
    {
        let mut storage = self.storage.clone();
        let value = self.value;
        storage.release(arena);
        value
    }

    /// The value that failed to be sent.
    pub fn as_inner(&self) -> (value: &T)
        ensures
            *value == self.value(),
    {
        &self.value
    }

    /// Gives the error up: the value is dropped, the record is released,
    /// and the owner of its memory is told.
    pub fn drop(self, arena: &mut Arena<T>)
        requires
            self.holds(old(arena)),
        ensures
            final(arena).wf(),
            final(arena)@ == old(arena)@.update(
                self.storage().addr() as int,
                old(arena)@[self.storage().addr() as int].step(Event::SettleError),
            ),
            self.storage().notified(),
    {
        let mut storage = self.storage;
        storage.release(arena);
    }

    /// The text that describes the error.
    pub fn to_string(&self) -> (text: String)
        ensures
            text@ == "sending on a closed channel"@,
    {
        "sending on a closed channel".to_owned()
    }

    /// The text that shows the error to a developer. It is the same for
    /// every message type, and does not show the value.
    pub fn to_debug_string(&self) -> (text: String)
        ensures
            text@ == "SendError<T>(_)"@,
    {
        "SendError<T>(_)".to_owned()
    }
}

/// The failure of a receive that waits: the sender was dropped before it
/// sent anything, or the message was taken before.
#[derive(Debug, Copy, Clone, Eq, PartialEq, Hash, Structural)]
pub struct RecvError;

impl RecvError {
    /// The text that describes the error.
    pub fn to_string(&self) -> (text: String)
        ensures
            text@ == "receiving on a closed channel"@,
    {
        "receiving on a closed channel".to_owned()
    }
}

/// The failure of a receive that does not wait.
#[derive(Debug, Copy, Clone, Eq, PartialEq, Hash, Structural)]
pub enum TryRecvError {
    /// The channel is still open, but holds no message.
    Empty,
    /// The channel is closed: the sender was dropped before it sent
    /// anything, or the message was taken before.
    Disconnected,
}

impl TryRecvError {
    /// The text that describes the error.
    pub fn to_string(&self) -> (text: String)
        ensures
            text@ == (match *self {
                TryRecvError::Empty => "receiving on an empty channel"@,
                TryRecvError::Disconnected => "receiving on a closed channel"@,
            }),
    {
        let msg = match self {
            TryRecvError::Empty => "receiving on an empty channel",
            TryRecvError::Disconnected => "receiving on a closed channel",
        };
        msg.to_owned()
    }
}

/// The failure of a receive that waits until a deadline.
#[derive(Debug, Copy, Clone, Eq, PartialEq, Hash, Structural)]
pub enum RecvTimeoutError {
    /// No message arrived before the deadline. The channel is still open.
    Timeout,
    /// The channel is closed: the sender was dropped before it sent
    /// anything, or the message was taken before.
    Disconnected,
}

impl RecvTimeoutError {
    /// The text that describes the error.
    pub fn to_string(&self) -> (text: String)
        ensures
            text@ == (match *self {
                RecvTimeoutError::Timeout => "timed out waiting on channel"@,
                RecvTimeoutError::Disconnected => "channel is empty and sending half is closed"@,
            }),
    {
        let msg = match self {
            RecvTimeoutError::Timeout => "timed out waiting on channel",
            RecvTimeoutError::Disconnected => "channel is empty and sending half is closed",
        };
        msg.to_owned()
    }
}

} // verus!
