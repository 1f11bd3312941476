//! The sending half of a channel.

use vstd::prelude::*;
use core::marker::PhantomData;
use crate::channel::{State, WaitContext};
use crate::errors::SendError;
use crate::model::{Event, Family};
use crate::storage::abstractions::{attached, Storage};
use crate::storage::arena::Arena;
use crate::storage::global::Global;

verus! {

/// The half of a channel that sends the one message.
pub struct Sender<T, S: Storage<T> = Global<T>> {
    storage: S,
    _t: PhantomData<T>,
}

impl<T, S: Storage<T>> Sender<T, S> {
    /// The handle to the record of the channel.
    pub closed spec fn storage(&self) -> S {
        self.storage
    }

    /// The family of the channel, as the arena has it.
    pub open spec fn family(&self, arena: &Arena<T>) -> Family<T> {
        arena@[self.storage().addr() as int]
    }

    /// This is the sending half of a channel that lives in the arena.
    pub open spec fn holds(&self, arena: &Arena<T>) -> bool {
        &&& arena.wf()
        &&& attached(&self.storage(), arena)
        &&& self.family(arena).sender
    }

    /// The sending half of the channel behind `storage`.
    pub(crate) fn new(storage: S) -> (s: Self)
        ensures
            s.storage() == storage,
    {
        Sender { storage, _t: PhantomData }
    }

    /// Sends the value and gives the sender up.
    ///
    /// If the receiver is gone, nothing is written and the value comes back
    /// inside the error, which takes over the record. Otherwise the value
    /// is written and the channel becomes ready; the result is the waiting
    /// context of a suspended receiver, which the caller has to wake.
    pub fn send(self, arena: &mut Arena<T>, value: T) -> (r: Result<
        Option<WaitContext>,
        SendError<T, S>,
    >)
        requires
            self.holds(old(arena)),
        ensures
            final(arena).wf(),
            final(arena)@ == old(arena)@.update(
                self.storage().addr() as int,
                self.family(old(arena)).step(Event::Send(value)),
            ),
            match r {
                Ok(wake) => {
                    &&& self.family(old(arena)).returned(Event::Send(value)) is None
                    &&& wake == self.family(old(arena)).woken(Event::Send(value))
                },
                Err(e) => {
                    &&& self.family(old(arena)).returned(Event::Send(value)) == Some(e.value())
                    &&& e.storage() == self.storage()
                    &&& e.holds(final(arena))
                },
            },
    {
        let channel = self.storage.as_mut(arena);
        match channel.send(value) {
            Ok(wake) => Ok(wake),
            Err(value) => Err(SendError::new(self.storage, value)),
        }
    }

    /// Gives the sender up without sending.
    ///
    /// The channel becomes disconnected. The result is the waiting context
    /// of a suspended receiver, which the caller has to wake so that the
    /// receiver sees the disconnection. If the receiver was gone already,
    /// the record is released and the owner of its memory is told.
    pub fn drop(self, arena: &mut Arena<T>) -> (wake: Option<WaitContext>)
        requires
            self.holds(old(arena)),
        ensures
            final(arena).wf(),
            final(arena)@ == old(arena)@.update(
                self.storage().addr() as int,
                self.family(old(arena)).step(Event::DropSender),
            ),
            wake == self.family(old(arena)).woken(Event::DropSender),
            self.family(old(arena)).state is Disconnected ==> self.storage().notified(),
    {
        let channel = self.storage.as_mut(arena);
        let prior = channel.disconnect_sender();
        match prior {
            State::Disconnected => {
                let mut storage = self.storage;
                storage.release(arena);
                None
            },
            _ => prior.waiting_context(),
        }
    }
}

} // verus!
