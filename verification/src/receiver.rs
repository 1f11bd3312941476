//! The receiving half of a channel.

use vstd::prelude::*;
use core::marker::PhantomData;
use crate::channel::WaitContext;
use crate::errors::{RecvError, RecvTimeoutError, TryRecvError};
use crate::model::{Event, Family};
use crate::storage::abstractions::{attached, Storage};
use crate::storage::arena::Arena;
use crate::storage::global::Global;

verus! {

/// The result of a receive that may have to wait.
#[derive(Debug, PartialEq, Eq)]
pub enum Poll<R> {
    /// The outcome is decided.
    Ready(R),
    /// Nothing is decided yet. The waiting context is registered, and the
    /// caller should suspend until it is woken, then ask again.
    Pending,
}

/// The result of a receive that gives the receiver up once it is decided.
pub enum RecvAttempt<T, S: Storage<T>> {
    /// The outcome is decided, and the receiver is gone.
    Resolved(Result<T, RecvError>),
    /// Nothing is decided yet. The waiting context is registered, and the
    /// caller should suspend until it is woken, then ask again with the
    /// receiver that is handed back here.
    Suspended(Receiver<T, S>),
}

/// The half of a channel that receives the one message.
pub struct Receiver<T, S: Storage<T> = Global<T>> {
    storage: S,
    _t: PhantomData<T>,
}

impl<T, S: Storage<T>> Receiver<T, S> {
    /// The handle to the record of the channel.
    pub closed spec fn storage(&self) -> S {
        self.storage
    }

    /// The family of the channel, as the arena has it.
    pub open spec fn family(&self, arena: &Arena<T>) -> Family<T> {
        arena@[self.storage().addr() as int]
    }

    /// This is the receiving half of a channel that lives in the arena.
    pub open spec fn holds(&self, arena: &Arena<T>) -> bool {
        &&& arena.wf()
        &&& attached(&self.storage(), arena)
        &&& self.family(arena).receiver
    }

    /// The receiving half of the channel behind `storage`.
    pub(crate) fn new(storage: S) -> (r: Self)
        ensures
            r.storage() == storage,
    {
        Receiver { storage, _t: PhantomData }
    }

    /// Looks for the message without suspending.
    ///
    /// A message that is ready is taken, and the channel is left in its
    /// consumed terminal state. Otherwise the result says whether the
    /// channel is still open.
    pub fn try_recv(&self, arena: &mut Arena<T>) -> (r: Result<T, TryRecvError>)
        requires
            self.holds(old(arena)),
        ensures
            final(arena).wf(),
            self.holds(final(arena)),
            final(arena)@ == old(arena)@.update(
                self.storage().addr() as int,
                self.family(old(arena)).step(Event::TryRecv),
            ),
            r == (match self.family(old(arena)).delivered(Event::TryRecv) {
                Some(v) => Ok::<T, TryRecvError>(v),
                None => if self.family(old(arena)).state.open() {
                    Err::<T, TryRecvError>(TryRecvError::Empty)
                } else {
                    Err::<T, TryRecvError>(TryRecvError::Disconnected)
                },
            }),
    {
        let channel = self.storage.as_mut(arena);
        match channel.take_message() {
            Some(v) => Ok(v),
            None => if channel.state().is_open() {
                Err(TryRecvError::Empty)
            } else {
                Err(TryRecvError::Disconnected)
            },
        }
    }

    /// One poll of a receive that suspends a task.
    ///
    /// A message that is ready is taken. On a closed channel the poll fails.
    /// Otherwise the waiting context is registered in place of any earlier
    /// one, since an earlier one need not be honoured any more, and the poll
    /// is pending.
    pub fn poll(&self, arena: &mut Arena<T>, ctx: WaitContext) -> (r: Poll<Result<T, RecvError>>)
        requires
            self.holds(old(arena)),
        ensures
            final(arena).wf(),
            self.holds(final(arena)),
            final(arena)@ == old(arena)@.update(
                self.storage().addr() as int,
                self.family(old(arena)).step(Event::Poll(ctx)),
            ),
            r == (match self.family(old(arena)).delivered(Event::Poll(ctx)) {
                Some(v) => Poll::Ready(Ok::<T, RecvError>(v)),
                None => if self.family(old(arena)).state.open() {
                    Poll::Pending
                } else {
                    Poll::Ready(Err::<T, RecvError>(RecvError))
                },
            }),
    {
        let channel = self.storage.as_mut(arena);
        if channel.register(ctx) {
            Poll::Pending
        } else {
            match channel.take_message() {
                Some(v) => Poll::Ready(Ok(v)),
                None => Poll::Ready(Err(RecvError)),
            }
        }
    }

    /// One step of a receive that parks a thread.
    ///
    /// Once the outcome is decided, the message or the disconnection is
    /// returned, the record is released, the owner of its memory is told,
    /// and the receiver is gone. Until then the waiting context is
    /// registered and the receiver is handed back: the caller parks, and on
    /// waking asks again, whatever woke it.
    pub fn recv(self, arena: &mut Arena<T>, ctx: WaitContext) -> (r: RecvAttempt<T, S>)
        requires
            self.holds(old(arena)),
        ensures
            final(arena).wf(),
            final(arena)@ == old(arena)@.update(
                self.storage().addr() as int,
                self.family(old(arena)).step(Event::Recv(ctx)),
            ),
            match r {
                RecvAttempt::Resolved(outcome) => {
                    &&& !self.family(old(arena)).state.open()
                    &&& self.storage().notified()
                    &&& outcome == (match self.family(old(arena)).delivered(Event::Recv(ctx)) {
                        Some(v) => Ok::<T, RecvError>(v),
                        None => Err::<T, RecvError>(RecvError),
                    })
                },
                RecvAttempt::Suspended(receiver) => {
                    &&& self.family(old(arena)).state.open()
                    &&& receiver == self
                    &&& receiver.holds(final(arena))
                },
            },
    {
        let channel = self.storage.as_mut(arena);
        if channel.register(ctx) {
            RecvAttempt::Suspended(self)
        } else {
            let message = channel.take_message();
            let mut storage = self.storage;
            storage.release(arena);
            match message {
                Some(v) => RecvAttempt::Resolved(Ok(v)),
                None => RecvAttempt::Resolved(Err(RecvError)),
            }
        }
    }

    /// One step of a receive that waits until a deadline; `expired` says
    /// whether the deadline has passed.
    ///
    /// A message that is ready is taken, also when the deadline has passed:
    /// a delivery always wins against the cancellation of the wait. On a
    /// closed channel the receive fails. On an open channel, a passed
    /// deadline withdraws the waiting context and reports the timeout;
    /// before the deadline the waiting context is registered and the
    /// receive is pending.
    pub fn recv_timeout(&self, arena: &mut Arena<T>, ctx: WaitContext, expired: bool) -> (r: Poll<
        Result<T, RecvTimeoutError>,
    >)
        requires
            self.holds(old(arena)),
        ensures
            final(arena).wf(),
            self.holds(final(arena)),
            final(arena)@ == old(arena)@.update(
                self.storage().addr() as int,
                self.family(old(arena)).step(Event::RecvTimeout(ctx, expired)),
            ),
            r == (match self.family(old(arena)).delivered(Event::RecvTimeout(ctx, expired)) {
                Some(v) => Poll::Ready(Ok::<T, RecvTimeoutError>(v)),
                None => if !self.family(old(arena)).state.open() {
                    Poll::Ready(Err::<T, RecvTimeoutError>(RecvTimeoutError::Disconnected))
                } else if expired {
                    Poll::Ready(Err::<T, RecvTimeoutError>(RecvTimeoutError::Timeout))
                } else {
                    Poll::Pending
                },
            }),
    {
        let channel = self.storage.as_mut(arena);
        if expired {
            if channel.unregister() {
                Poll::Ready(Err(RecvTimeoutError::Timeout))
            } else {
                match channel.take_message() {
                    Some(v) => Poll::Ready(Ok(v)),
                    None => Poll::Ready(Err(RecvTimeoutError::Disconnected)),
                }
            }
        } else if channel.register(ctx) {
            Poll::Pending
        } else {
            match channel.take_message() {
                Some(v) => Poll::Ready(Ok(v)),
                None => Poll::Ready(Err(RecvTimeoutError::Disconnected)),
            }
        }
    }

    /// Gives the receiver up.
    ///
    /// On an open channel the state becomes disconnected and the waiting
    /// context, if any, is discarded; the sender is left to release the
    /// record. Otherwise the receiver is the last party: a message that was
    /// never taken is dropped, the record is released, and the owner of its
    /// memory is told.
    pub fn drop(self, arena: &mut Arena<T>)
        requires
            self.holds(old(arena)),
        ensures
            final(arena).wf(),
            final(arena)@ == old(arena)@.update(
                self.storage().addr() as int,
                self.family(old(arena)).step(Event::DropReceiver),
            ),
            !self.family(old(arena)).state.open() ==> self.storage().notified(),
    {
        let channel = self.storage.as_mut(arena);
        let prior = channel.disconnect_receiver();
        if !prior.is_open() {
            let mut storage = self.storage;
            storage.release(arena);
        }
    }
}

} // verus!
