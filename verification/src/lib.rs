//! A channel that carries at most one value from one sender to one receiver.
//!
//! The record that the two halves share lives in an [`Arena`], and every
//! operation is one indivisible step on it. No step blocks: a receive that
//! cannot be decided registers a waiting context and says so, and a step of
//! the sender that displaces a waiting context returns it to be woken.

use vstd::prelude::*;

pub mod channel;
pub mod errors;
pub mod laws;
pub mod model;
pub mod receiver;
pub mod sender;
pub mod storage;

pub use channel::{Channel, State, WaitContext};
pub use errors::{RecvError, RecvTimeoutError, SendError, TryRecvError};
pub use receiver::{Poll, Receiver, RecvAttempt};
pub use sender::Sender;
pub use storage::{Arena, ChannelStorage, External, Global, Storage};

verus! {

/// Creates a channel whose record the library allocates and frees.
pub fn channel<T>(arena: &mut Arena<T>) -> (pair: (Sender<T>, Receiver<T>))
    requires
        old(arena).wf(),
    ensures
        final(arena).wf(),
        final(arena)@ == old(arena)@.push(storage::arena::untouched::<T>(true).initialized()),
        pair.0.storage().addr() == old(arena)@.len(),
        pair.1.storage() == pair.0.storage(),
        pair.0.holds(final(arena)),
        pair.1.holds(final(arena)),
{
    let storage = Global::new(arena);
    let twin = storage.clone();
    (Sender::new(storage), Receiver::new(twin))
}

/// Creates a channel on a cell of the arena that the caller owns.
///
/// No other channel may be running on the cell. The channel holds the cell
/// until it calls `release` with the address of the cell; after that the
/// cell can carry the next channel.
pub fn channel_with_storage<T, F: Fn(usize) + Copy>(
    arena: &mut Arena<T>,
    storage: usize,
    release: F,
) -> (pair: (Sender<T, External<T, F>>, Receiver<T, External<T, F>>))
    requires
        old(arena).wf(),
        storage < old(arena)@.len(),
        !old(arena)@[storage as int].heap,
        old(arena)@[storage as int].idle(),
        call_requires(release, (storage,)),
    ensures
        final(arena).wf(),
        final(arena)@ == old(arena)@.update(
            storage as int,
            old(arena)@[storage as int].initialized(),
        ),
        pair.0.storage().addr() == storage,
        pair.0.storage().callback() == release,
        pair.1.storage() == pair.0.storage(),
        pair.0.holds(final(arena)),
        pair.1.holds(final(arena)),
{
    let mut handle = External::new(storage, release);
    handle.initialize(arena);
    let twin = handle.clone();
    (Sender::new(handle), Receiver::new(twin))
}

} // verus!
