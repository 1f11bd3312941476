//! Storage that the creator of a channel supplies.

use vstd::prelude::*;
use core::marker::PhantomData;
use crate::channel::{Channel, ChannelView};
use crate::storage::abstractions::Storage;
use crate::storage::arena::Arena;

verus! {

/// A handle to a record in memory that the creator of the channel owns.
///
/// The creator supplies the address of a cell and a callback. The channel
/// holds what amounts to an exclusive lease on the cell, from the creation of
/// the channel until the callback is invoked with the same address; the
/// callback is invoked once, when the channel and every error that came of it
/// are done with the cell.
pub struct External<T, F: Fn(usize) + Copy> {
    ptr: usize,
    release: F,
    _t: PhantomData<T>,
}

impl<T, F: Fn(usize) + Copy> External<T, F> {
    /// The callback that is told when the lease ends.
    pub closed spec fn callback(&self) -> F {
        self.release
    }

    /// A handle to the cell at `storage`, with the callback to invoke on
    /// release.
    pub fn new(storage: usize, release: F) -> (e: Self)
        ensures
            e.addr() == storage,
            e.callback() == release,
    {
        External { ptr: storage, release, _t: PhantomData }
    }
}

impl<T, F: Fn(usize) + Copy> Storage<T> for External<T, F> {
    closed spec fn addr(&self) -> usize {
        self.ptr
    }

    open spec fn heap(&self) -> bool {
        false
    }

    open spec fn ready(&self) -> bool {
        call_requires(self.callback(), (self.addr(),))
    }

    open spec fn notified(&self) -> bool {
        call_ensures(self.callback(), (self.addr(),), ())
    }

    fn clone(&self) -> (s: Self) {
        External { ptr: self.ptr, release: self.release, _t: PhantomData }
    }

    fn initialize(&mut self, arena: &mut Arena<T>) {
        arena.lease(self.ptr);
    }

    fn release(&mut self, arena: &mut Arena<T>) {
        arena.end_lease(self.ptr);
        (self.release)(self.ptr);
    }

    fn as_ref<'a>(&self, arena: &'a Arena<T>) -> (c: &'a Channel<T>) {
        arena.channel(self.ptr)
    }

    fn as_mut<'a>(&self, arena: &'a mut Arena<T>) -> (c: &'a mut Channel<T>) {
        arena.channel_mut(self.ptr)
    }
}

/// A cell for the record of one channel at a time, owned by the caller.
///
/// It may be embedded in another structure and used for many channels, one
/// after the other. Outside an arena a cell is always inert.
pub struct ChannelStorage<T> {
    channel: Channel<T>,
}

impl<T> View for ChannelStorage<T> {
    type V = ChannelView<T>;

    closed spec fn view(&self) -> ChannelView<T> {
        self.channel@
    }
}

impl<T> ChannelStorage<T> {
    #[verifier::type_invariant]
    spec fn inert(self) -> bool {
        self.channel@ == ChannelView::<T>::inert()
    }

    /// An inert cell.
    pub fn new() -> (cell: Self)
        ensures
            cell@ == ChannelView::<T>::inert(),
    {
        ChannelStorage { channel: Channel::new() }
    }

    /// Gives up the cell for the record inside it: the record that comes
    /// out is the one the cell held, and it is inert.
    pub(crate) fn into_channel(self) -> (c: Channel<T>)
        ensures
            c@ == self@,
            c@ == ChannelView::<T>::inert(),
    {
        proof {
            use_type_invariant(&self);
        }
        self.channel
    }
}

impl<T> Default for ChannelStorage<T> {
    /// An inert cell.
    fn default() -> (cell: Self)
        ensures
            cell@ == ChannelView::<T>::inert(),
    {
        Self::new()
    }
}

} // verus!
