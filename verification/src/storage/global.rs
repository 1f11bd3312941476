//! Storage that the library allocates and frees by itself.

use vstd::prelude::*;
use core::marker::PhantomData;
use crate::channel::Channel;
use crate::storage::abstractions::Storage;
use crate::storage::arena::{Arena, untouched};

verus! {

/// A handle to a record that the library allocated.
///
/// The allocation is what anchors ownership: with one sender and one
/// receiver nothing needs to be counted.
#[derive(Debug)]
pub struct Global<T> {
    ptr: usize,
    _t: PhantomData<T>,
}

impl<T> Global<T> {
    /// Allocates and initializes the record of a new channel.
    pub fn new(arena: &mut Arena<T>) -> (g: Self)
        ensures
            g.addr() == old(arena)@.len(),
            final(arena)@ == old(arena)@.push(untouched::<T>(true).initialized()),
            old(arena).wf() ==> final(arena).wf(),
    {
        let ptr = arena.allocate();
        arena.lease(ptr);
        assert(arena@ =~= old(arena)@.push(untouched::<T>(true).initialized()));
        Global { ptr, _t: PhantomData }
    }

    /// The address that the handle wraps.
    pub fn to_raw(&self) -> (raw: usize)
        ensures
            raw == self.addr(),
    {
        self.ptr
    }

    /// A handle for an address obtained from `to_raw`. It joins the family
    /// of the handle that the address came from.
    pub fn from_raw(raw: usize) -> (g: Self)
        ensures
            g.addr() == raw,
    {
        Global { ptr: raw, _t: PhantomData }
    }
}

impl<T> Storage<T> for Global<T> {
    closed spec fn addr(&self) -> usize {
        self.ptr
    }

    open spec fn heap(&self) -> bool {
        true
    }

    open spec fn ready(&self) -> bool {
        true
    }

    open spec fn notified(&self) -> bool {
        true
    }

    fn clone(&self) -> (s: Self) {
        Global { ptr: self.ptr, _t: PhantomData }
    }

    fn initialize(&mut self, arena: &mut Arena<T>) {
        arena.lease(self.ptr);
    }

    fn release(&mut self, arena: &mut Arena<T>) {
        arena.free(self.ptr);
    }

    fn as_ref<'a>(&self, arena: &'a Arena<T>) -> (c: &'a Channel<T>) {
        arena.channel(self.ptr)
    }

    fn as_mut<'a>(&self, arena: &'a mut Arena<T>) -> (c: &'a mut Channel<T>) {
        arena.channel_mut(self.ptr)
    }
}

} // verus!
