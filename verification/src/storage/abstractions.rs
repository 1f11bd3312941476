//! The capability through which the two halves of a channel reach their
//! shared record.

use vstd::prelude::*;
use crate::channel::Channel;
use crate::storage::arena::Arena;

verus! {

/// A handle that behaves as a bare pointer to the record of a channel.
///
/// It can be cloned freely; every clone names the same record. Dropping a
/// handle does nothing to the record. Nothing is tested at run time: the
/// obligations of each operation are its preconditions.
pub trait Storage<T>: Sized {
    /// The address that the handle names.
    spec fn addr(&self) -> usize;

    /// Whether the handle manages memory that the library allocated.
    spec fn heap(&self) -> bool;

    /// What the handle itself must satisfy for its operations to be called.
    spec fn ready(&self) -> bool;

    /// What is known of the owner of the memory once the family has been
    /// released: for memory that the caller owns, that the caller's callback
    /// has run on the address of the cell.
    spec fn notified(&self) -> bool;

    /// Another handle to the same record.
    fn clone(&self) -> (s: Self)
        ensures
            s == *self,
    ;

    /// Places a fresh record at the handle's address. Once per family,
    /// before any dereference.
    fn initialize(&mut self, arena: &mut Arena<T>)
        requires
            old(self).ready(),
            old(self).addr() < old(arena)@.len(),
            old(arena)@[old(self).addr() as int].heap == old(self).heap(),
            old(arena)@[old(self).addr() as int].idle(),
        ensures
            *final(self) == *old(self),
            final(arena)@ == old(arena)@.update(
                old(self).addr() as int,
                old(arena)@[old(self).addr() as int].initialized(),
            ),
    ;

    /// Tears the record down, dropping an unread message, invalidates every
    /// clone of the handle, and tells the owner of the memory. Once per
    /// family.
    fn release(&mut self, arena: &mut Arena<T>)
        requires
            old(self).ready(),
            old(self).addr() < old(arena)@.len(),
            old(arena)@[old(self).addr() as int].heap == old(self).heap(),
            old(arena)@[old(self).addr() as int].leased,
            old(arena)@[old(self).addr() as int].resident,
        ensures
            *final(self) == *old(self),
            final(arena)@ == old(arena)@.update(
                old(self).addr() as int,
                old(arena)@[old(self).addr() as int].released(),
            ),
            old(self).notified(),
    ;

    /// A shared view of the record. Only between initialization and release.
    fn as_ref<'a>(&self, arena: &'a Arena<T>) -> (c: &'a Channel<T>)
        requires
            self.ready(),
            self.addr() < arena@.len(),
            arena@[self.addr() as int].heap == self.heap(),
            arena@[self.addr() as int].leased,
            arena@[self.addr() as int].resident,
        ensures
            c@ == arena@[self.addr() as int].record(),
    ;

    /// The record, for one indivisible step of its state machine. Only
    /// between initialization and release.
    fn as_mut<'a>(&self, arena: &'a mut Arena<T>) -> (c: &'a mut Channel<T>)
        requires
            self.ready(),
            self.addr() < old(arena)@.len(),
            old(arena)@[self.addr() as int].heap == self.heap(),
            old(arena)@[self.addr() as int].leased,
            old(arena)@[self.addr() as int].resident,
        ensures
            c@ == old(arena)@[self.addr() as int].record(),
            final(arena)@ == old(arena)@.update(
                self.addr() as int,
                old(arena)@[self.addr() as int].with_record(final(c)@),
            ),
    ;
}

/// The handle names an address of the arena, and memory of its own kind.
pub open spec fn attached<T, S: Storage<T>>(s: &S, arena: &Arena<T>) -> bool {
    &&& s.ready()
    &&& s.addr() < arena@.len()
    &&& arena@[s.addr() as int].heap == s.heap()
}

} // verus!
