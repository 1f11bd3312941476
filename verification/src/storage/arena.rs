//! The memory in which channel records live.
//!
//! A storage handle is an address into an arena. The arena owns every
//! record, so a handle can be copied freely and all copies name the same
//! record. Who may still use an address is book-keeping of the proof alone:
//! nothing is counted or tested at run time.

use vstd::prelude::*;
use crate::channel::{Channel, State};
use crate::model::Family;
use crate::storage::external::ChannelStorage;

verus! {

/// The proof's record of one address.
pub ghost struct Ledger {
    pub heap: bool,
    pub leased: bool,
    pub leases: nat,
    pub releases: nat,
}

/// One address of an arena.
pub struct Slot<T> {
    channel: Option<Channel<T>>,
    ledger: Ghost<Ledger>,
}

impl<T> Slot<T> {
    /// The family that lives at this address.
    pub closed spec fn family(&self) -> Family<T> {
        Family {
            heap: self.ledger@.heap,
            resident: self.channel is Some,
            state: match self.channel {
                Some(c) => c@.state,
                None => State::Disconnected,
            },
            message: match self.channel {
                Some(c) => c@.message,
                None => None,
            },
            leased: self.ledger@.leased,
            sender: match self.channel {
                Some(c) => c@.parties.sender,
                None => false,
            },
            receiver: match self.channel {
                Some(c) => c@.parties.receiver,
                None => false,
            },
            error: match self.channel {
                Some(c) => c@.parties.error,
                None => false,
            },
            leases: self.ledger@.leases,
            releases: self.ledger@.releases,
        }
    }
}

/// A family on memory that was just obtained and never used.
pub open spec fn untouched<T>(heap: bool) -> Family<T> {
    Family {
        heap,
        resident: true,
        state: State::Empty,
        message: None,
        leased: false,
        sender: false,
        receiver: false,
        error: false,
        leases: 0,
        releases: 0,
    }
}

/// The memory of all channels of one message type.
pub struct Arena<T> {
    slots: Vec<Slot<T>>,
}

impl<T> View for Arena<T> {
    type V = Seq<Family<T>>;

    closed spec fn view(&self) -> Seq<Family<T>> {
        Seq::new(self.slots@.len(), |i: int| self.slots@[i].family())
    }
}

impl<T> Arena<T> {
    /// Every family of the arena satisfies its invariant.
    pub open spec fn wf(&self) -> bool {
        forall|a: int| 0 <= a < self@.len() ==> (#[trigger] self@[a]).wf()
    }

    /// An arena without any address.
    pub fn new() -> (arena: Self)
        ensures
            arena@ == Seq::<Family<T>>::empty(),
            arena.wf(),
    {
        let arena = Arena { slots: Vec::new() };
        assert(arena@ =~= Seq::<Family<T>>::empty());
        arena
    }

    /// The number of addresses handed out so far.
    pub fn len(&self) -> (n: usize)
        ensures
            n == self@.len(),
    {
        self.slots.len()
    }

    /// Whether the address holds a channel record.
    pub fn is_resident(&self, addr: usize) -> (b: bool)
        ensures
            b == (addr < self@.len() && self@[addr as int].resident),
    {
        addr < self.slots.len() && self.slots[addr].channel.is_some()
    }

    /// Moves a cell that the caller owns into the arena and returns its
    /// address. No channel runs on it yet.
    pub fn place(&mut self, cell: ChannelStorage<T>) -> (addr: usize)
        ensures
            addr == old(self)@.len(),
            final(self)@ == old(self)@.push(untouched::<T>(false)),
            old(self).wf() ==> final(self).wf(),
    {
        let addr = self.slots.len();
        let channel = cell.into_channel();
        let ghost ledger = Ledger {
            heap: false,
            leased: false,
            leases: 0,
            releases: 0,
        };
        self.slots.push(Slot { channel: Some(channel), ledger: Ghost(ledger) });
        assert(self@ =~= old(self)@.push(untouched::<T>(false)));
        addr
    }

    /// Obtains memory for one record from the library's own allocator.
    pub(crate) fn allocate(&mut self) -> (addr: usize)
        ensures
            addr == old(self)@.len(),
            final(self)@ == old(self)@.push(untouched::<T>(true)),
    {
        let addr = self.slots.len();
        let ghost ledger = Ledger {
            heap: true,
            leased: false,
            leases: 0,
            releases: 0,
        };
        self.slots.push(Slot { channel: Some(Channel::new()), ledger: Ghost(ledger) });
        assert(self@ =~= old(self)@.push(untouched::<T>(true)));
        addr
    }

    /// Starts a lease: writes a fresh record at the address and notes that
    /// both halves of a channel now exist.
    pub(crate) fn lease(&mut self, addr: usize)
        requires
            addr < old(self)@.len(),
            old(self)@[addr as int].idle(),
        ensures
            final(self)@ == old(self)@.update(addr as int, old(self)@[addr as int].initialized()),
    {
        let slot = &mut self.slots[addr];
        slot.channel = Some(Channel::paired());
        let ghost ledger = Ledger {
            leased: true,
            leases: slot.ledger@.leases + 1,
            ..slot.ledger@
        };
        slot.ledger = Ghost(ledger);
        assert(self@ =~= old(self)@.update(addr as int, old(self)@[addr as int].initialized()));
    }

    /// Ends the lease on memory that the caller owns. The record stays where
    /// it is; a message left in it is dropped.
    pub(crate) fn end_lease(&mut self, addr: usize)
        requires
            addr < old(self)@.len(),
            old(self)@[addr as int].leased,
            old(self)@[addr as int].resident,
            !old(self)@[addr as int].heap,
        ensures
            final(self)@ == old(self)@.update(addr as int, old(self)@[addr as int].released()),
    {
        let slot = &mut self.slots[addr];
        slot.channel.as_mut().unwrap().close();
        slot.ledger = Ghost(Self::settled(slot.ledger@));
        assert(self@ =~= old(self)@.update(addr as int, old(self)@[addr as int].released()));
    }

    /// Ends the lease on memory that the library allocated, and gives the
    /// memory back. The record is dropped, and a message left in it with it.
    pub(crate) fn free(&mut self, addr: usize)
        requires
            addr < old(self)@.len(),
            old(self)@[addr as int].leased,
            old(self)@[addr as int].heap,
        ensures
            final(self)@ == old(self)@.update(addr as int, old(self)@[addr as int].released()),
    {
        let slot = &mut self.slots[addr];
        slot.channel = None;
        slot.ledger = Ghost(Self::settled(slot.ledger@));
        assert(self@ =~= old(self)@.update(addr as int, old(self)@[addr as int].released()));
    }

    /// The ledger of an address after a release.
    pub(crate) open spec fn settled(ledger: Ledger) -> Ledger {
        Ledger { leased: false, releases: ledger.releases + 1, ..ledger }
    }

    /// A shared view of the record at an address.
    pub fn channel(&self, addr: usize) -> (c: &Channel<T>)
        requires
            addr < self@.len(),
            self@[addr as int].resident,
        ensures
            c@ == self@[addr as int].record(),
    {
        self.slots[addr].channel.as_ref().unwrap()
    }

    /// The record at an address, for one step of its state machine.
    pub(crate) fn channel_mut(&mut self, addr: usize) -> (c: &mut Channel<T>)
        requires
            addr < old(self)@.len(),
            old(self)@[addr as int].resident,
        ensures
            c@ == old(self)@[addr as int].record(),
            final(self)@ =~= old(self)@.update(
                addr as int,
                old(self)@[addr as int].with_record(final(c)@),
            ),
    {
        let slot = &mut self.slots[addr];
        slot.channel.as_mut().unwrap()
    }
}

} // verus!
