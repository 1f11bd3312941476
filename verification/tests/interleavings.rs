use oneshot::{
    channel, channel_with_storage, Arena, ChannelStorage, Poll, Receiver, RecvAttempt, SendError,
    Sender, Storage, WaitContext,
};
use std::cell::Cell;
use std::rc::Rc;

const SENT: u32 = 0xfeed;

/// What is left of a channel while a sequence of operations runs on it.
struct Parties<S: Storage<Rc<u32>>> {
    sender: Option<Sender<Rc<u32>, S>>,
    receiver: Option<Receiver<Rc<u32>, S>>,
    error: Option<SendError<Rc<u32>, S>>,
    deliveries: u32,
    returns: u32,
}

/// Runs one operation, if the party it belongs to still exists.
fn apply<S: Storage<Rc<u32>>>(
    op: u32,
    arena: &mut Arena<Rc<u32>>,
    parties: &mut Parties<S>,
    value: &Rc<u32>,
) {
    let ctx = WaitContext::Thread(1);
    match op {
        0 => {
            if let Some(tx) = parties.sender.take() {
                if let Err(e) = tx.send(arena, value.clone()) {
                    assert_eq!(**e.as_inner(), SENT);
                    parties.error = Some(e);
                }
            }
        }
        1 => {
            if let Some(tx) = parties.sender.take() {
                tx.drop(arena);
            }
        }
        2 => {
            if let Some(rx) = parties.receiver.as_ref() {
                if let Ok(v) = rx.try_recv(arena) {
                    assert_eq!(*v, SENT);
                    parties.deliveries += 1;
                }
            }
        }
        3 => {
            if let Some(rx) = parties.receiver.as_ref() {
                if let Poll::Ready(Ok(v)) = rx.poll(arena, WaitContext::Task(2)) {
                    assert_eq!(*v, SENT);
                    parties.deliveries += 1;
                }
            }
        }
        4 => {
            if let Some(rx) = parties.receiver.take() {
                match rx.recv(arena, ctx) {
                    RecvAttempt::Resolved(Ok(v)) => {
                        assert_eq!(*v, SENT);
                        parties.deliveries += 1;
                    }
                    RecvAttempt::Resolved(Err(_)) => {}
                    RecvAttempt::Suspended(rx) => parties.receiver = Some(rx),
                }
            }
        }
        5 | 6 => {
            if let Some(rx) = parties.receiver.as_ref() {
                if let Poll::Ready(Ok(v)) = rx.recv_timeout(arena, ctx, op == 6) {
                    assert_eq!(*v, SENT);
                    parties.deliveries += 1;
                }
            }
        }
        7 => {
            if let Some(rx) = parties.receiver.take() {
                rx.drop(arena);
            }
        }
        8 => {
            if let Some(e) = parties.error.take() {
                assert_eq!(*e.into_inner(arena), SENT);
                parties.returns += 1;
            }
        }
        _ => {
            if let Some(e) = parties.error.take() {
                e.drop(arena);
            }
        }
    }
}

/// Gives up whatever is left, the sender first or the receiver first.
fn finish<S: Storage<Rc<u32>>>(
    arena: &mut Arena<Rc<u32>>,
    parties: &mut Parties<S>,
    sender_first: bool,
    value: &Rc<u32>,
) {
    let order = if sender_first { [1, 7, 9] } else { [7, 1, 9] };
    for op in order {
        apply(op, arena, parties, value);
    }
}

fn assert_clean<S: Storage<Rc<u32>>>(parties: &Parties<S>, value: &Rc<u32>) {
    assert!(parties.deliveries <= 1);
    assert!(parties.returns <= 1);
    assert!(parties.deliveries + parties.returns <= 1);
    assert_eq!(Rc::strong_count(value), 1);
}

fn sequences(length: u32) -> Vec<Vec<u32>> {
    let mut all = vec![vec![]];
    for _ in 0..length {
        let mut longer = Vec::new();
        for prefix in &all {
            for op in 0..10 {
                let mut next = prefix.clone();
                next.push(op);
                longer.push(next);
            }
        }
        all = longer;
    }
    all
}

#[test]
fn every_short_interleaving_on_global_storage_is_clean() {
    for ops in sequences(4) {
        for sender_first in [true, false] {
            let value = Rc::new(SENT);
            let mut arena = Arena::new();
            let (tx, rx) = channel(&mut arena);
            let mut parties =
                Parties { sender: Some(tx), receiver: Some(rx), error: None, deliveries: 0, returns: 0 };
            for op in &ops {
                apply(*op, &mut arena, &mut parties, &value);
                let alive = parties.sender.is_some()
                    || parties.receiver.is_some()
                    || parties.error.is_some();
                assert_eq!(arena.is_resident(0), alive);
            }
            finish(&mut arena, &mut parties, sender_first, &value);
            assert!(!arena.is_resident(0));
            assert_clean(&parties, &value);
        }
    }
}

#[test]
fn every_short_interleaving_on_external_storage_releases_once() {
    for ops in sequences(4) {
        for sender_first in [true, false] {
            let value = Rc::new(SENT);
            let released = Cell::new(0);
            let mut arena = Arena::new();
            let cell = arena.place(ChannelStorage::new());
            let (tx, rx) =
                channel_with_storage(&mut arena, cell, |_| released.set(released.get() + 1));
            let mut parties =
                Parties { sender: Some(tx), receiver: Some(rx), error: None, deliveries: 0, returns: 0 };
            for op in &ops {
                apply(*op, &mut arena, &mut parties, &value);
                let alive = parties.sender.is_some()
                    || parties.receiver.is_some()
                    || parties.error.is_some();
                assert_eq!(released.get(), if alive { 0 } else { 1 });
            }
            finish(&mut arena, &mut parties, sender_first, &value);
            assert_eq!(released.get(), 1);
            assert!(arena.is_resident(cell));
            assert_clean(&parties, &value);
        }
    }
}

#[test]
fn a_sent_value_is_delivered_returned_or_dropped() {
    for ops in sequences(3) {
        let value = Rc::new(SENT);
        let mut arena = Arena::new();
        let (tx, rx) = channel(&mut arena);
        let mut parties =
            Parties { sender: Some(tx), receiver: Some(rx), error: None, deliveries: 0, returns: 0 };
        apply(0, &mut arena, &mut parties, &value);
        assert!(parties.sender.is_none());
        for op in &ops {
            apply(*op, &mut arena, &mut parties, &value);
        }
        let receiver_left = parties.receiver.is_some();
        if receiver_left && parties.deliveries == 0 {
            assert_eq!(Rc::strong_count(&value), 2);
        }
        finish(&mut arena, &mut parties, true, &value);
        assert_clean(&parties, &value);
    }
}
