use oneshot::{
    channel, channel_with_storage, Arena, Channel, ChannelStorage, Global, RecvAttempt, State,
    TryRecvError, WaitContext,
};
use std::cell::Cell;

fn recv_now<T, S: oneshot::Storage<T>>(
    rx: oneshot::Receiver<T, S>,
    arena: &mut Arena<T>,
) -> Result<T, oneshot::RecvError> {
    match rx.recv(arena, WaitContext::Thread(0)) {
        RecvAttempt::Resolved(outcome) => outcome,
        RecvAttempt::Suspended(_) => panic!("the outcome was not decided"),
    }
}

#[test]
fn external_storage_is_reused_without_residue() {
    let mut arena = Arena::new();
    let cell = arena.place(ChannelStorage::new());
    let released = Cell::new(0);
    let note = |_: usize| released.set(released.get() + 1);

    let (tx, rx) = channel_with_storage(&mut arena, cell, note);
    assert!(tx.send(&mut arena, 1).is_ok());
    assert_eq!(recv_now(rx, &mut arena), Ok(1));
    assert_eq!(released.get(), 1);
    assert!(arena.is_resident(cell));

    let (tx, rx) = channel_with_storage(&mut arena, cell, note);
    assert_eq!(arena.channel(cell).state(), State::Empty);
    assert_eq!(rx.try_recv(&mut arena), Err(TryRecvError::Empty));
    assert!(tx.send(&mut arena, 2).is_ok());
    assert_eq!(recv_now(rx, &mut arena), Ok(2));
    assert_eq!(released.get(), 2);
    assert_eq!(arena.len(), 1);
}

#[test]
fn external_storage_embedded_and_reused() {
    let mut arena = Arena::<usize>::new();
    let cell = arena.place(ChannelStorage::new());
    let mut generation = 0;

    let (sender, receiver) = channel_with_storage(&mut arena, cell, |_| {});
    assert!(sender.send(&mut arena, 1234).is_ok());
    assert_eq!(recv_now(receiver, &mut arena), Ok(1234));
    generation += 1;

    let (sender, receiver) = channel_with_storage(&mut arena, cell, |_| {});
    assert!(sender.send(&mut arena, 5678).is_ok());
    assert_eq!(recv_now(receiver, &mut arena), Ok(5678));
    assert_eq!(generation, 1);
}

#[test]
fn release_callback_gets_the_address_of_the_cell() {
    let mut arena = Arena::<u8>::new();
    let _first = arena.place(ChannelStorage::new());
    let second = arena.place(ChannelStorage::new());
    let seen = Cell::new(None);
    let (tx, rx) = channel_with_storage(&mut arena, second, |addr| seen.set(Some(addr)));
    assert_eq!(tx.drop(&mut arena), None);
    assert_eq!(seen.get(), None);
    rx.drop(&mut arena);
    assert_eq!(seen.get(), Some(second));
}

#[test]
fn release_callback_runs_once_on_every_path() {
    let released = Cell::new(0);
    let note = |_: usize| released.set(released.get() + 1);
    let mut arena = Arena::<u8>::new();
    let cell = arena.place(ChannelStorage::new());

    let (tx, rx) = channel_with_storage(&mut arena, cell, note);
    rx.drop(&mut arena);
    assert_eq!(released.get(), 0);
    let error = tx.send(&mut arena, 7).err().unwrap();
    assert_eq!(released.get(), 0);
    assert_eq!(*error.as_inner(), 7);
    assert_eq!(error.into_inner(&mut arena), 7);
    assert_eq!(released.get(), 1);

    let (tx, rx) = channel_with_storage(&mut arena, cell, note);
    rx.drop(&mut arena);
    tx.send(&mut arena, 8).err().unwrap().drop(&mut arena);
    assert_eq!(released.get(), 2);

    let (tx, rx) = channel_with_storage(&mut arena, cell, note);
    assert!(tx.send(&mut arena, 9).is_ok());
    rx.drop(&mut arena);
    assert_eq!(released.get(), 3);
    assert_eq!(arena.channel(cell).state(), State::Disconnected);
}

#[test]
fn global_storage_allocates_one_record_per_channel() {
    let mut arena = Arena::<u8>::new();
    assert_eq!(arena.len(), 0);
    let first = Global::new(&mut arena);
    let second = Global::new(&mut arena);
    assert_eq!(first.to_raw(), 0);
    assert_eq!(second.to_raw(), 1);
    assert_eq!(arena.len(), 2);
    assert!(arena.is_resident(0));
    assert!(arena.is_resident(1));
    assert!(!arena.is_resident(2));
    assert_eq!(arena.channel(1).state(), State::Empty);
}

#[test]
fn global_handle_survives_a_round_trip_through_its_address() {
    let mut arena = Arena::<u8>::new();
    let handle = Global::new(&mut arena);
    let raw = handle.to_raw();
    let again = Global::<u8>::from_raw(raw);
    assert_eq!(again.to_raw(), raw);
}

#[test]
fn channels_in_one_arena_do_not_touch_each_other() {
    let mut arena = Arena::new();
    let (tx_a, rx_a) = channel(&mut arena);
    let cell = arena.place(ChannelStorage::new());
    let (tx_b, rx_b) = channel_with_storage(&mut arena, cell, |_| {});
    assert!(tx_b.send(&mut arena, 2).is_ok());
    assert_eq!(rx_a.try_recv(&mut arena), Err(TryRecvError::Empty));
    assert!(tx_a.send(&mut arena, 1).is_ok());
    assert_eq!(rx_b.try_recv(&mut arena), Ok(2));
    assert_eq!(rx_a.try_recv(&mut arena), Ok(1));
    rx_a.drop(&mut arena);
    rx_b.drop(&mut arena);
    assert!(!arena.is_resident(0));
    assert!(arena.is_resident(cell));
}

#[test]
fn channel_record_steps() {
    let mut record = Channel::paired();
    assert_eq!(record.state(), State::Empty);
    assert!(record.register(WaitContext::Task(1)));
    assert_eq!(record.state().waiting_context(), Some(WaitContext::Task(1)));
    assert!(record.unregister());
    assert_eq!(record.state(), State::Empty);
    assert_eq!(record.take_message(), None);
    assert_eq!(record.send(5), Ok(None));
    assert!(!record.register(WaitContext::Task(2)));
    assert!(!record.unregister());
    assert!(!record.state().is_open());
    assert_eq!(record.take_message(), Some(5));
    assert_eq!(record.state(), State::Disconnected);
    assert_eq!(record.disconnect_receiver(), State::Disconnected);
    record.close();
    assert_eq!(record.state(), State::Disconnected);

    let mut other = Channel::paired();
    assert_eq!(other.disconnect_receiver(), State::Empty);
    assert_eq!(other.send(6), Err(6));
    let mut third = Channel::<u8>::paired();
    assert!(third.register(WaitContext::Thread(3)));
    assert_eq!(third.disconnect_sender(), State::Waiting(WaitContext::Thread(3)));
    assert_eq!(Channel::<u8>::new().state(), State::Empty);
}

#[test]
fn default_cell_is_inert() {
    let mut arena = Arena::<u8>::new();
    let cell = arena.place(ChannelStorage::default());
    assert!(arena.is_resident(cell));
    assert_eq!(arena.channel(cell).state(), State::Empty);
    let (tx, rx) = channel_with_storage(&mut arena, cell, |_| {});
    assert!(tx.send(&mut arena, 3).is_ok());
    assert_eq!(recv_now(rx, &mut arena), Ok(3));
}

#[test]
fn release_callback_waits_for_a_timed_out_receiver() {
    let released = Cell::new(0);
    let mut arena = Arena::<usize>::new();
    let cell = arena.place(ChannelStorage::new());
    let (tx, rx) =
        channel_with_storage(&mut arena, cell, |_| released.set(released.get() + 1));
    let ctx = WaitContext::Thread(2);
    assert_eq!(
        rx.recv_timeout(&mut arena, ctx, true),
        oneshot::Poll::Ready(Err(oneshot::RecvTimeoutError::Timeout))
    );
    assert_eq!(released.get(), 0);
    rx.drop(&mut arena);
    assert_eq!(released.get(), 0);
    assert_eq!(tx.drop(&mut arena), None);
    assert_eq!(released.get(), 1);
}

#[test]
fn release_callback_runs_after_the_unread_message_is_dropped() {
    let value = std::rc::Rc::new(0u8);
    let left = Cell::new(0);
    let mut arena = Arena::new();
    let cell = arena.place(ChannelStorage::new());
    let (tx, rx) = channel_with_storage(&mut arena, cell, |_| {
        left.set(std::rc::Rc::strong_count(&value))
    });
    assert!(tx.send(&mut arena, value.clone()).is_ok());
    assert_eq!(std::rc::Rc::strong_count(&value), 2);
    rx.drop(&mut arena);
    assert_eq!(left.get(), 1);
}
