//! What holds of a channel whatever its parties do, in whatever order.

use vstd::prelude::*;
use crate::channel::{ChannelView, State, WaitContext};
use crate::model::{Event, Family};

verus! {

/// The family after a sequence of events, the first event first.
pub open spec fn run<T>(f: Family<T>, events: Seq<Event<T>>) -> Family<T>
    decreases events.len(),
{
    if events.len() == 0 {
        f
    } else {
        run(f, events.drop_last()).step(events.last())
    }
}

/// The value that the event at position `i` hands to the receiver.
pub open spec fn delivered_at<T>(f: Family<T>, events: Seq<Event<T>>, i: int) -> Option<T> {
    run(f, events.take(i)).delivered(events[i])
}

/// The value that the event at position `i` hands back to the sender.
pub open spec fn returned_at<T>(f: Family<T>, events: Seq<Event<T>>, i: int) -> Option<T> {
    run(f, events.take(i)).returned(events[i])
}

/// How far a state is on the way from open to disconnected.
pub open spec fn rank(s: State) -> nat {
    match s {
        State::Empty | State::Waiting(_) => 0,
        State::MessageReady => 1,
        State::Disconnected => 2,
    }
}

/// A family from which the receiver can never again obtain a value.
pub open spec fn spent<T>(f: Family<T>) -> bool {
    !f.sender && f.message is None
}

/// A channel created on idle memory starts from a fresh record, whatever
/// an earlier channel left there, and the family satisfies its invariant.
pub proof fn lemma_initialize_leaves_no_residue<T>(f: Family<T>)
    requires
        f.wf(),
        f.idle(),
    ensures
        f.initialized().wf(),
        f.initialized().record() == ChannelView::<T>::fresh(),
        f.initialized().leases == f.leases + 1,
        f.initialized().releases == f.releases,
{
}

/// A party that exists finds its record in place: the family is leased and
/// its memory holds the record. No step uses a handle that was invalidated.
pub proof fn lemma_enabled_is_live<T>(f: Family<T>, e: Event<T>)
    requires
        f.wf(),
        f.enabled(e),
    ensures
        f.leased,
        f.resident,
{
}

/// Every step keeps the invariant of the family: the parties that are left
/// fit the state, a message is in the slot exactly while the state says
/// so, and the record was released once less than initialized exactly while
/// it is leased.
pub proof fn lemma_step_preserves_wf<T>(f: Family<T>, e: Event<T>)
    requires
        f.wf(),
    ensures
        f.step(e).wf(),
{
}

/// A step never initializes, releases at most once, and releases only
/// what is leased; after the release nobody is left and no message is in
/// the slot.
pub proof fn lemma_step_releases_once<T>(f: Family<T>, e: Event<T>)
    requires
        f.wf(),
    ensures
        f.step(e).leases == f.leases,
        f.step(e).heap == f.heap,
        f.step(e).releases == f.releases || (f.leased && !f.step(e).leased && f.step(e).releases
            == f.releases + 1),
        !f.step(e).leased ==> f.step(e).message is None && !f.step(e).sender && !f.step(
            e,
        ).receiver && !f.step(e).error,
{
}

/// On a family that is not leased, no event changes anything.
pub proof fn lemma_step_after_release<T>(f: Family<T>, e: Event<T>)
    requires
        f.wf(),
        !f.leased,
    ensures
        f.step(e) == f,
        f.delivered(e) is None,
        f.returned(e) is None,
        f.woken(e) is None,
{
}

/// While the family stays leased its state never goes back: not from ready
/// to open, nor from disconnected to any other.
pub proof fn lemma_step_is_monotonic<T>(f: Family<T>, e: Event<T>)
    requires
        f.wf(),
        f.leased,
    ensures
        rank(f.step(e).state) >= rank(f.state),
{
}

/// When the sender's step leaves a state that held a waiting context, that
/// context is the one to wake; no other step of the sender wakes anything.
pub proof fn lemma_sender_wakes_the_waiter<T>(f: Family<T>, e: Event<T>)
    requires
        f.wf(),
        f.sender,
        e is Send || e is DropSender,
    ensures
        f.woken(e) == f.state.waiter(),
        f.state is Waiting ==> f.woken(e) is Some && !f.step(e).state.open(),
{
}

/// A step hands the receiver nothing but the message in the slot, and
/// takes it out of the slot: the same message cannot be handed out twice.
pub proof fn lemma_delivery_empties_slot<T>(f: Family<T>, e: Event<T>)
    requires
        f.wf(),
        f.delivered(e) is Some,
    ensures
        f.delivered(e) == f.message,
        spent(f.step(e)),
{
}

/// Once the sender is gone and the slot is empty, this stays so, and no
/// step hands the receiver a value.
pub proof fn lemma_spent_stays_spent<T>(f: Family<T>, e: Event<T>)
    requires
        f.wf(),
        spent(f),
    ensures
        spent(f.step(e)),
        f.delivered(e) is None,
{
}

/// A step fills the slot only with the value of a send.
pub proof fn lemma_slot_holds_what_was_sent<T>(f: Family<T>, e: Event<T>)
    requires
        f.wf(),
    ensures
        f.step(e).message is Some ==> f.step(e).message == f.message || e == Event::Send(
            f.step(e).message->0,
        ),
{
}

/// A send that fails hands back the very value it was given, and writes
/// nothing.
pub proof fn lemma_refused_value_comes_back<T>(f: Family<T>, v: T)
    requires
        f.wf(),
        f.sender,
        f.state is Disconnected,
    ensures
        f.returned(Event::Send(v)) == Some(v),
        f.step(Event::Send(v)).message is None,
        f.step(Event::Send(v)).error,
{
}

/// The run over the first `n + 1` events is one step after the run over
/// the first `n`.
pub proof fn lemma_run_unfolds<T>(f: Family<T>, events: Seq<Event<T>>, n: int)
    requires
        0 <= n < events.len(),
    ensures
        run(f, events.take(n + 1)) == run(f, events.take(n)).step(events[n]),
{
    assert(events.take(n + 1).drop_last() =~= events.take(n));
}

/// The invariant of the family holds after every sequence of events.
pub proof fn lemma_run_preserves_wf<T>(f: Family<T>, events: Seq<Event<T>>)
    requires
        f.wf(),
    ensures
        run(f, events).wf(),
    decreases events.len(),
{
    if events.len() > 0 {
        lemma_run_preserves_wf(f, events.drop_last());
        lemma_step_preserves_wf(run(f, events.drop_last()), events.last());
    }
}

/// Whatever the parties do, the record is never initialized again by
/// them, and it is released at most once, and only if it was leased.
pub proof fn lemma_run_releases_once<T>(f: Family<T>, events: Seq<Event<T>>)
    requires
        f.wf(),
    ensures
        run(f, events).leases == f.leases,
        run(f, events).releases == f.releases || (f.leased && !run(f, events).leased && run(
            f,
            events,
        ).releases == f.releases + 1),
    decreases events.len(),
{
    if events.len() > 0 {
        let before = run(f, events.drop_last());
        lemma_run_releases_once(f, events.drop_last());
        lemma_run_preserves_wf(f, events.drop_last());
        lemma_step_releases_once(before, events.last());
        if !before.leased {
            lemma_step_after_release(before, events.last());
        }
    }
}

/// Once the receiver can obtain nothing more, no later event hands it a
/// value.
pub proof fn lemma_run_stays_spent<T>(f: Family<T>, events: Seq<Event<T>>, from: int, to: int)
    requires
        f.wf(),
        0 <= from <= to <= events.len(),
        spent(run(f, events.take(from))),
    ensures
        spent(run(f, events.take(to))),
        to < events.len() ==> delivered_at(f, events, to) is None,
    decreases to - from,
{
    if from < to {
        lemma_run_stays_spent(f, events, from, to - 1);
        lemma_run_preserves_wf(f, events.take(to - 1));
        lemma_run_unfolds(f, events, to - 1);
        lemma_spent_stays_spent(run(f, events.take(to - 1)), events[to - 1]);
    }
    if to < events.len() {
        lemma_run_preserves_wf(f, events.take(to));
        lemma_spent_stays_spent(run(f, events.take(to)), events[to]);
    }
}

/// No duplication: in any sequence of events, at most one event hands the
/// receiver a value.
pub proof fn lemma_at_most_one_delivery<T>(f: Family<T>, events: Seq<Event<T>>, i: int, j: int)
    requires
        f.wf(),
        0 <= i < j < events.len(),
    ensures
        !(delivered_at(f, events, i) is Some && delivered_at(f, events, j) is Some),
{
    if delivered_at(f, events, i) is Some {
        lemma_run_preserves_wf(f, events.take(i));
        lemma_delivery_empties_slot(run(f, events.take(i)), events[i]);
        lemma_run_unfolds(f, events, i);
        lemma_run_stays_spent(f, events, i + 1, j);
    }
}

/// Whatever is in the slot after a sequence of events on a new channel is
/// the value of a send among them.
pub proof fn lemma_run_slot_holds_what_was_sent<T>(f: Family<T>, events: Seq<Event<T>>)
    requires
        f.wf(),
        f.message is None,
    ensures
        run(f, events).message is Some ==> exists|i: int|
            0 <= i < events.len() && events[i] == Event::Send(run(f, events).message->0),
    decreases events.len(),
{
    if events.len() > 0 {
        let before = run(f, events.drop_last());
        lemma_run_slot_holds_what_was_sent(f, events.drop_last());
        lemma_run_preserves_wf(f, events.drop_last());
        lemma_slot_holds_what_was_sent(before, events.last());
        let after = run(f, events);
        if after.message is Some {
            let v = after.message->0;
            if after.message == before.message {
                let i = choose|i: int|
                    0 <= i < events.drop_last().len() && events.drop_last()[i] == Event::Send(v);
                assert(events[i] == Event::Send(v));
            } else {
                assert(events[events.len() - 1] == Event::Send(v));
            }
        }
    }
}

/// No corruption: a value that the receiver obtains is the value of a send
/// that came before.
pub proof fn lemma_delivery_is_what_was_sent<T>(f: Family<T>, events: Seq<Event<T>>, j: int)
    requires
        f.wf(),
        f.message is None,
        0 <= j < events.len(),
        delivered_at(f, events, j) is Some,
    ensures
        exists|i: int| 0 <= i < j && events[i] == Event::Send(delivered_at(f, events, j)->0),
{
    let prefix = events.take(j);
    lemma_run_preserves_wf(f, prefix);
    lemma_delivery_empties_slot(run(f, prefix), events[j]);
    lemma_run_slot_holds_what_was_sent(f, prefix);
    let v = delivered_at(f, events, j)->0;
    let i = choose|i: int| 0 <= i < prefix.len() && prefix[i] == Event::Send(v);
    assert(events[i] == Event::Send(v));
}

/// A value that was handed back to the sender is never handed to the
/// receiver as well.
pub proof fn lemma_returned_is_not_delivered<T>(
    f: Family<T>,
    events: Seq<Event<T>>,
    i: int,
    j: int,
)
    requires
        f.wf(),
        f.message is None,
        0 <= i < events.len(),
        0 <= j < events.len(),
        returned_at(f, events, i) is Some,
    ensures
        delivered_at(f, events, j) is None,
{
    lemma_run_preserves_wf(f, events.take(i));
    let at = run(f, events.take(i));
    if j < i {
        if delivered_at(f, events, j) is Some {
            lemma_run_preserves_wf(f, events.take(j));
            lemma_delivery_empties_slot(run(f, events.take(j)), events[j]);
            lemma_run_unfolds(f, events, j);
            lemma_run_stays_spent(f, events, j + 1, i);
        }
    } else if j > i {
        lemma_run_unfolds(f, events, i);
        lemma_run_stays_spent(f, events, i + 1, j);
    }
}

/// A send on a new channel, followed at once by a receive that does not
/// wait, hands over the value that was sent; a second such receive finds
/// the channel closed and hands over nothing.
pub proof fn lemma_send_then_try_recv<T>(f: Family<T>, v: T)
    requires
        f.wf(),
        f.leased,
        f.state.open(),
    ensures
        f.step(Event::Send(v)).delivered(Event::TryRecv) == Some(v),
        f.step(Event::Send(v)).step(Event::TryRecv).delivered(Event::TryRecv) is None,
        f.step(Event::Send(v)).step(Event::TryRecv).state is Disconnected,
{
}

/// When the sender is dropped before it sent, a receive finds the channel
/// disconnected and reads no value.
pub proof fn lemma_drop_sender_then_recv<T>(f: Family<T>, e: Event<T>)
    requires
        f.wf(),
        f.leased,
        f.state.open(),
    ensures
        f.step(Event::DropSender).state is Disconnected,
        f.step(Event::DropSender).delivered(e) is None,
{
}

/// When the receiver is dropped first, a send fails and hands back the
/// value it was given.
pub proof fn lemma_drop_receiver_then_send<T>(f: Family<T>, v: T)
    requires
        f.wf(),
        f.leased,
        f.state.open(),
    ensures
        f.step(Event::DropReceiver).returned(Event::Send(v)) == Some(v),
{
}

/// A delivery wins against the deadline: when a value was sent, a receive
/// whose deadline has passed still obtains it.
pub proof fn lemma_delivery_beats_deadline<T>(f: Family<T>, v: T, ctx: WaitContext)
    requires
        f.wf(),
        f.leased,
        f.state.open(),
    ensures
        f.step(Event::Send(v)).delivered(Event::RecvTimeout(ctx, true)) == Some(v),
        f.delivered(Event::RecvTimeout(ctx, true)) is None,
        f.step(Event::RecvTimeout(ctx, true)).state is Empty,
{
}

} // verus!
