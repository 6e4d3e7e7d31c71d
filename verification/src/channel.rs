//! The channel by which the application's own events reach its event loop.
use crate::inbox::{items_of, lemma_items_of_both, Inbox};
use std::sync::mpsc::{Receiver, SendError, Sender, TryRecvError};
use vstd::prelude::*;

verus! {

/// The sending end of a channel of the standard library.
#[verifier::external_type_specification]
#[verifier::external_body]
#[verifier::reject_recursive_types(T)]
pub struct ExSender<T>(std::sync::mpsc::Sender<T>);

/// The error of an event that a channel of the standard library did not take: the event itself.
#[verifier::external_type_specification]
#[verifier::reject_recursive_types(T)]
pub struct ExSendError<T>(std::sync::mpsc::SendError<T>);

/// `std::sync::mpsc::channel` makes a channel and gives its two ends. Nothing more is claimed of
/// them: what is sent by the one and received by the other depends on the threads.
pub assume_specification<T>[ std::sync::mpsc::channel::<T> ]() -> (ends: (Sender<T>, Receiver<T>));

/// `<std::sync::mpsc::Sender as Clone>::clone` makes another sending end. Nothing is claimed of
/// it.
pub assume_specification<T>[ <Sender<T> as Clone>::clone ](sender: &Sender<T>) -> (other: Sender<T>);

/// `std::sync::mpsc::Sender::send` hands an event to the channel. If the receiving end is gone,
/// it gives back the very event. Whether it is gone depends on the other threads and is left
/// open.
pub assume_specification<T>[ Sender::<T>::send ](sender: &Sender<T>, event: T) -> (sent: Result<
    (),
    SendError<T>,
>)
    ensures
        sent matches Err(unsent) ==> unsent.0 == event,
;

/// A receiving end that can hold one item taken from the channel beforehand.
#[verifier::reject_recursive_types(T)]
pub struct PeekableReceiver<T> {
    recv: Inbox<T>,
    first: Option<T>,
}

impl<T> PeekableReceiver<T> {
    /// The item taken from the channel beforehand.
    pub closed spec fn peeked(&self) -> Option<T> {
        self.first
    }

    /// The channel itself.
    pub closed spec fn channel(&self) -> Receiver<T> {
        self.recv.channel()
    }

    /// What the channel has answered through this receiver, oldest first.
    pub closed spec fn answers(&self) -> Seq<Result<T, TryRecvError>> {
        self.recv.answers()
    }

    /// A receiver on the channel, with nothing taken from it yet.
    pub fn from_recv(recv: Receiver<T>) -> (receiver: PeekableReceiver<T>)
        ensures
            receiver.peeked() is None,
            receiver.channel() == recv,
            receiver.answers() == Seq::<Result<T, TryRecvError>>::empty(),
    {
        PeekableReceiver { recv: Inbox::new(recv), first: None }
    }

    /// Takes the item held beforehand, and then leaves the channel alone. With none held, asks the
    /// channel once and gives its answer.
    pub fn try_recv(&mut self) -> (received: Result<T, TryRecvError>)
        ensures
            receives(
                old(self).peeked(),
                old(self).answers(),
                received,
                final(self).peeked(),
                final(self).answers(),
            ),
            old(self).peeked() is None ==> call_ensures(
                Receiver::<T>::try_recv,
                (&old(self).channel(),),
                received,
            ),
            final(self).channel() == old(self).channel(),
    {
        if let Some(first) = self.first.take() {
            return Ok(first);
        }
        self.recv.ask()
    }
}

/// Whether `received` is what a receiver gives that holds `held` and whose channel has answered
/// `answers`, and `held_after` and `answers_after` are what it holds and what its channel has
/// answered then. An item that is held is given, and the channel is left alone; otherwise the
/// channel is asked once, and its answer is given.
pub open spec fn receives<T>(
    held: Option<T>,
    answers: Seq<Result<T, TryRecvError>>,
    received: Result<T, TryRecvError>,
    held_after: Option<T>,
    answers_after: Seq<Result<T, TryRecvError>>,
) -> bool {
    &&& held_after is None
    &&& match held {
        Some(first) => received == Ok::<T, TryRecvError>(first) && answers_after == answers,
        None => answers_after == answers.push(received),
    }
}

// ---------------------------------------------------------------------------------------------
// Laws
// ---------------------------------------------------------------------------------------------

/// Whether `received` is what a receiver gives in a series of calls, oldest first. `held` and
/// `answers` are what it holds and what its channel has answered before each call, and at the end.
pub open spec fn is_run<T>(
    held: Seq<Option<T>>,
    answers: Seq<Seq<Result<T, TryRecvError>>>,
    received: Seq<Result<T, TryRecvError>>,
) -> bool {
    &&& held.len() == received.len() + 1
    &&& answers.len() == received.len() + 1
    &&& forall|i: int|
        0 <= i < received.len() ==> receives(
            held[i],
            answers[i],
            #[trigger] received[i],
            held[i + 1],
            answers[i + 1],
        )
}

/// What the channel answered during a series of calls.
pub open spec fn answered<T>(answers: Seq<Seq<Result<T, TryRecvError>>>) -> Seq<
    Result<T, TryRecvError>,
> {
    answers.last().skip(answers[0].len() as int)
}

/// The item held, if any.
pub open spec fn held_items<T>(held: Option<T>) -> Seq<T> {
    match held {
        Some(first) => seq![first],
        None => Seq::empty(),
    }
}

/// Over any series of calls, the receiver gives the item held at first, then the channel's items
/// in order, each once: what it gave and what it still holds is what it held and what the channel
/// handed out. Each call but the one that gives the held item asks the channel once.
pub proof fn law_received_in_order<T>(
    held: Seq<Option<T>>,
    answers: Seq<Seq<Result<T, TryRecvError>>>,
    received: Seq<Result<T, TryRecvError>>,
)
    requires
        is_run(held, answers, received),
    ensures
        answers[0].is_prefix_of(answers.last()),
        items_of(received) + held_items(held.last()) == held_items(held[0]) + items_of(
            answered(answers),
        ),
        received.len() > 0 ==> held.last() is None && items_of(received) == held_items(held[0])
            + items_of(answered(answers)),
        received.len() + held_items(held.last()).len() == held_items(held[0]).len() + answered(
            answers,
        ).len(),
{
    lemma_run(held, answers, received);
    if received.len() > 0 {
        if let Some(first) = held[0] {
            let given = seq![Ok::<T, TryRecvError>(first)];
            lemma_items_of_both(given, answered(answers));
            assert(items_of(given.drop_last()) =~= Seq::<T>::empty());
        }
    }
}

/// Whether a channel in which `pending` waits, oldest first, and into which nothing is sent
/// meanwhile, gives `answers`: the items in order, and then none.
pub open spec fn drains<T>(pending: Seq<T>, answers: Seq<Result<T, TryRecvError>>) -> bool {
    forall|i: int|
        0 <= i < answers.len() ==> if i < pending.len() {
            #[trigger] answers[i] == Ok::<T, TryRecvError>(pending[i])
        } else {
            answers[i] is Err
        }
}

/// What follows the first `n` items of a sequence.
pub open spec fn rest<T>(items: Seq<T>, n: nat) -> Seq<T> {
    if n < items.len() {
        items.skip(n as int)
    } else {
        Seq::empty()
    }
}

/// While nothing is sent, the receiver gives the item held at first and then those that wait in
/// the channel, oldest first; after the last it gives only errors, those of the channel. What is
/// still held and what still waits is exactly the rest, in the same order.
pub proof fn law_nothing_is_lost_or_repeated<T>(
    held: Seq<Option<T>>,
    answers: Seq<Seq<Result<T, TryRecvError>>>,
    received: Seq<Result<T, TryRecvError>>,
    pending: Seq<T>,
)
    requires
        is_run(held, answers, received),
        drains(pending, answered(answers)),
    ensures
        forall|n: int|
            0 <= n < received.len() ==> {
                let all = held_items(held[0]) + pending;
                if n < all.len() {
                    #[trigger] received[n] == Ok::<T, TryRecvError>(all[n])
                } else {
                    &&& received[n] is Err
                    &&& received[n] == answered(answers)[n - held_items(held[0]).len()]
                }
            },
        held_items(held.last()) + rest(pending, answered(answers).len()) == rest(
            held_items(held[0]) + pending,
            received.len(),
        ),
{
    lemma_run(held, answers, received);
    law_received_in_order(held, answers, received);
}

/// A series of calls gives the item held at first, if there is one, and then the channel's
/// answers.
proof fn lemma_run<T>(
    held: Seq<Option<T>>,
    answers: Seq<Seq<Result<T, TryRecvError>>>,
    received: Seq<Result<T, TryRecvError>>,
)
    requires
        is_run(held, answers, received),
    ensures
        answers[0].is_prefix_of(answers.last()),
        received.len() > 0 ==> held.last() is None,
        received.len() == 0 ==> answered(answers).len() == 0,
        received.len() > 0 ==> received == match held[0] {
            Some(first) => seq![Ok::<T, TryRecvError>(first)] + answered(answers),
            None => answered(answers),
        },
    decreases received.len(),
{
    if received.len() > 0 {
        let end = received.len() - 1;
        let (h, a, g) = (held.drop_last(), answers.drop_last(), received.drop_last());
        assert(forall|i: int| 0 <= i < g.len() ==> #[trigger] g[i] == received[i]);
        lemma_run(h, a, g);
        assert(received =~= g.push(received[end]));
    }
}

} // verus!
