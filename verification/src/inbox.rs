//! The receiving end of a channel, with a record of what it answered.
use std::sync::mpsc::{Receiver, TryRecvError};
use vstd::prelude::*;

verus! {

/// The receiving end of a channel of the standard library.
#[verifier::external_type_specification]
#[verifier::external_body]
#[verifier::reject_recursive_types(T)]
pub struct ExReceiver<T>(std::sync::mpsc::Receiver<T>);

/// Why nothing was received from a channel of the standard library: it is empty, or it is closed.
#[verifier::external_type_specification]
pub struct ExTryRecvError(std::sync::mpsc::TryRecvError);

/// `std::sync::mpsc::Receiver::try_recv` takes the item that waits longest in the channel, if any
/// does. What waits depends on the other threads, so nothing is claimed of the result.
pub assume_specification<T>[ Receiver::<T>::try_recv ](recv: &Receiver<T>) -> (answer: Result<
    T,
    TryRecvError,
>);

/// A receiving end, and what the channel answered each time that it was asked for an item through
/// this inbox, oldest first.
#[verifier::reject_recursive_types(T)]
pub struct Inbox<T> {
    recv: Receiver<T>,
    answers: Ghost<Seq<Result<T, TryRecvError>>>,
}

impl<T> Inbox<T> {
    /// The channel itself.
    pub closed spec fn channel(&self) -> Receiver<T> {
        self.recv
    }

    /// What the channel has answered through this inbox, oldest first.
    pub closed spec fn answers(&self) -> Seq<Result<T, TryRecvError>> {
        self.answers@
    }

    /// An inbox through which the channel is yet to be asked.
    pub(crate) fn new(recv: Receiver<T>) -> (inbox: Inbox<T>)
        ensures
            inbox.channel() == recv,
            inbox.answers() == Seq::<Result<T, TryRecvError>>::empty(),
    {
        Inbox { recv, answers: Ghost(Seq::empty()) }
    }

    /// Asks the channel for an item, gives its answer and records it.
    pub(crate) fn ask(&mut self) -> (answer: Result<T, TryRecvError>)
        ensures
            call_ensures(Receiver::<T>::try_recv, (&old(self).channel(),), answer),
            final(self).answers() == old(self).answers().push(answer),
            final(self).channel() == old(self).channel(),
    {
        let answer = self.recv.try_recv();
        self.answers = Ghost(self.answers@.push(answer));
        answer
    }
}

/// The items among a channel's answers, in order.
pub open spec fn items_of<T>(answers: Seq<Result<T, TryRecvError>>) -> Seq<T>
    decreases answers.len(),
{
    if answers.len() == 0 {
        Seq::empty()
    } else {
        let before = items_of(answers.drop_last());
        match answers.last() {
            Ok(item) => before.push(item),
            Err(_) => before,
        }
    }
}

/// The items among the answers of two periods are those of the first and then those of the second.
pub proof fn lemma_items_of_both<T>(
    first: Seq<Result<T, TryRecvError>>,
    second: Seq<Result<T, TryRecvError>>,
)
    ensures
        items_of(first + second) == items_of(first) + items_of(second),
    decreases second.len(),
{
    let both = first + second;
    if second.len() == 0 {
        assert(both =~= first);
    } else {
        lemma_items_of_both(first, second.drop_last());
        assert(both.drop_last() =~= first + second.drop_last());
    }
}

} // verus!
