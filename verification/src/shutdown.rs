//! Noticing that a monitoring thread is to end.
use std::sync::mpsc::{Receiver, TryRecvError};
use vstd::prelude::*;

verus! {

/// The receiving end of a channel of the standard library, `std::sync::mpsc::Receiver`. Nothing
/// is claimed of what is in the channel: other threads put messages in and hang up at any time.
#[verifier::external_type_specification]
#[verifier::external_body]
#[verifier::reject_recursive_types(T)]
pub struct ExReceiver<T>(Receiver<T>);

/// What looking at a channel without waiting has shown.
#[derive(Copy, Clone, Debug, PartialEq, Eq, Structural)]
pub enum ChannelPoll {
    /// There was a message, which has been taken out.
    Message,
    /// There was no message, but one can still come.
    Empty,
    /// There was no message and none can come: the other end is gone.
    Disconnected,
}

/// Calls `std::sync::mpsc::Receiver::try_recv` and says which of its three answers came back.
/// Which one it is depends on what other threads have done, so nothing is claimed of it.
#[verifier::external_body]
fn poll_channel(receiver: &Receiver<()>) -> (poll: ChannelPoll) {
    match receiver.try_recv() {
        Ok(()) => ChannelPoll::Message,
        Err(TryRecvError::Empty) => ChannelPoll::Empty,
        Err(TryRecvError::Disconnected) => ChannelPoll::Disconnected,
    }
}

/// Whether `poll` is an answer to looking at the channel of `receiver`. Which answers there are is
/// left open, since other threads decide that; two looks at one channel may have different ones.
pub closed spec fn shown_by(receiver: &Receiver<()>, poll: ChannelPoll) -> bool {
    call_ensures(poll_channel, (receiver,), poll)
}

/// Whether a thread is to end, given what its shutdown channel has shown: it is to end when it is
/// told to, and also when nobody is left who could tell it.
pub fn is_shutdown(poll: ChannelPoll) -> (shutdown: bool)
    ensures
        shutdown == (poll is Message || poll is Disconnected),
{
    match poll {
        ChannelPoll::Message | ChannelPoll::Disconnected => true,
        ChannelPoll::Empty => false,
    }
}

/// Looks at the shutdown channel of a thread, without waiting, and says whether the thread is to
/// end: it is when this channel holds a message, or when the other end of it is gone.
pub fn check_shutdown(shutdown_rx: &Receiver<()>) -> (shutdown: bool)
    ensures
        exists|poll: ChannelPoll| #[trigger]
            shown_by(shutdown_rx, poll) && shutdown == (poll is Message || poll is Disconnected),
{
    let poll = poll_channel(shutdown_rx);
    assert(shown_by(shutdown_rx, poll));
    is_shutdown(poll)
}

/// A thread goes on exactly where its shutdown channel is empty and somebody is left who could put
/// a message in.
pub proof fn law_only_an_empty_channel_keeps_a_thread(poll: ChannelPoll, shutdown: bool)
    requires
        call_ensures(is_shutdown, (poll,), shutdown),
    ensures
        !shutdown <==> poll is Empty,
{
}

/// A thread that looks at its shutdown channel goes on only where the look has shown the channel
/// to be empty, and ends only where it has shown something else.
pub proof fn law_shutdown_follows_the_channel(shutdown_rx: &Receiver<()>, shutdown: bool) -> (poll:
    ChannelPoll)
    requires
        call_ensures(check_shutdown, (shutdown_rx,), shutdown),
    ensures
        shown_by(shutdown_rx, poll),
        !shutdown <==> poll is Empty,
{
    choose|poll: ChannelPoll| #[trigger]
        shown_by(shutdown_rx, poll) && shutdown == (poll is Message || poll is Disconnected)
}

} // verus!
