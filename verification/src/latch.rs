//! Holding a monitor back until its stream has been handed to the caller.
use vstd::prelude::*;

verus! {

/// The state of a latch on which a thread waits.
#[derive(Copy, Clone, Debug, PartialEq, Eq, Structural)]
pub enum LatchState {
    /// The thread waits.
    Pending,
    /// The thread goes on.
    Released,
    /// The latch was dropped without being released.
    Abandoned,
}

impl LatchState {
    /// The state once the latch was released.
    pub open spec fn released(self) -> LatchState {
        match self {
            LatchState::Pending => LatchState::Released,
            _ => self,
        }
    }

    /// The state once the latch was dropped.
    pub open spec fn dropped(self) -> LatchState {
        match self {
            LatchState::Pending => LatchState::Abandoned,
            _ => self,
        }
    }

    /// What the thread learns from the latch.
    pub open spec fn learned(self) -> Option<bool> {
        match self {
            LatchState::Pending => None,
            LatchState::Released => Some(true),
            LatchState::Abandoned => Some(false),
        }
    }

    /// The state of a new latch.
    pub fn new() -> (state: LatchState)
        ensures
            state == LatchState::Pending,
    {
        LatchState::Pending
    }

    /// Lets the thread go on. This may be done any number of times.
    pub fn release(&mut self)
        ensures
            *final(self) == old(self).released(),
    {
        if let LatchState::Pending = *self {
            *self = LatchState::Released;
        }
    }

    /// Takes note that the latch was dropped.
    pub fn abandon(&mut self)
        ensures
            *final(self) == old(self).dropped(),
    {
        if let LatchState::Pending = *self {
            *self = LatchState::Abandoned;
        }
    }

    /// What the thread learns from the latch: whether the latch was released, or nothing as long
    /// as it has to wait.
    pub fn wait_result(&self) -> (released: Option<bool>)
        ensures
            released == self.learned(),
    {
        match *self {
            LatchState::Pending => None,
            LatchState::Released => Some(true),
            LatchState::Abandoned => Some(false),
        }
    }
}

/// A thread waits on a new latch. Once it need not wait any more, what it learns does not change.
pub proof fn law_latch_is_decided_once(state: LatchState)
    ensures
        LatchState::Pending.learned() is None,
        state.learned() is Some ==> state.released() == state && state.dropped() == state,
        state.released().released() == state.released(),
        state.dropped().dropped() == state.dropped(),
{
}

/// A latch that is released before it is dropped lets the thread go on. So a stream that releases
/// the latch of its monitor when it is dropped, whether or not it did so before, does not leave
/// the thread of the monitor waiting, nor make it end unreleased.
pub proof fn law_release_before_drop_lets_the_thread_go_on(state: LatchState)
    requires
        !(state is Abandoned),
    ensures
        state.released().dropped().learned() == Some(true),
{
}

/// A latch that is dropped without being released tells the thread so.
pub proof fn law_drop_without_release_is_noticed(state: LatchState)
    requires
        state is Pending,
    ensures
        state.dropped().learned() == Some(false),
{
}

/// A latch that was released is released for good, and one that was dropped before is not released
/// any more. So a thread that waits on it goes on exactly where the release came first.
pub proof fn law_the_first_to_come_decides(state: LatchState)
    ensures
        state.released() is Released <==> !(state is Abandoned),
        state.released() is Abandoned <==> state is Abandoned,
        state.dropped() is Abandoned <==> !(state is Released),
        state.dropped() is Released <==> state is Released,
        state.learned() is None <==> state is Pending,
        state.learned() == Some(true) <==> state is Released,
        state.learned() == Some(false) <==> state is Abandoned,
{
}

/// Releasing a latch lets its thread go on, but where the latch was dropped before.
pub proof fn law_releasing_lets_the_thread_go_on(latch: &mut LatchState)
    requires
        call_ensures(LatchState::release, (latch,), ()),
    ensures
        *final(latch) is Released <==> !(*old(latch) is Abandoned),
        *final(latch) is Abandoned <==> *old(latch) is Abandoned,
{
}

/// Dropping a latch lets its thread end, but where the latch was released before.
pub proof fn law_dropping_lets_the_thread_end(latch: &mut LatchState)
    requires
        call_ensures(LatchState::abandon, (latch,), ()),
    ensures
        *final(latch) is Abandoned <==> !(*old(latch) is Released),
        *final(latch) is Released <==> *old(latch) is Released,
{
}

/// A thread waits on a latch that is new or was neither released nor dropped, and on no other. From
/// another one it learns whether the latch was released.
pub proof fn law_waiting_shows_what_came_first(
    fresh: LatchState,
    latch: LatchState,
    learned: Option<bool>,
)
    requires
        call_ensures(LatchState::new, (), fresh),
        call_ensures(LatchState::wait_result, (&latch,), learned),
    ensures
        fresh is Pending,
        learned is None <==> latch is Pending,
        learned == Some(true) <==> latch is Released,
        learned == Some(false) <==> latch is Abandoned,
{
}

} // verus!
