//! The handle of a stream, and playing and pausing it.
use crate::error::{Error, ErrorKind, ErrorView};
use crate::property::AudioDeviceID;
use vstd::prelude::*;

verus! {

/// A number of audio frames.
pub type FrameCount = u32;

/// A device monitor that can be told that its stream has been handed to the caller, so that it
/// may start to deliver what it notices.
pub trait Monitor: Send + Sync {
    /// Unblocks the delivery thread. Called once the stream exists, and again when it is dropped.
    fn signal_ready(&self);
}

/// What a stream and its monitor share, as far as their decisions depend on it.
#[derive(Debug, PartialEq, Eq)]
pub struct StreamInner {
    /// Whether the audio unit runs.
    pub playing: bool,
    /// The device with which the audio unit was made.
    pub device_id: AudioDeviceID,
}

/// Says that the lock of a stream is unusable, because a thread has panicked while holding it.
#[derive(Copy, Clone, Debug, PartialEq, Eq, Structural)]
pub struct Poisoned;

/// The error for a stream whose lock is unusable.
pub open spec fn lock_poisoned() -> ErrorView {
    ErrorView::plain(ErrorKind::StreamInvalidated, "Stream lock poisoned"@)
}

/// Whether `result` passes on what the audio unit answered. An error is passed on with the context
/// in which it came up.
pub open spec fn passed_on(
    outcome: Result<(), Error>,
    context: Seq<char>,
    result: Result<(), Error>,
) -> bool {
    match outcome {
        Ok(_) => result is Ok,
        Err(cause) => result matches Err(error) && error@ == cause@.in_context(context),
    }
}

impl StreamInner {
    /// The stream after it was played, given what starting the audio unit comes to: a stream that
    /// plays already is left alone, and so is one whose audio unit refuses.
    pub open spec fn after_play(self, started: Result<(), Error>) -> StreamInner {
        if self.playing || started is Err {
            self
        } else {
            StreamInner { playing: true, ..self }
        }
    }

    /// The stream after it was paused, given what stopping the audio unit comes to: a stream that
    /// does not play is left alone, and so is one whose audio unit refuses.
    pub open spec fn after_pause(self, stopped: Result<(), Error>) -> StreamInner {
        if !self.playing || stopped is Err {
            self
        } else {
            StreamInner { playing: false, ..self }
        }
    }

    /// Plays the stream, using `start` to start the audio unit.
    ///
    /// A stream that plays already is left alone, and `start` is not called. Where the audio unit
    /// cannot be started, the stream does not play.
    pub fn play<F: FnOnce() -> Result<(), Error>>(&mut self, start: F) -> (result: Result<
        (),
        Error,
    >)
        requires
            !old(self).playing ==> call_requires(start, ()),
        ensures
            old(self).playing ==> result is Ok && *final(self) == *old(self),
            !old(self).playing ==> exists|outcome: Result<(), Error>| #[trigger]
                call_ensures(start, (), outcome) && *final(self) == old(self).after_play(
                    outcome,
                ) && passed_on(outcome, "Failed to start audio unit"@, result),
    {
        if !self.playing {
            match start() {
                Ok(()) => {},
                Err(error) => {
                    return Err(error.context("Failed to start audio unit"));
                },
            }
            self.playing = true;
        }
        Ok(())
    }

    /// Pauses the stream, using `stop` to stop the audio unit.
    ///
    /// A stream that does not play is left alone, and `stop` is not called. Where the audio unit
    /// cannot be stopped, the stream goes on playing.
    pub fn pause<F: FnOnce() -> Result<(), Error>>(&mut self, stop: F) -> (result: Result<
        (),
        Error,
    >)
        requires
            old(self).playing ==> call_requires(stop, ()),
        ensures
            !old(self).playing ==> result is Ok && *final(self) == *old(self),
            old(self).playing ==> exists|outcome: Result<(), Error>| #[trigger]
                call_ensures(stop, (), outcome) && *final(self) == old(self).after_pause(
                    outcome,
                ) && passed_on(outcome, "Failed to stop audio unit"@, result),
    {
        if self.playing {
            match stop() {
                Ok(()) => {},
                Err(error) => {
                    return Err(error.context("Failed to stop audio unit"));
                },
            }
            self.playing = false;
        }
        Ok(())
    }
}

/// The handle of a stream: what it shares with its monitor, behind a lock, and the monitor.
pub struct Stream<I, M> {
    inner: I,
    monitor: M,
}

impl<I, M> Stream<I, M> {
    /// What the stream shares with its monitor.
    pub closed spec fn shared(&self) -> I {
        self.inner
    }

    /// The monitor of the stream.
    pub closed spec fn monitored_by(&self) -> M {
        self.monitor
    }

    /// The handle of a stream.
    pub fn new(inner: I, monitor: M) -> (stream: Stream<I, M>)
        ensures
            stream.shared() == inner,
            stream.monitored_by() == monitor,
    {
        Stream { inner, monitor }
    }

    /// What the stream shares with its monitor.
    pub fn inner(&self) -> (inner: &I)
        ensures
            *inner == self.shared(),
    {
        &self.inner
    }

    /// The monitor of the stream.
    pub fn monitor(&self) -> (monitor: &M)
        ensures
            *monitor == self.monitored_by(),
    {
        &self.monitor
    }

    /// Plays a stream whose lock was taken, with the given outcome.
    pub fn play<F: FnOnce() -> Result<(), Error>>(
        &self,
        lock: Result<&mut StreamInner, Poisoned>,
        start: F,
    ) -> (result: Result<(), Error>)
        requires
            lock matches Ok(inner) ==> !inner.playing ==> call_requires(start, ()),
        ensures
            lock is Err ==> (result matches Err(error) && error@ == lock_poisoned()),
            lock matches Ok(inner) ==> inner.playing ==> result is Ok && *final(inner) == *inner,
            lock matches Ok(inner) ==> !inner.playing ==> exists|outcome: Result<(), Error>|
                #[trigger] call_ensures(start, (), outcome) && *final(inner) == inner.after_play(
                    outcome,
                ) && passed_on(outcome, "Failed to start audio unit"@, result),
    {
        match lock {
            Ok(inner) => inner.play(start),
            Err(_) => Err(
                Error::with_message(ErrorKind::StreamInvalidated, "Stream lock poisoned"),
            ),
        }
    }

    /// Pauses a stream whose lock was taken, with the given outcome.
    pub fn pause<F: FnOnce() -> Result<(), Error>>(
        &self,
        lock: Result<&mut StreamInner, Poisoned>,
        stop: F,
    ) -> (result: Result<(), Error>)
        requires
            lock matches Ok(inner) ==> inner.playing ==> call_requires(stop, ()),
        ensures
            lock is Err ==> (result matches Err(error) && error@ == lock_poisoned()),
            lock matches Ok(inner) ==> !inner.playing ==> result is Ok && *final(inner) == *inner,
            lock matches Ok(inner) ==> inner.playing ==> exists|outcome: Result<(), Error>|
                #[trigger] call_ensures(stop, (), outcome) && *final(inner) == inner.after_pause(
                    outcome,
                ) && passed_on(outcome, "Failed to stop audio unit"@, result),
    {
        match lock {
            Ok(inner) => inner.pause(stop),
            Err(_) => Err(
                Error::with_message(ErrorKind::StreamInvalidated, "Stream lock poisoned"),
            ),
        }
    }

    /// The size of the buffers of a stream whose lock was taken, with the given outcome. `read`
    /// asks the audio unit for it; it is not called where the lock could not be taken.
    pub fn buffer_size<F: FnOnce() -> Result<usize, Error>>(
        &self,
        lock: Result<(), Poisoned>,
        read: F,
    ) -> (result: Result<FrameCount, Error>)
        requires
            lock is Ok ==> call_requires(read, ()),
        ensures
            lock is Err ==> (result matches Err(error) && error@ == lock_poisoned()),
            lock is Ok ==> exists|outcome: Result<usize, Error>| #[trigger]
                call_ensures(read, (), outcome) && (match outcome {
                    Ok(size) => result == Ok::<FrameCount, Error>(size as FrameCount),
                    Err(cause) => result matches Err(error) && error@ == cause@.in_context(
                        "Failed to get buffer frame size"@,
                    ),
                }),
    {
        match lock {
            Ok(()) => match read() {
                Ok(size) => Ok(
                    #[verifier::truncate]
                    (size as FrameCount),
                ),
                Err(error) => Err(error.context("Failed to get buffer frame size")),
            },
            Err(_) => Err(
                Error::with_message(ErrorKind::StreamInvalidated, "Stream lock poisoned"),
            ),
        }
    }
}

impl<I, M: Monitor> Stream<I, M> {
    /// Tells the monitor that the stream has been handed to the caller: calls `signal_ready` of the
    /// monitor of this stream.
    pub fn signal_ready(&self)
        ensures
            call_ensures(M::signal_ready, (&self.monitored_by(),), ()),
    {
        self.monitor.signal_ready();
    }
}

/// A stream that plays is not changed by playing it again, whatever the audio unit would answer,
/// and one that does not play is not changed by pausing it.
pub proof fn law_repeating_changes_nothing(stream: StreamInner, outcome: Result<(), Error>)
    ensures
        stream.playing ==> stream.after_play(outcome) == stream,
        !stream.playing ==> stream.after_pause(outcome) == stream,
{
}

/// Playing a stream and then pausing it, both with success, leaves it as it was, if it did not
/// play before. Pausing it and then playing it does, if it played before.
pub proof fn law_pause_and_play_undo_each_other(
    stream: StreamInner,
    started: Result<(), Error>,
    stopped: Result<(), Error>,
)
    requires
        started is Ok,
        stopped is Ok,
    ensures
        !stream.playing ==> stream.after_play(started).after_pause(stopped) == stream,
        stream.playing ==> stream.after_pause(stopped).after_play(started) == stream,
{
}

/// A stream plays after it was played, and does not play after it was paused, but for one whose
/// audio unit refuses: that one is left as it was. Its device stays the same in any case.
pub proof fn law_stream_follows_its_unit(stream: StreamInner, outcome: Result<(), Error>)
    ensures
        outcome is Ok ==> stream.after_play(outcome).playing && !stream.after_pause(
            outcome,
        ).playing,
        outcome is Err ==> stream.after_play(outcome) == stream && stream.after_pause(outcome)
            == stream,
        stream.after_play(outcome).device_id == stream.device_id,
        stream.after_pause(outcome).device_id == stream.device_id,
{
}

/// What a stream is told of a refusal of its audio unit is the refusal itself, with what was being
/// attempted, and a stream is told of a refusal exactly where there was one.
pub proof fn law_refusals_are_passed_on(
    outcome: Result<(), Error>,
    context: Seq<char>,
    result: Result<(), Error>,
)
    requires
        passed_on(outcome, context, result),
    ensures
        result is Ok <==> outcome is Ok,
        result is Err ==> {
            &&& result->Err_0.kind == outcome->Err_0.kind
            &&& result->Err_0.message@ == outcome->Err_0.message@
            &&& result->Err_0.context is Some
            &&& result->Err_0.context->Some_0@ == context
        },
{
}

/// Playing a stream starts its audio unit exactly where it does not run. The stream plays
/// afterwards if and only if it is told of no refusal, and then goes on with the same device. A
/// refusal is passed on as coming from the start, and changes nothing.
pub proof fn law_playing_starts_the_unit<F: FnOnce() -> Result<(), Error>>(
    stream: &mut StreamInner,
    start: F,
    result: Result<(), Error>,
)
    requires
        call_ensures(StreamInner::play::<F>, (stream, start), result),
    ensures
        final(stream).playing <==> result is Ok,
        final(stream).device_id == old(stream).device_id,
        old(stream).playing ==> result is Ok,
        !old(stream).playing ==> exists|outcome: Result<(), Error>| #[trigger]
            call_ensures(start, (), outcome) && {
                &&& result is Ok <==> outcome is Ok
                &&& outcome is Err ==> {
                    &&& result->Err_0.kind == outcome->Err_0.kind
                    &&& result->Err_0.message@ == outcome->Err_0.message@
                    &&& result->Err_0.context is Some
                    &&& result->Err_0.context->Some_0@ == "Failed to start audio unit"@
                }
            },
{
}

/// Pausing a stream stops its audio unit exactly where it runs. The stream plays on afterwards if
/// and only if it is told of a refusal, and keeps its device. A refusal is passed on as coming from
/// the stop, and changes nothing.
pub proof fn law_pausing_stops_the_unit<F: FnOnce() -> Result<(), Error>>(
    stream: &mut StreamInner,
    stop: F,
    result: Result<(), Error>,
)
    requires
        call_ensures(StreamInner::pause::<F>, (stream, stop), result),
    ensures
        final(stream).playing <==> result is Err,
        final(stream).device_id == old(stream).device_id,
        !old(stream).playing ==> result is Ok,
        old(stream).playing ==> exists|outcome: Result<(), Error>| #[trigger]
            call_ensures(stop, (), outcome) && {
                &&& result is Ok <==> outcome is Ok
                &&& outcome is Err ==> {
                    &&& result->Err_0.kind == outcome->Err_0.kind
                    &&& result->Err_0.message@ == outcome->Err_0.message@
                    &&& result->Err_0.context is Some
                    &&& result->Err_0.context->Some_0@ == "Failed to stop audio unit"@
                }
            },
{
}

/// A stream whose lock is unusable is neither played nor paused nor asked for its buffers: each of
/// these fails alike, and says that the stream is invalidated.
pub proof fn law_unusable_locks_invalidate_the_stream<
    I,
    M,
    F: FnOnce() -> Result<(), Error>,
    G: FnOnce() -> Result<usize, Error>,
>(
    stream: Stream<I, M>,
    unit: F,
    read: G,
    played: Result<(), Error>,
    paused: Result<(), Error>,
    size: Result<FrameCount, Error>,
)
    requires
        call_ensures(Stream::<I, M>::play::<F>, (&stream, Err(Poisoned), unit), played),
        call_ensures(Stream::<I, M>::pause::<F>, (&stream, Err(Poisoned), unit), paused),
        call_ensures(Stream::<I, M>::buffer_size::<G>, (&stream, Err(Poisoned), read), size),
    ensures
        played is Err && paused is Err && size is Err,
        played->Err_0@ == paused->Err_0@ && paused->Err_0@ == size->Err_0@,
        played->Err_0.kind == ErrorKind::StreamInvalidated,
        played->Err_0.message@ == "Stream lock poisoned"@,
        played->Err_0.context is None,
{
}

/// Playing and pausing through the handle of a stream does to what its lock guards the same as
/// playing and pausing that.
pub proof fn law_handles_play_and_pause_what_they_share<I, M, F: FnOnce() -> Result<(), Error>>(
    stream: Stream<I, M>,
    played: &mut StreamInner,
    paused: &mut StreamInner,
    unit: F,
    play_result: Result<(), Error>,
    pause_result: Result<(), Error>,
)
    requires
        call_ensures(Stream::<I, M>::play::<F>, (&stream, Ok(played), unit), play_result),
        call_ensures(Stream::<I, M>::pause::<F>, (&stream, Ok(paused), unit), pause_result),
    ensures
        final(played).playing <==> play_result is Ok,
        final(played).device_id == old(played).device_id,
        old(played).playing ==> play_result is Ok,
        !old(played).playing ==> exists|outcome: Result<(), Error>| #[trigger]
            call_ensures(unit, (), outcome) && {
                &&& play_result is Ok <==> outcome is Ok
                &&& outcome is Err ==> {
                    &&& play_result->Err_0.kind == outcome->Err_0.kind
                    &&& play_result->Err_0.message@ == outcome->Err_0.message@
                    &&& play_result->Err_0.context is Some
                    &&& play_result->Err_0.context->Some_0@ == "Failed to start audio unit"@
                }
            },
        final(paused).playing <==> pause_result is Err,
        final(paused).device_id == old(paused).device_id,
        !old(paused).playing ==> pause_result is Ok,
        old(paused).playing ==> exists|outcome: Result<(), Error>| #[trigger]
            call_ensures(unit, (), outcome) && {
                &&& pause_result is Ok <==> outcome is Ok
                &&& outcome is Err ==> {
                    &&& pause_result->Err_0.kind == outcome->Err_0.kind
                    &&& pause_result->Err_0.message@ == outcome->Err_0.message@
                    &&& pause_result->Err_0.context is Some
                    &&& pause_result->Err_0.context->Some_0@ == "Failed to stop audio unit"@
                }
            },
{
}

/// The size of the buffers of a stream is what its audio unit says, wherever that is a number of
/// frames that can be told. A refusal of the audio unit is passed on as coming from that question.
pub proof fn law_buffer_size_is_what_the_unit_says<I, M, F: FnOnce() -> Result<usize, Error>>(
    stream: Stream<I, M>,
    read: F,
    size: Result<FrameCount, Error>,
) -> (outcome: Result<usize, Error>)
    requires
        call_ensures(Stream::<I, M>::buffer_size::<F>, (&stream, Ok(()), read), size),
    ensures
        call_ensures(read, (), outcome),
        size is Ok <==> outcome is Ok,
        outcome is Ok && outcome->Ok_0 <= FrameCount::MAX ==> size->Ok_0 == outcome->Ok_0,
        outcome is Ok ==> size->Ok_0 == outcome->Ok_0 as FrameCount,
        outcome is Err ==> {
            &&& size->Err_0.kind == outcome->Err_0.kind
            &&& size->Err_0.message@ == outcome->Err_0.message@
            &&& size->Err_0.context is Some
            &&& size->Err_0.context->Some_0@ == "Failed to get buffer frame size"@
        },
{
    choose|outcome: Result<usize, Error>| #[trigger]
        call_ensures(read, (), outcome) && (match outcome {
            Ok(count) => size == Ok::<FrameCount, Error>(count as FrameCount),
            Err(cause) => size matches Err(error) && error@ == cause@.in_context(
                "Failed to get buffer frame size"@,
            ),
        })
}

/// A handle gives out what it was made from, and it is the monitor that it was made with that is
/// told when the stream has been handed to its owner.
pub proof fn law_handles_keep_what_they_were_made_from<I, M: Monitor>(
    inner: I,
    monitor: M,
    stream: Stream<I, M>,
    shared: &I,
    watching: &M,
)
    requires
        call_ensures(Stream::<I, M>::new, (inner, monitor), stream),
        call_ensures(Stream::<I, M>::inner, (&stream,), shared),
        call_ensures(Stream::<I, M>::monitor, (&stream,), watching),
        call_ensures(Stream::<I, M>::signal_ready, (&stream,), ()),
    ensures
        *shared == inner,
        *watching == monitor,
        call_ensures(M::signal_ready, (&monitor,), ()),
{
}

} // verus!
