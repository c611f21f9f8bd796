//! Telling the owner of a stream what its monitor has noticed.
//!
//! Each monitor has a thread for this. It alternates between waiting, work on the stream and
//! decisions on what to do next. The decisions are here: [`Delivery`] names the work that is due,
//! and takes what came of it.
use crate::error::{Error, ErrorKind, ErrorView};
use crate::host::Device;
use crate::latch::LatchState;
use crate::monitor;
use crate::plan::SystemAudioListenerEvent;
use crate::system_audio;
use crate::system_audio::{MonitorReply, SystemAudioMonitorEvent, SystemAudioThread};
use vstd::prelude::*;

verus! {

/// What a monitor has noticed.
#[derive(Debug, PartialEq, Eq)]
pub enum Notice {
    /// The device of the stream has become unusable, as the error says.
    Disconnect(Error),
    /// The system's default output device has changed.
    DefaultOutputChanged,
    /// What a system-audio stream is built on has changed.
    SystemAudio(SystemAudioMonitorEvent),
}

/// The mathematical content of a [`Notice`].
pub enum NoticeView {
    Disconnect(ErrorView),
    DefaultOutputChanged,
    SystemAudio(SystemAudioMonitorEvent),
}

impl View for Notice {
    type V = NoticeView;

    open spec fn view(&self) -> NoticeView {
        match self {
            Notice::Disconnect(error) => NoticeView::Disconnect(error@),
            Notice::DefaultOutputChanged => NoticeView::DefaultOutputChanged,
            Notice::SystemAudio(event) => NoticeView::SystemAudio(*event),
        }
    }
}

/// The error that the owner of a system-audio stream is given for an event.
pub open spec fn system_audio_error(event: SystemAudioMonitorEvent) -> ErrorView {
    match event {
        SystemAudioMonitorEvent::DeviceNotAvailable(message) => ErrorView::plain(
            ErrorKind::DeviceNotAvailable,
            message@,
        ),
        SystemAudioMonitorEvent::StreamInvalidated(message) => ErrorView::plain(
            ErrorKind::StreamInvalidated,
            message@,
        ),
    }
}

/// The error that the owner of a stream is given when there is no default output device any more.
pub open spec fn no_default_output() -> ErrorView {
    ErrorView::plain(ErrorKind::DeviceNotAvailable, "no default output device"@)
}

/// The error that the owner of a stream is given when there is another default output device.
pub open spec fn default_output_changed() -> ErrorView {
    ErrorView::plain(ErrorKind::DeviceChanged, "default output device changed"@)
}

/// The error that the owner of a system-audio stream is given for an event.
pub fn monitor_error(event: SystemAudioMonitorEvent) -> (error: Error)
    ensures
        error@ == system_audio_error(event),
{
    match event {
        SystemAudioMonitorEvent::DeviceNotAvailable(message) => Error::with_message(
            ErrorKind::DeviceNotAvailable,
            message,
        ),
        SystemAudioMonitorEvent::StreamInvalidated(message) => Error::with_message(
            ErrorKind::StreamInvalidated,
            message,
        ),
    }
}

/// Work that is due in the thread. It is also the whole state of the thread.
#[derive(Debug, PartialEq, Eq)]
pub enum Delivery {
    /// Wait until the stream has been handed to its owner, or will not be.
    AwaitRelease,
    /// Wait for a notice.
    Receive,
    /// Get hold of the stream, if it still exists.
    UpgradeStream(Notice),
    /// Find out which device is the default output.
    QueryDefaultOutput,
    /// Take the lock of the stream, if that can be had without waiting.
    TryLock(Error),
    /// Pause the stream, and let go of its lock.
    Pause(Error),
    /// Give the error to the owner of the stream, and let go of the stream.
    Emit(Error),
    /// End the thread.
    Exit,
}

/// The mathematical content of a [`Delivery`].
pub enum DeliveryView {
    AwaitRelease,
    Receive,
    UpgradeStream(NoticeView),
    QueryDefaultOutput,
    TryLock(ErrorView),
    Pause(ErrorView),
    Emit(ErrorView),
    Exit,
}

impl View for Delivery {
    type V = DeliveryView;

    open spec fn view(&self) -> DeliveryView {
        match self {
            Delivery::AwaitRelease => DeliveryView::AwaitRelease,
            Delivery::Receive => DeliveryView::Receive,
            Delivery::UpgradeStream(notice) => DeliveryView::UpgradeStream(notice@),
            Delivery::QueryDefaultOutput => DeliveryView::QueryDefaultOutput,
            Delivery::TryLock(error) => DeliveryView::TryLock(error@),
            Delivery::Pause(error) => DeliveryView::Pause(error@),
            Delivery::Emit(error) => DeliveryView::Emit(error@),
            Delivery::Exit => DeliveryView::Exit,
        }
    }
}

/// What came of the work that was due.
#[derive(Debug, PartialEq, Eq)]
pub enum DeliveryReply {
    /// Whether the stream was handed to its owner.
    Released(bool),
    /// The next notice. There is none when none can come any more.
    Received(Option<Notice>),
    /// Whether the stream still exists.
    Upgraded(bool),
    /// The default output device, if there is one.
    DefaultOutput(Option<Device>),
    /// Whether the lock of the stream was had.
    Locked(bool),
    /// Pausing the stream was attempted. Whether it succeeded makes no difference.
    Paused,
    /// The owner of the stream was given the error.
    Emitted,
}

/// The mathematical content of a [`DeliveryReply`].
pub enum DeliveryReplyView {
    Released(bool),
    Received(Option<NoticeView>),
    Upgraded(bool),
    DefaultOutput(Option<Device>),
    Locked(bool),
    Paused,
    Emitted,
}

impl View for DeliveryReply {
    type V = DeliveryReplyView;

    open spec fn view(&self) -> DeliveryReplyView {
        match self {
            DeliveryReply::Released(released) => DeliveryReplyView::Released(*released),
            DeliveryReply::Received(Some(notice)) => DeliveryReplyView::Received(Some(notice@)),
            DeliveryReply::Received(None) => DeliveryReplyView::Received(None),
            DeliveryReply::Upgraded(exists_still) => DeliveryReplyView::Upgraded(*exists_still),
            DeliveryReply::DefaultOutput(device) => DeliveryReplyView::DefaultOutput(*device),
            DeliveryReply::Locked(locked) => DeliveryReplyView::Locked(*locked),
            DeliveryReply::Paused => DeliveryReplyView::Paused,
            DeliveryReply::Emitted => DeliveryReplyView::Emitted,
        }
    }
}

impl DeliveryView {
    /// What is due after the work that was due has come to `reply`. A reply to work that was not
    /// due changes nothing.
    pub open spec fn after(self, reply: DeliveryReplyView) -> DeliveryView {
        match (self, reply) {
            (DeliveryView::AwaitRelease, DeliveryReplyView::Released(released)) => if released {
                DeliveryView::Receive
            } else {
                DeliveryView::Exit
            },
            (DeliveryView::Receive, DeliveryReplyView::Received(Some(notice))) =>
                DeliveryView::UpgradeStream(notice),
            (DeliveryView::Receive, DeliveryReplyView::Received(None)) => DeliveryView::Exit,
            (DeliveryView::UpgradeStream(notice), DeliveryReplyView::Upgraded(exists_still)) => if
            !exists_still {
                DeliveryView::Exit
            } else {
                match notice {
                    NoticeView::Disconnect(error) => DeliveryView::TryLock(error),
                    NoticeView::DefaultOutputChanged => DeliveryView::QueryDefaultOutput,
                    NoticeView::SystemAudio(event) => DeliveryView::TryLock(
                        system_audio_error(event),
                    ),
                }
            },
            (DeliveryView::QueryDefaultOutput, DeliveryReplyView::DefaultOutput(device)) => if
            device is None {
                DeliveryView::TryLock(no_default_output())
            } else {
                DeliveryView::Emit(default_output_changed())
            },
            (DeliveryView::TryLock(error), DeliveryReplyView::Locked(locked)) => if locked {
                DeliveryView::Pause(error)
            } else {
                DeliveryView::Emit(error)
            },
            (DeliveryView::Pause(error), DeliveryReplyView::Paused) => DeliveryView::Emit(error),
            (DeliveryView::Emit(_), DeliveryReplyView::Emitted) => DeliveryView::Receive,
            _ => self,
        }
    }
}

impl Delivery {
    /// What is due when the thread starts.
    pub fn new() -> (delivery: Delivery)
        ensures
            delivery@ == DeliveryView::AwaitRelease,
    {
        Delivery::AwaitRelease
    }

    /// Takes what came of the work that was due, and decides what is due next.
    pub fn step(self, reply: DeliveryReply) -> (next: Delivery)
        ensures
            next@ == self@.after(reply@),
    {
        match self {
            Delivery::AwaitRelease => match reply {
                DeliveryReply::Released(true) => Delivery::Receive,
                DeliveryReply::Released(false) => Delivery::Exit,
                _ => Delivery::AwaitRelease,
            },
            Delivery::Receive => match reply {
                DeliveryReply::Received(Some(notice)) => Delivery::UpgradeStream(notice),
                DeliveryReply::Received(None) => Delivery::Exit,
                _ => Delivery::Receive,
            },
            Delivery::UpgradeStream(notice) => match reply {
                DeliveryReply::Upgraded(true) => match notice {
                    Notice::Disconnect(error) => Delivery::TryLock(error),
                    Notice::DefaultOutputChanged => Delivery::QueryDefaultOutput,
                    Notice::SystemAudio(event) => Delivery::TryLock(monitor_error(event)),
                },
                DeliveryReply::Upgraded(false) => Delivery::Exit,
                _ => Delivery::UpgradeStream(notice),
            },
            Delivery::QueryDefaultOutput => match reply {
                DeliveryReply::DefaultOutput(None) => Delivery::TryLock(
                    Error::with_message(ErrorKind::DeviceNotAvailable, "no default output device"),
                ),
                DeliveryReply::DefaultOutput(Some(_)) => Delivery::Emit(
                    Error::with_message(ErrorKind::DeviceChanged, "default output device changed"),
                ),
                _ => Delivery::QueryDefaultOutput,
            },
            Delivery::TryLock(error) => match reply {
                DeliveryReply::Locked(true) => Delivery::Pause(error),
                DeliveryReply::Locked(false) => Delivery::Emit(error),
                _ => Delivery::TryLock(error),
            },
            Delivery::Pause(error) => match reply {
                DeliveryReply::Paused => Delivery::Emit(error),
                _ => Delivery::Pause(error),
            },
            Delivery::Emit(error) => match reply {
                DeliveryReply::Emitted => Delivery::Receive,
                _ => Delivery::Emit(error),
            },
            Delivery::Exit => Delivery::Exit,
        }
    }
}

impl DeliveryView {
    /// What is due after all of `replies`, one after the other.
    pub open spec fn after_all(self, replies: Seq<DeliveryReplyView>) -> DeliveryView
        decreases replies.len(),
    {
        if replies.len() == 0 {
            self
        } else {
            self.after(replies[0]).after_all(replies.drop_first())
        }
    }

    /// The notices that are taken up in the course of `replies`, in this order.
    pub open spec fn taken(self, replies: Seq<DeliveryReplyView>) -> Seq<NoticeView>
        decreases replies.len(),
    {
        if replies.len() == 0 {
            Seq::empty()
        } else {
            let rest = self.after(replies[0]).taken(replies.drop_first());
            match (self, replies[0]) {
                (DeliveryView::Receive, DeliveryReplyView::Received(Some(notice))) => seq![notice]
                    + rest,
                _ => rest,
            }
        }
    }

    /// The errors that the owner of the stream is given in the course of `replies`, in this order.
    pub open spec fn emitted(self, replies: Seq<DeliveryReplyView>) -> Seq<ErrorView>
        decreases replies.len(),
    {
        if replies.len() == 0 {
            Seq::empty()
        } else {
            let rest = self.after(replies[0]).emitted(replies.drop_first());
            match (self, replies[0]) {
                (DeliveryView::Emit(error), DeliveryReplyView::Emitted) => seq![error] + rest,
                _ => rest,
            }
        }
    }

    /// What was found each time when, in the course of `replies`, the thread looked for the default
    /// output device, in this order.
    pub open spec fn found(self, replies: Seq<DeliveryReplyView>) -> Seq<Option<Device>>
        decreases replies.len(),
    {
        if replies.len() == 0 {
            Seq::empty()
        } else {
            let rest = self.after(replies[0]).found(replies.drop_first());
            match (self, replies[0]) {
                (DeliveryView::QueryDefaultOutput, DeliveryReplyView::DefaultOutput(device)) =>
                    seq![device] + rest,
                _ => rest,
            }
        }
    }

    /// Whether a notice was taken up of which the owner of the stream has yet to be told.
    pub open spec fn busy(self) -> bool {
        !(self is AwaitRelease || self is Receive || self is Exit)
    }
}

/// The error that the owner of a stream is given for `notice`. For a change of the default output
/// that depends on whether a device was found.
pub open spec fn report_of(notice: NoticeView, found: Option<Device>) -> ErrorView {
    match notice {
        NoticeView::Disconnect(error) => error,
        NoticeView::DefaultOutputChanged => if found is None {
            no_default_output()
        } else {
            default_output_changed()
        },
        NoticeView::SystemAudio(event) => system_audio_error(event),
    }
}

/// The errors that the owner of a stream is given for the notices `taken`, in their order, where
/// `found` holds what was found for each change of the default output among them, in the same
/// order. It goes no further than to a change for which nothing was looked up.
pub open spec fn all_reports(taken: Seq<NoticeView>, found: Seq<Option<Device>>) -> Seq<ErrorView>
    decreases taken.len(),
{
    if taken.len() == 0 {
        Seq::empty()
    } else if !(taken[0] is DefaultOutputChanged) {
        seq![report_of(taken[0], None)] + all_reports(taken.drop_first(), found)
    } else if found.len() == 0 {
        Seq::empty()
    } else {
        seq![report_of(taken[0], found[0])] + all_reports(taken.drop_first(), found.drop_first())
    }
}

/// Nothing is taken up or reported before the stream has been handed to its owner.
pub proof fn law_nothing_happens_before_release(
    delivery: DeliveryView,
    replies: Seq<DeliveryReplyView>,
)
    requires
        delivery is AwaitRelease,
        forall|i: int|
            0 <= i < replies.len() ==> #[trigger] replies[i] != DeliveryReplyView::Released(true),
    ensures
        delivery.taken(replies).len() == 0,
        delivery.emitted(replies).len() == 0,
    decreases replies.len(),
{
    if replies.len() > 0 {
        let rest = replies.drop_first();
        assert forall|i: int| 0 <= i < rest.len() implies #[trigger] rest[i]
            != DeliveryReplyView::Released(true) by {
            assert(rest[i] == replies[i + 1]);
        }
        let next = delivery.after(replies[0]);
        assert(replies[0] != DeliveryReplyView::Released(true));
        if next is Exit {
            law_exit_is_final(next, rest);
        } else {
            law_nothing_happens_before_release(next, rest);
        }
    }
}

/// A thread whose stream will not be handed to its owner ends.
pub proof fn law_abandoned_stream_ends_the_thread(delivery: DeliveryView)
    requires
        delivery is AwaitRelease,
    ensures
        delivery.after(DeliveryReplyView::Released(false)) is Exit,
{
}

/// A thread that is to end stays so: whatever comes in, nothing is taken up or reported any more.
pub proof fn law_exit_is_final(delivery: DeliveryView, replies: Seq<DeliveryReplyView>)
    requires
        delivery is Exit,
    ensures
        delivery.after_all(replies) is Exit,
        delivery.taken(replies).len() == 0,
        delivery.emitted(replies).len() == 0,
    decreases replies.len(),
{
    if replies.len() > 0 {
        law_exit_is_final(delivery, replies.drop_first());
    }
}

/// Once the stream is gone, the thread ends and reports nothing more, not even the notice that it
/// was about to report.
pub proof fn law_nothing_is_reported_without_a_stream(
    notice: NoticeView,
    replies: Seq<DeliveryReplyView>,
)
    ensures
        ({
            let gone = DeliveryView::UpgradeStream(notice).after(
                DeliveryReplyView::Upgraded(false),
            );
            gone is Exit && gone.emitted(replies).len() == 0
        }),
{
    law_exit_is_final(DeliveryView::Exit, replies);
}

/// When the device of a stream is disconnected, pausing the stream is attempted and then the
/// error is given to its owner. Where the lock of the stream cannot be had at once, the stream is
/// not paused, and the error is given all the same.
pub proof fn law_disconnect_pauses_and_reports(error: ErrorView)
    ensures
        ({
            let upgraded = DeliveryView::Receive.after(
                DeliveryReplyView::Received(Some(NoticeView::Disconnect(error))),
            ).after(DeliveryReplyView::Upgraded(true));
            &&& upgraded == DeliveryView::TryLock(error)
            &&& upgraded.after(DeliveryReplyView::Locked(true)) == DeliveryView::Pause(error)
            &&& DeliveryView::Pause(error).after(DeliveryReplyView::Paused) == DeliveryView::Emit(
                error,
            )
            &&& upgraded.after(DeliveryReplyView::Locked(false)) == DeliveryView::Emit(error)
        }),
{
}

/// Whichever of its two listeners reports, and whether or not the lock of the stream can be had at
/// once, a disconnect monitor ends up giving the owner of the stream the error of that listener:
/// that there is no device when the device is gone, that the stream is invalidated when the sample
/// rate has changed.
pub proof fn law_disconnect_monitor_reports(error: ErrorView, locked: bool)
    requires
        error == monitor::device_disconnected() || error == monitor::sample_rate_changed(),
    ensures
        ({
            let asked = DeliveryView::Receive.after(
                DeliveryReplyView::Received(Some(NoticeView::Disconnect(error))),
            ).after(DeliveryReplyView::Upgraded(true)).after(DeliveryReplyView::Locked(locked));
            &&& asked.after(DeliveryReplyView::Paused) == DeliveryView::Emit(error)
            &&& error.kind == (if error == monitor::device_disconnected() {
                ErrorKind::DeviceNotAvailable
            } else {
                ErrorKind::StreamInvalidated
            })
        }),
{
}

/// When the default output changes to another device, the stream plays on and its owner is told
/// that the device has changed. When there is no default output any more, pausing the stream is
/// attempted and its owner is told that there is no device.
pub proof fn law_default_output_change(device: Option<Device>)
    ensures
        ({
            let found = DeliveryView::Receive.after(
                DeliveryReplyView::Received(Some(NoticeView::DefaultOutputChanged)),
            ).after(DeliveryReplyView::Upgraded(true)).after(
                DeliveryReplyView::DefaultOutput(device),
            );
            found == match device {
                Some(_) => DeliveryView::Emit(default_output_changed()),
                None => DeliveryView::TryLock(no_default_output()),
            }
        }),
{
}

/// No error is given to the owner of a stream before pausing the stream was attempted, but for
/// the news that the stream has moved to another device.
pub proof fn law_pause_comes_before_the_error(
    delivery: DeliveryView,
    reply: DeliveryReplyView,
    error: ErrorView,
)
    requires
        !(delivery is Emit),
        delivery.after(reply) == DeliveryView::Emit(error),
    ensures
        ({
            ||| delivery == DeliveryView::TryLock(error) && reply == DeliveryReplyView::Locked(false)
            ||| delivery == DeliveryView::Pause(error) && reply is Paused
            ||| delivery is QueryDefaultOutput && error.kind == ErrorKind::DeviceChanged
        }),
{
}

/// What a listener reports reaches the owner of a system-audio stream as an error of the same
/// meaning and with the same message. A change of the default output reaches it as an invalidated
/// stream where a device was found, and as a missing device where none was.
pub proof fn law_listener_events_keep_their_meaning(
    event: SystemAudioListenerEvent,
    found: Option<Device>,
)
    ensures
        system_audio_error(system_audio::news_of(event, found)) == (match event {
            SystemAudioListenerEvent::DeviceNotAvailable(message) => ErrorView::plain(
                ErrorKind::DeviceNotAvailable,
                message@,
            ),
            SystemAudioListenerEvent::StreamInvalidated(message) => ErrorView::plain(
                ErrorKind::StreamInvalidated,
                message@,
            ),
            SystemAudioListenerEvent::DefaultOutputChanged => if found is Some {
                ErrorView::plain(
                    ErrorKind::StreamInvalidated,
                    "system audio default output changed"@,
                )
            } else {
                ErrorView::plain(
                    ErrorKind::DeviceNotAvailable,
                    "no default output device for system audio"@,
                )
            },
        }),
{
}

/// Releasing the latch of a monitor lets its delivery thread start on notices. That by itself
/// neither pauses the stream nor reports an error, and releasing the latch again changes nothing,
/// nor does dropping it afterwards.
pub proof fn law_release_unblocks_delivery(latch: LatchState)
    requires
        !(latch is Abandoned),
    ensures
        latch.released().learned() == Some(true),
        DeliveryView::AwaitRelease.after(DeliveryReplyView::Released(true)) is Receive,
        latch.released().released() == latch.released(),
        latch.released().dropped() == latch.released(),
{
}

/// The owner of a stream is given one error for each notice that was taken up, in the order in
/// which they were taken up, and each time exactly the one that [`report_of`] says, given the
/// devices that were found. At most the last notice goes without: it is still being worked on, or
/// the stream was gone.
pub proof fn law_each_notice_is_reported_once(
    delivery: DeliveryView,
    replies: Seq<DeliveryReplyView>,
)
    requires
        !delivery.busy(),
    ensures
        ({
            let taken = delivery.taken(replies);
            let errors = all_reports(taken, delivery.found(replies));
            let emitted = delivery.emitted(replies);
            let end = delivery.after_all(replies);
            &&& emitted.is_prefix_of(errors)
            &&& emitted.len() <= taken.len() <= emitted.len() + 1
            &&& end.busy() ==> taken.len() == emitted.len() + 1
            &&& end is Receive ==> emitted == errors && taken.len() == emitted.len()
        }),
    decreases replies.len(),
{
    if replies.len() > 0 {
        let next = delivery.after(replies[0]);
        let rest = replies.drop_first();
        assert(delivery.found(replies) == next.found(rest));
        assert(delivery.emitted(replies) == next.emitted(rest));
        if next.busy() {
            let notice = next->UpgradeStream_0;
            assert(delivery.taken(replies) == seq![notice] + next.taken(rest));
            lemma_busy_notice_is_reported(next, notice, Seq::empty(), rest);
            assert(Seq::empty() + next.found(rest) =~= next.found(rest));
        } else {
            law_each_notice_is_reported_once(next, rest);
            assert(delivery.taken(replies) == next.taken(rest));
        }
    }
}

/// Whether what is due fits with `notice` being worked on, where `already` holds what was found
/// for it, if that was looked up.
spec fn working_on(
    delivery: DeliveryView,
    notice: NoticeView,
    already: Seq<Option<Device>>,
) -> bool {
    match delivery {
        DeliveryView::UpgradeStream(current) => current == notice && already.len() == 0,
        DeliveryView::QueryDefaultOutput => notice is DefaultOutputChanged && already.len() == 0,
        DeliveryView::TryLock(error) => settled(notice, already, error),
        DeliveryView::Pause(error) => settled(notice, already, error),
        DeliveryView::Emit(error) => settled(notice, already, error),
        _ => false,
    }
}

/// Whether `error` is what the owner is given for `notice`, and `already` holds what that takes.
spec fn settled(notice: NoticeView, already: Seq<Option<Device>>, error: ErrorView) -> bool {
    if notice is DefaultOutputChanged {
        already.len() == 1 && error == report_of(notice, already[0])
    } else {
        already.len() == 0 && error == report_of(notice, None)
    }
}

/// The same for a thread that is working on `notice`.
proof fn lemma_busy_notice_is_reported(
    delivery: DeliveryView,
    notice: NoticeView,
    already: Seq<Option<Device>>,
    replies: Seq<DeliveryReplyView>,
)
    requires
        delivery.busy(),
        working_on(delivery, notice, already),
    ensures
        ({
            let taken = seq![notice] + delivery.taken(replies);
            let errors = all_reports(taken, already + delivery.found(replies));
            let emitted = delivery.emitted(replies);
            let end = delivery.after_all(replies);
            &&& emitted.is_prefix_of(errors)
            &&& emitted.len() <= taken.len() <= emitted.len() + 1
            &&& end.busy() ==> taken.len() == emitted.len() + 1
            &&& end is Receive ==> emitted == errors && taken.len() == emitted.len()
        }),
    decreases replies.len(),
{
    if replies.len() > 0 {
        let next = delivery.after(replies[0]);
        let rest = replies.drop_first();
        assert(delivery.taken(replies) == next.taken(rest));
        if next.busy() {
            assert(delivery.emitted(replies) == next.emitted(rest));
            if delivery is QueryDefaultOutput && replies[0] is DefaultOutput {
                let device = replies[0]->DefaultOutput_0;
                assert(already + delivery.found(replies) =~= seq![device] + next.found(rest));
                lemma_busy_notice_is_reported(next, notice, seq![device], rest);
            } else {
                assert(delivery.found(replies) == next.found(rest));
                lemma_busy_notice_is_reported(next, notice, already, rest);
            }
        } else if next is Exit {
            assert(delivery.emitted(replies) == next.emitted(rest));
            law_exit_is_final(next, rest);
        } else {
            law_each_notice_is_reported_once(next, rest);
            let error = delivery->Emit_0;
            let taken = next.taken(rest);
            let found = next.found(rest);
            assert(delivery.found(replies) == found);
            assert(delivery.emitted(replies) == seq![error] + next.emitted(rest));
            assert((seq![notice] + taken).drop_first() =~= taken);
            if notice is DefaultOutputChanged {
                assert((already + found).drop_first() =~= found);
            } else {
                assert(already + found =~= found);
            }
            assert(all_reports(seq![notice] + taken, already + found) == seq![error] + all_reports(
                taken,
                found,
            ));
        }
    }
}

/// The thread comes to its end for one of three reasons only, and for each of them: the stream will
/// not be handed to its owner, no notice can come any more, or the stream is gone. So reporting an
/// error, whichever it is, does not end it.
pub proof fn law_why_delivery_ends(delivery: Delivery, reply: DeliveryReply, next: Delivery)
    requires
        call_ensures(Delivery::step, (delivery, reply), next),
    ensures
        next is Exit <==> {
            ||| delivery is Exit
            ||| delivery is AwaitRelease && reply == DeliveryReply::Released(false)
            ||| delivery is Receive && reply is Received && reply->Received_0 is None
            ||| delivery is UpgradeStream && reply == DeliveryReply::Upgraded(false)
        },
{
}

/// The thread waits for the next notice once the stream was handed to its owner, and again after
/// each error that it has reported. It waits for the release only as long as it has not come.
pub proof fn law_delivery_goes_round(delivery: Delivery, reply: DeliveryReply, next: Delivery)
    requires
        call_ensures(Delivery::step, (delivery, reply), next),
    ensures
        next is Receive <==> {
            ||| delivery is Receive && !(reply is Received)
            ||| delivery is AwaitRelease && reply == DeliveryReply::Released(true)
            ||| delivery is Emit && reply is Emitted
        },
        next is AwaitRelease <==> delivery is AwaitRelease && !(reply is Released),
{
}

/// A notice that comes in is taken up as it is: the stream is looked for, whatever the notice says,
/// and the notice is kept until it is known whether the stream still exists.
pub proof fn law_notices_are_taken_up_as_they_are(
    delivery: Delivery,
    reply: DeliveryReply,
    next: Delivery,
)
    requires
        call_ensures(Delivery::step, (delivery, reply), next),
    ensures
        next is UpgradeStream <==> {
            ||| delivery is UpgradeStream && !(reply is Upgraded)
            ||| delivery is Receive && reply is Received && reply->Received_0 is Some
        },
        next is UpgradeStream ==> {
            let notice = if delivery is UpgradeStream {
                delivery->UpgradeStream_0
            } else {
                reply->Received_0->Some_0
            };
            match notice {
                Notice::Disconnect(error) => next->UpgradeStream_0 is Disconnect
                    && next->UpgradeStream_0->Disconnect_0@ == error@,
                Notice::DefaultOutputChanged => next->UpgradeStream_0 is DefaultOutputChanged,
                Notice::SystemAudio(event) => next->UpgradeStream_0 == Notice::SystemAudio(event),
            }
        },
{
}

/// The default output device is looked for where the notice is that it has changed and the stream
/// still exists, and nowhere else. Nothing is paused before that is known.
pub proof fn law_when_delivery_looks_for_the_default_output(
    delivery: Delivery,
    reply: DeliveryReply,
    next: Delivery,
)
    requires
        call_ensures(Delivery::step, (delivery, reply), next),
    ensures
        next is QueryDefaultOutput <==> {
            ||| delivery is QueryDefaultOutput && !(reply is DefaultOutput)
            ||| delivery is UpgradeStream && delivery->UpgradeStream_0 is DefaultOutputChanged
                && reply == DeliveryReply::Upgraded(true)
        },
{
}

/// Pausing the stream is on its way for each notice for which the stream has to stop, with the error
/// that its owner is given: the error of the notice itself where the device has become unusable, a
/// lost device where what a system-audio stream is built on is lost or there is no default output,
/// an invalidated stream where what it is built on has changed.
pub proof fn law_what_stops_the_stream(delivery: Delivery, reply: DeliveryReply, next: Delivery)
    requires
        call_ensures(Delivery::step, (delivery, reply), next),
        !(delivery is TryLock),
    ensures
        next is TryLock <==> {
            ||| delivery is UpgradeStream && !(delivery->UpgradeStream_0 is DefaultOutputChanged)
                && reply == DeliveryReply::Upgraded(true)
            ||| delivery is QueryDefaultOutput && reply == DeliveryReply::DefaultOutput(None)
        },
        next is TryLock && delivery is UpgradeStream ==> {
            let error = next->TryLock_0;
            match delivery->UpgradeStream_0 {
                Notice::Disconnect(cause) => {
                    &&& error.kind == cause.kind
                    &&& error.message@ == cause.message@
                    &&& error@ == cause@
                },
                Notice::SystemAudio(SystemAudioMonitorEvent::DeviceNotAvailable(message)) => {
                    &&& error.kind == ErrorKind::DeviceNotAvailable
                    &&& error.message@ == message@
                    &&& error.context is None
                },
                Notice::SystemAudio(SystemAudioMonitorEvent::StreamInvalidated(message)) => {
                    &&& error.kind == ErrorKind::StreamInvalidated
                    &&& error.message@ == message@
                    &&& error.context is None
                },
                Notice::DefaultOutputChanged => false,
            }
        },
        next is TryLock && delivery is QueryDefaultOutput ==> {
            &&& next->TryLock_0.kind == ErrorKind::DeviceNotAvailable
            &&& next->TryLock_0.message@ == "no default output device"@
            &&& next->TryLock_0.context is None
        },
{
}

/// Once the error of a notice is settled, it stays what it is until the owner of the stream is given
/// it. The stream is paused in between exactly where its lock was had.
pub proof fn law_settled_errors_are_reported(
    delivery: Delivery,
    reply: DeliveryReply,
    next: Delivery,
)
    requires
        call_ensures(Delivery::step, (delivery, reply), next),
    ensures
        delivery is TryLock && reply == DeliveryReply::Locked(true) ==> next is Pause
            && next->Pause_0@ == delivery->TryLock_0@,
        delivery is TryLock && reply == DeliveryReply::Locked(false) ==> next is Emit
            && next->Emit_0@ == delivery->TryLock_0@,
        delivery is Pause && reply is Paused ==> next is Emit && next->Emit_0@
            == delivery->Pause_0@,
        delivery is TryLock && !(reply is Locked) ==> next is TryLock && next->TryLock_0@
            == delivery->TryLock_0@,
        delivery is Pause && !(reply is Paused) ==> next is Pause && next->Pause_0@
            == delivery->Pause_0@,
        delivery is Emit && !(reply is Emitted) ==> next is Emit && next->Emit_0@
            == delivery->Emit_0@,
        next is Pause <==> {
            ||| delivery is TryLock && reply == DeliveryReply::Locked(true)
            ||| delivery is Pause && !(reply is Paused)
        },
{
}

/// The only error that is given to the owner of a stream without an attempt to pause it is that the
/// stream has moved to another device, and that is given each time the default output has changed to
/// one.
pub proof fn law_a_new_default_output_stops_nothing(
    delivery: Delivery,
    reply: DeliveryReply,
    next: Delivery,
)
    requires
        call_ensures(Delivery::step, (delivery, reply), next),
        !(delivery is TryLock || delivery is Pause || delivery is Emit),
    ensures
        next is Emit <==> delivery is QueryDefaultOutput && reply is DefaultOutput
            && reply->DefaultOutput_0 is Some,
        next is Emit ==> {
            &&& next->Emit_0.kind == ErrorKind::DeviceChanged
            &&& next->Emit_0.message@ == "default output device changed"@
            &&& next->Emit_0.context is None
        },
{
}

/// Whether the thread went through what is due in `course` as it was given `replies`, one after the
/// other.
pub open spec fn went_through(course: Seq<Delivery>, replies: Seq<DeliveryReply>) -> bool {
    &&& course.len() == replies.len() + 1
    &&& forall|i: int|
        0 <= i < replies.len() ==> call_ensures(
            Delivery::step,
            (course[i], #[trigger] replies[i]),
            course[i + 1],
        )
}

/// As long as the stream exists and notices can come, a thread whose stream was handed to its owner
/// goes on, however many errors it has reported and whatever they were.
pub proof fn law_delivery_goes_on_while_the_stream_exists(
    course: Seq<Delivery>,
    replies: Seq<DeliveryReply>,
    to: int,
)
    requires
        went_through(course, replies),
        0 <= to <= replies.len(),
        !(course[0] is AwaitRelease || course[0] is Exit),
        forall|i: int|
            0 <= i < replies.len() ==> #[trigger] replies[i] != DeliveryReply::Upgraded(false) && !(
            replies[i] is Received && replies[i]->Received_0 is None),
    ensures
        !(course[to] is AwaitRelease || course[to] is Exit),
    decreases to,
{
    if to > 0 {
        law_delivery_goes_on_while_the_stream_exists(course, replies, to - 1);
        law_why_delivery_ends(course[to - 1], replies[to - 1], course[to]);
        law_delivery_goes_round(course[to - 1], replies[to - 1], course[to]);
    }
}

/// A change of what a system-audio stream is built on leads, whether or not the lock of the stream
/// can be had, to an error with the message of the change: of a lost device where the device is
/// lost, of an invalidated stream where the stream is invalidated. Afterwards the next notice is
/// waited for.
pub proof fn law_system_audio_changes_reach_the_owner(
    event: SystemAudioMonitorEvent,
    locked: bool,
    course: Seq<Delivery>,
    replies: Seq<DeliveryReply>,
)
    requires
        went_through(course, replies),
        replies.len() == 5,
        course[0] is Receive,
        replies[0] == DeliveryReply::Received(Some(Notice::SystemAudio(event))),
        replies[1] == DeliveryReply::Upgraded(true),
        replies[2] == DeliveryReply::Locked(locked),
        replies[3] == DeliveryReply::Paused,
        replies[4] == DeliveryReply::Emitted,
    ensures
        course[2] is TryLock,
        locked <==> course[3] is Pause,
        course[4] is Emit,
        course[4]->Emit_0@ == course[2]->TryLock_0@,
        course[4]->Emit_0.context is None,
        event is DeviceNotAvailable ==> course[4]->Emit_0.kind == ErrorKind::DeviceNotAvailable
            && course[4]->Emit_0.message@ == event->DeviceNotAvailable_0@,
        event is StreamInvalidated ==> course[4]->Emit_0.kind == ErrorKind::StreamInvalidated
            && course[4]->Emit_0.message@ == event->StreamInvalidated_0@,
        course[5] is Receive,
{
    assert(replies[0] is Received && replies[1] is Upgraded && replies[2] is Locked);
    assert(replies[3] is Paused && replies[4] is Emitted);
}

/// An unusable device leads, whether or not the lock of the stream can be had, to the error that was
/// noticed, unchanged. Afterwards the next notice is waited for, so that a later one is reported as
/// well.
pub proof fn law_unusable_devices_reach_the_owner(
    error: Error,
    locked: bool,
    course: Seq<Delivery>,
    replies: Seq<DeliveryReply>,
)
    requires
        went_through(course, replies),
        replies.len() == 5,
        course[0] is Receive,
        replies[0] == DeliveryReply::Received(Some(Notice::Disconnect(error))),
        replies[1] == DeliveryReply::Upgraded(true),
        replies[2] == DeliveryReply::Locked(locked),
        replies[3] == DeliveryReply::Paused,
        replies[4] == DeliveryReply::Emitted,
    ensures
        course[2] is TryLock,
        locked <==> course[3] is Pause,
        course[4] is Emit,
        course[4]->Emit_0.kind == error.kind,
        course[4]->Emit_0.message@ == error.message@,
        course[4]->Emit_0@ == error@,
        course[5] is Receive,
{
    assert(replies[0] is Received && replies[1] is Upgraded && replies[2] is Locked);
    assert(replies[3] is Paused && replies[4] is Emitted);
}

/// A listener that reports a lost device makes the owner of a system-audio stream hear of a lost
/// device, and one that reports an invalidated stream of an invalidated stream, each with the message
/// of the listener, through both threads.
pub proof fn law_listeners_are_heard_by_the_owner<L>(
    event: SystemAudioListenerEvent,
    thread: SystemAudioThread<L>,
    told: SystemAudioThread<L>,
    locked: bool,
    course: Seq<Delivery>,
    replies: Seq<DeliveryReply>,
)
    requires
        thread.action is WaitForEvent,
        !(event is DefaultOutputChanged),
        call_ensures(SystemAudioThread::<L>::step, (thread, MonitorReply::Waited(Ok(event))), told),
        went_through(course, replies),
        replies.len() == 5,
        course[0] is Receive,
        replies[0] == DeliveryReply::Received(
            Some(Notice::SystemAudio(told.action->SendEvent_0)),
        ),
        replies[1] == DeliveryReply::Upgraded(true),
        replies[2] == DeliveryReply::Locked(locked),
        replies[3] == DeliveryReply::Paused,
        replies[4] == DeliveryReply::Emitted,
    ensures
        told.action is SendEvent,
        course[4] is Emit,
        event is DeviceNotAvailable ==> course[4]->Emit_0.kind == ErrorKind::DeviceNotAvailable
            && course[4]->Emit_0.message@ == event->DeviceNotAvailable_0@,
        event is StreamInvalidated ==> course[4]->Emit_0.kind == ErrorKind::StreamInvalidated
            && course[4]->Emit_0.message@ == event->StreamInvalidated_0@,
        course[4]->Emit_0.context is None,
{
    system_audio::law_what_the_monitor_is_told(thread, MonitorReply::Waited(Ok(event)), told);
    law_system_audio_changes_reach_the_owner(told.action->SendEvent_0, locked, course, replies);
}

/// The thread starts by waiting for its release.
pub proof fn law_delivery_starts_by_waiting(delivery: Delivery)
    requires
        call_ensures(Delivery::new, (), delivery),
    ensures
        delivery is AwaitRelease,
{
}

/// The error for an event keeps the message of the event, and says that there is no device exactly
/// where the event does.
pub proof fn law_monitor_errors_keep_the_meaning(event: SystemAudioMonitorEvent, error: Error)
    requires
        call_ensures(monitor_error, (event,), error),
    ensures
        event is DeviceNotAvailable ==> error.kind == ErrorKind::DeviceNotAvailable
            && error.message@ == event->DeviceNotAvailable_0@,
        event is StreamInvalidated ==> error.kind == ErrorKind::StreamInvalidated && error.message@
            == event->StreamInvalidated_0@,
        error.context is None,
{
}

/// What is reported of a notice is a lost device exactly where the notice says so or there is no
/// default output, and a changed device exactly where there is another default output.
pub proof fn law_reports_keep_the_meaning(notice: NoticeView, found: Option<Device>)
    ensures
        notice is Disconnect ==> report_of(notice, found) == notice->Disconnect_0,
        notice is SystemAudio ==> {
            let error = report_of(notice, found);
            &&& error.context is None
            &&& match notice->SystemAudio_0 {
                SystemAudioMonitorEvent::DeviceNotAvailable(message) => error.kind
                    == ErrorKind::DeviceNotAvailable && error.message == message@,
                SystemAudioMonitorEvent::StreamInvalidated(message) => error.kind
                    == ErrorKind::StreamInvalidated && error.message == message@,
            }
        },
        notice is DefaultOutputChanged && found is Some ==> report_of(notice, found) == (ErrorView {
            kind: ErrorKind::DeviceChanged,
            message: "default output device changed"@,
            context: None,
        }),
        notice is DefaultOutputChanged && found is None ==> report_of(notice, found) == (ErrorView {
            kind: ErrorKind::DeviceNotAvailable,
            message: "no default output device"@,
            context: None,
        }),
{
}

} // verus!
