//! The thread that watches what a system-audio stream is built on.
//!
//! The thread alternates between work on the audio system or on channels and decisions on what to
//! do next. The decisions are here: [`SystemAudioThread`] names the work that is due, and takes
//! what came of it.
use crate::error::Error;
use crate::host::Device;
use crate::plan::SystemAudioListenerEvent;
use crate::property::{AudioDeviceID, AudioObjectID};
use vstd::prelude::*;

verus! {

/// How long the thread waits for an event, in milliseconds, before it looks again whether it is
/// to end.
pub const EVENT_WAIT_MILLIS: u64 = 100;

/// What the thread tells the monitor of the stream.
#[derive(Copy, Clone, Debug, PartialEq, Eq)]
pub enum SystemAudioMonitorEvent {
    /// There is no device to record from.
    DeviceNotAvailable(&'static str),
    /// Something that the stream was built on has changed.
    StreamInvalidated(&'static str),
}

/// Why waiting for an event brought none.
#[derive(Copy, Clone, Debug, PartialEq, Eq, Structural)]
pub enum RecvTimeoutError {
    /// None came in time.
    Timeout,
    /// None can come any more.
    Disconnected,
}

/// What the monitor is told once it is known which device, if any, is the default output now.
pub open spec fn default_output_news(default_output_id: Option<AudioDeviceID>) -> SystemAudioMonitorEvent {
    match default_output_id {
        Some(_) => SystemAudioMonitorEvent::StreamInvalidated(
            "system audio default output changed",
        ),
        None => SystemAudioMonitorEvent::DeviceNotAvailable(
            "no default output device for system audio",
        ),
    }
}

/// What the monitor is told once it is known which device, if any, is the default output now.
pub fn default_output_event(default_output_id: Option<AudioDeviceID>) -> (event:
    SystemAudioMonitorEvent)
    ensures
        event == default_output_news(default_output_id),
{
    if default_output_id.is_some() {
        SystemAudioMonitorEvent::StreamInvalidated("system audio default output changed")
    } else {
        SystemAudioMonitorEvent::DeviceNotAvailable("no default output device for system audio")
    }
}

/// Work that is due in the thread.
#[derive(Debug, PartialEq, Eq)]
pub enum MonitorAction {
    /// Register what is watched for as long as the stream exists.
    RegisterListeners { aggregate_device_id: AudioDeviceID, tap_id: AudioObjectID },
    /// Find out which device is the default output.
    QueryDefaultOutput,
    /// Register what is watched on the default output device.
    RegisterDefaultOutputListeners(Option<AudioDeviceID>),
    /// Tell whoever started the thread whether it could be set up.
    ReportReady(Result<(), Error>),
    /// Look whether the thread is to end.
    CheckShutdown,
    /// Wait for an event of a listener, no longer than [`EVENT_WAIT_MILLIS`].
    WaitForEvent,
    /// Tell the monitor of the stream.
    SendEvent(SystemAudioMonitorEvent),
    /// End the thread.
    Exit,
}

/// What came of the work that was due.
#[derive(Debug, PartialEq, Eq)]
pub enum MonitorReply<L> {
    /// What is watched for as long as the stream exists was registered, or could not be.
    ListenersRegistered(Result<Vec<L>, Error>),
    /// The default output device, if there is one.
    DefaultOutput(Option<Device>),
    /// The listeners that could be had on the default output device.
    DefaultOutputListeners(Vec<L>),
    /// Whoever started the thread was told.
    Reported,
    /// Whether the thread is to end.
    Shutdown(bool),
    /// Waiting for an event is over.
    Waited(Result<SystemAudioListenerEvent, RecvTimeoutError>),
    /// The monitor was told.
    Sent,
}

/// The state of the thread between two pieces of work. It owns the listeners: they are given up when
/// the thread is to end.
#[derive(Debug, PartialEq, Eq)]
pub struct SystemAudioThread<L> {
    /// The work that is due.
    pub action: MonitorAction,
    /// Whether the thread has reported that it could be set up.
    pub ready: bool,
    /// What is watched for as long as the stream exists.
    pub listeners: Vec<L>,
    /// The default output device as it was last found.
    pub default_output_id: Option<AudioDeviceID>,
    /// What is watched on the default output device.
    pub default_output_listeners: Vec<L>,
}

/// What the state of the thread amounts to.
pub struct SystemAudioThreadView<L> {
    pub action: MonitorAction,
    pub ready: bool,
    pub listeners: Seq<L>,
    pub default_output_id: Option<AudioDeviceID>,
    pub default_output_listeners: Seq<L>,
}

impl<L> View for SystemAudioThread<L> {
    type V = SystemAudioThreadView<L>;

    open spec fn view(&self) -> SystemAudioThreadView<L> {
        SystemAudioThreadView {
            action: self.action,
            ready: self.ready,
            listeners: self.listeners@,
            default_output_id: self.default_output_id,
            default_output_listeners: self.default_output_listeners@,
        }
    }
}

impl<L> SystemAudioThreadView<L> {
    /// Whether no listener is held.
    pub open spec fn holds_nothing(self) -> bool {
        self.listeners.len() == 0 && self.default_output_listeners.len() == 0
    }

    /// The state once the thread is to end: every listener is given up.
    pub open spec fn ended(self) -> SystemAudioThreadView<L> {
        SystemAudioThreadView {
            action: MonitorAction::Exit,
            listeners: Seq::empty(),
            default_output_listeners: Seq::empty(),
            ..self
        }
    }

    /// The state after the work that was due has come to `reply`. A reply to work that was not due
    /// changes nothing.
    pub open spec fn after(self, reply: MonitorReply<L>) -> SystemAudioThreadView<L> {
        match (self.action, reply) {
            (
                MonitorAction::RegisterListeners { .. },
                MonitorReply::ListenersRegistered(Ok(listeners)),
            ) => SystemAudioThreadView {
                action: MonitorAction::QueryDefaultOutput,
                listeners: listeners@,
                ..self
            },
            (
                MonitorAction::RegisterListeners { .. },
                MonitorReply::ListenersRegistered(Err(error)),
            ) => SystemAudioThreadView { action: MonitorAction::ReportReady(Err(error)), ..self },
            (MonitorAction::QueryDefaultOutput, MonitorReply::DefaultOutput(device)) => {
                let default_output_id = Device::id_of(device);
                SystemAudioThreadView {
                    action: MonitorAction::RegisterDefaultOutputListeners(default_output_id),
                    default_output_id,
                    ..self
                }
            },
            (
                MonitorAction::RegisterDefaultOutputListeners(_),
                MonitorReply::DefaultOutputListeners(default_output_listeners),
            ) => SystemAudioThreadView {
                action: if self.ready {
                    MonitorAction::SendEvent(default_output_news(self.default_output_id))
                } else {
                    MonitorAction::ReportReady(Ok(()))
                },
                default_output_listeners: default_output_listeners@,
                ..self
            },
            (MonitorAction::ReportReady(Ok(_)), MonitorReply::Reported) => SystemAudioThreadView {
                action: MonitorAction::CheckShutdown,
                ready: true,
                ..self
            },
            (MonitorAction::ReportReady(Err(_)), MonitorReply::Reported) => self.ended(),
            (MonitorAction::CheckShutdown, MonitorReply::Shutdown(true)) => self.ended(),
            (MonitorAction::CheckShutdown, MonitorReply::Shutdown(false)) => SystemAudioThreadView {
                action: MonitorAction::WaitForEvent,
                ..self
            },
            (
                MonitorAction::WaitForEvent,
                MonitorReply::Waited(Err(RecvTimeoutError::Disconnected)),
            ) => self.ended(),
            (MonitorAction::WaitForEvent, MonitorReply::Waited(waited)) => SystemAudioThreadView {
                action: match waited {
                    Ok(SystemAudioListenerEvent::DeviceNotAvailable(message)) =>
                        MonitorAction::SendEvent(
                        SystemAudioMonitorEvent::DeviceNotAvailable(message),
                    ),
                    Ok(SystemAudioListenerEvent::StreamInvalidated(message)) =>
                        MonitorAction::SendEvent(
                        SystemAudioMonitorEvent::StreamInvalidated(message),
                    ),
                    Ok(SystemAudioListenerEvent::DefaultOutputChanged) =>
                        MonitorAction::QueryDefaultOutput,
                    Err(_) => MonitorAction::CheckShutdown,
                },
                ..self
            },
            (MonitorAction::SendEvent(_), MonitorReply::Sent) => SystemAudioThreadView {
                action: MonitorAction::CheckShutdown,
                ..self
            },
            _ => self,
        }
    }
}

impl<L> SystemAudioThread<L> {
    /// The state in which the thread starts.
    pub fn new(aggregate_device_id: AudioDeviceID, tap_id: AudioObjectID) -> (thread:
        SystemAudioThread<L>)
        ensures
            thread@ == (SystemAudioThreadView::<L> {
                action: MonitorAction::RegisterListeners { aggregate_device_id, tap_id },
                ready: false,
                listeners: Seq::empty(),
                default_output_id: None,
                default_output_listeners: Seq::empty(),
            }),
            thread@.wf(),
    {
        SystemAudioThread {
            action: MonitorAction::RegisterListeners { aggregate_device_id, tap_id },
            ready: false,
            listeners: Vec::new(),
            default_output_id: None,
            default_output_listeners: Vec::new(),
        }
    }

    /// Lets the thread end, and gives every listener up.
    fn end(&mut self)
        ensures
            final(self)@ == old(self)@.ended(),
    {
        self.action = MonitorAction::Exit;
        self.listeners = Vec::new();
        self.default_output_listeners = Vec::new();
    }

    /// Takes what came of the work that was due, and decides what is due next.
    pub fn step(self, reply: MonitorReply<L>) -> (next: SystemAudioThread<L>)
        ensures
            next@ == self@.after(reply),
    {
        let mut next = self;
        match reply {
            MonitorReply::ListenersRegistered(result) => {
                if let MonitorAction::RegisterListeners { .. } = next.action {
                    match result {
                        Ok(listeners) => {
                            next.listeners = listeners;
                            next.action = MonitorAction::QueryDefaultOutput;
                        },
                        Err(error) => {
                            next.action = MonitorAction::ReportReady(Err(error));
                        },
                    }
                }
            },
            MonitorReply::DefaultOutput(device) => {
                if let MonitorAction::QueryDefaultOutput = next.action {
                    next.default_output_id = Device::device_id(device);
                    next.action = MonitorAction::RegisterDefaultOutputListeners(
                        next.default_output_id,
                    );
                }
            },
            MonitorReply::DefaultOutputListeners(listeners) => {
                if let MonitorAction::RegisterDefaultOutputListeners(_) = next.action {
                    next.default_output_listeners = listeners;
                    next.action = if next.ready {
                        MonitorAction::SendEvent(default_output_event(next.default_output_id))
                    } else {
                        MonitorAction::ReportReady(Ok(()))
                    };
                }
            },
            MonitorReply::Reported => {
                match next.action {
                    MonitorAction::ReportReady(Ok(())) => {
                        next.ready = true;
                        next.action = MonitorAction::CheckShutdown;
                    },
                    MonitorAction::ReportReady(Err(_)) => {
                        next.end();
                    },
                    _ => {},
                }
            },
            MonitorReply::Shutdown(shutdown) => {
                if let MonitorAction::CheckShutdown = next.action {
                    if shutdown {
                        next.end();
                    } else {
                        next.action = MonitorAction::WaitForEvent;
                    }
                }
            },
            MonitorReply::Waited(waited) => {
                if let MonitorAction::WaitForEvent = next.action {
                    match waited {
                        Ok(SystemAudioListenerEvent::DeviceNotAvailable(message)) => {
                            next.action = MonitorAction::SendEvent(
                                SystemAudioMonitorEvent::DeviceNotAvailable(message),
                            );
                        },
                        Ok(SystemAudioListenerEvent::StreamInvalidated(message)) => {
                            next.action = MonitorAction::SendEvent(
                                SystemAudioMonitorEvent::StreamInvalidated(message),
                            );
                        },
                        Ok(SystemAudioListenerEvent::DefaultOutputChanged) => {
                            next.action = MonitorAction::QueryDefaultOutput;
                        },
                        Err(RecvTimeoutError::Timeout) => {
                            next.action = MonitorAction::CheckShutdown;
                        },
                        Err(RecvTimeoutError::Disconnected) => {
                            next.end();
                        },
                    }
                }
            },
            MonitorReply::Sent => {
                if let MonitorAction::SendEvent(_) = next.action {
                    next.action = MonitorAction::CheckShutdown;
                }
            },
        }
        next
    }
}

impl<L> SystemAudioThreadView<L> {
    /// What holds of every state that the thread can come into. Until it has reported that it
    /// could be set up it is being set up, and afterwards it serves events. The listeners that
    /// are to be registered on the default output device are those for the device last found. A
    /// thread that has registered nothing yet, that could not be set up or that is to end holds no
    /// listener.
    pub open spec fn wf(self) -> bool {
        match self.action {
            MonitorAction::RegisterListeners { .. } => !self.ready && self.holds_nothing(),
            MonitorAction::ReportReady(set_up) => !self.ready && (set_up is Err
                ==> self.holds_nothing()),
            MonitorAction::QueryDefaultOutput => true,
            MonitorAction::RegisterDefaultOutputListeners(id) => id == self.default_output_id,
            MonitorAction::CheckShutdown => self.ready,
            MonitorAction::WaitForEvent => self.ready,
            MonitorAction::SendEvent(_) => self.ready,
            MonitorAction::Exit => self.holds_nothing(),
        }
    }

    /// Whether `reply` is an answer to the work that is due.
    pub open spec fn due(self, reply: MonitorReply<L>) -> bool {
        match self.action {
            MonitorAction::RegisterListeners { .. } => reply is ListenersRegistered,
            MonitorAction::QueryDefaultOutput => reply is DefaultOutput,
            MonitorAction::RegisterDefaultOutputListeners(_) => reply is DefaultOutputListeners,
            MonitorAction::ReportReady(_) => reply is Reported,
            MonitorAction::CheckShutdown => reply is Shutdown,
            MonitorAction::WaitForEvent => reply is Waited,
            MonitorAction::SendEvent(_) => reply is Sent,
            MonitorAction::Exit => false,
        }
    }

    /// Whether each of `replies` is an answer to the work that is due when it comes.
    pub open spec fn all_due(self, replies: Seq<MonitorReply<L>>) -> bool
        decreases replies.len(),
    {
        replies.len() > 0 ==> self.due(replies[0]) && self.after(replies[0]).all_due(
            replies.drop_first(),
        )
    }

    /// The state after all of `replies`, one after the other.
    pub open spec fn after_all(self, replies: Seq<MonitorReply<L>>) -> SystemAudioThreadView<L>
        decreases replies.len(),
    {
        if replies.len() == 0 {
            self
        } else {
            self.after(replies[0]).after_all(replies.drop_first())
        }
    }

    /// What the monitor is told in the course of `replies`, in this order.
    pub open spec fn told(self, replies: Seq<MonitorReply<L>>) -> Seq<SystemAudioMonitorEvent>
        decreases replies.len(),
    {
        if replies.len() == 0 {
            Seq::empty()
        } else {
            let rest = self.after(replies[0]).told(replies.drop_first());
            match (self.action, replies[0]) {
                (MonitorAction::SendEvent(event), MonitorReply::Sent) => seq![event] + rest,
                _ => rest,
            }
        }
    }

    /// The events of listeners that are taken up in the course of `replies`, in this order.
    pub open spec fn taken(self, replies: Seq<MonitorReply<L>>) -> Seq<SystemAudioListenerEvent>
        decreases replies.len(),
    {
        if replies.len() == 0 {
            Seq::empty()
        } else {
            let rest = self.after(replies[0]).taken(replies.drop_first());
            match (self.action, replies[0]) {
                (MonitorAction::WaitForEvent, MonitorReply::Waited(Ok(event))) => seq![event] + rest,
                _ => rest,
            }
        }
    }

    /// What was found each time when, in the course of `replies`, the thread looked for the default
    /// output device because of a change, in this order.
    pub open spec fn found(self, replies: Seq<MonitorReply<L>>) -> Seq<Option<Device>>
        decreases replies.len(),
    {
        if replies.len() == 0 {
            Seq::empty()
        } else {
            let rest = self.after(replies[0]).found(replies.drop_first());
            match (self.action, replies[0]) {
                (MonitorAction::QueryDefaultOutput, MonitorReply::DefaultOutput(device)) => if
                self.ready {
                    seq![device] + rest
                } else {
                    rest
                },
                _ => rest,
            }
        }
    }

    /// Whether an event was taken up of which the monitor has yet to be told.
    pub open spec fn busy(self) -> bool {
        self.ready && (self.action is QueryDefaultOutput
            || self.action is RegisterDefaultOutputListeners || self.action is SendEvent)
    }
}

/// What the monitor is told of `event`. For a change of the default output that depends on whether
/// a device was found; everything else keeps its meaning and its message.
pub open spec fn news_of(
    event: SystemAudioListenerEvent,
    found: Option<Device>,
) -> SystemAudioMonitorEvent {
    match event {
        SystemAudioListenerEvent::DeviceNotAvailable(message) =>
            SystemAudioMonitorEvent::DeviceNotAvailable(message),
        SystemAudioListenerEvent::StreamInvalidated(message) =>
            SystemAudioMonitorEvent::StreamInvalidated(message),
        SystemAudioListenerEvent::DefaultOutputChanged => default_output_news(Device::id_of(found)),
    }
}

/// What the monitor is told of the events `taken`, in their order, where `found` holds what was
/// found for each change of the default output among them, in the same order. It goes no further
/// than to a change for which nothing was looked up yet.
pub open spec fn all_news(
    taken: Seq<SystemAudioListenerEvent>,
    found: Seq<Option<Device>>,
) -> Seq<SystemAudioMonitorEvent>
    decreases taken.len(),
{
    if taken.len() == 0 {
        Seq::empty()
    } else if !(taken[0] is DefaultOutputChanged) {
        seq![news_of(taken[0], None)] + all_news(taken.drop_first(), found)
    } else if found.len() == 0 {
        Seq::empty()
    } else {
        seq![news_of(taken[0], found[0])] + all_news(taken.drop_first(), found.drop_first())
    }
}

/// The thread never leaves the states that [`SystemAudioThreadView::wf`] describes.
pub proof fn law_states_stay_well_formed<L>(
    thread: SystemAudioThreadView<L>,
    replies: Seq<MonitorReply<L>>,
)
    requires
        thread.wf(),
    ensures
        thread.after_all(replies).wf(),
    decreases replies.len(),
{
    if replies.len() > 0 {
        law_states_stay_well_formed(thread.after(replies[0]), replies.drop_first());
    }
}

/// A thread that is to end stays so: whatever comes in, nothing changes and the monitor is told
/// nothing more.
pub proof fn law_exit_is_final<L>(thread: SystemAudioThreadView<L>, replies: Seq<MonitorReply<L>>)
    requires
        thread.action is Exit,
    ensures
        thread.after_all(replies) == thread,
        thread.told(replies).len() == 0,
    decreases replies.len(),
{
    if replies.len() > 0 {
        law_exit_is_final(thread, replies.drop_first());
    }
}

/// Once the thread serves events, what is watched for as long as the stream exists stays
/// registered until the thread ends. Then every listener is given up.
pub proof fn law_listeners_are_kept_until_the_end<L>(
    thread: SystemAudioThreadView<L>,
    replies: Seq<MonitorReply<L>>,
)
    requires
        thread.wf(),
        thread.ready,
    ensures
        ({
            let end = thread.after_all(replies);
            &&& end.ready
            &&& !(end.action is Exit) ==> end.listeners == thread.listeners
            &&& end.action is Exit ==> end.listeners.len() == 0
                && end.default_output_listeners.len() == 0
        }),
    decreases replies.len(),
{
    if replies.len() > 0 {
        let next = thread.after(replies[0]);
        law_listeners_are_kept_until_the_end(next, replies.drop_first());
        if next.action is Exit {
            law_exit_is_final(next, replies.drop_first());
        }
    }
}

/// The thread comes to wait for an event only right after it has looked whether it is to end, and
/// was not. So it does not wait twice without looking in between.
pub proof fn law_shutdown_is_checked_before_each_wait<L>(
    thread: SystemAudioThreadView<L>,
    reply: MonitorReply<L>,
)
    ensures
        !(thread.action is WaitForEvent) && thread.after(reply).action is WaitForEvent
            ==> thread.action is CheckShutdown && reply == MonitorReply::<L>::Shutdown(false),
        thread.action is WaitForEvent && reply is Waited ==> !(thread.after(
            reply,
        ).action is WaitForEvent),
{
}

/// A thread that looks whether it is to end, and is, ends and gives every listener up. So does one
/// to which no event can come any more.
pub proof fn law_shutdown_ends_the_thread<L>(thread: SystemAudioThreadView<L>)
    ensures
        thread.action is CheckShutdown ==> ({
            let end = thread.after(MonitorReply::Shutdown(true));
            end.action is Exit && end.listeners.len() == 0 && end.default_output_listeners.len()
                == 0
        }),
        thread.action is WaitForEvent ==> ({
            let end = thread.after(MonitorReply::Waited(Err(RecvTimeoutError::Disconnected)));
            end.action is Exit && end.listeners.len() == 0 && end.default_output_listeners.len()
                == 0
        }),
{
}

/// Whoever tells a thread that serves events to end hears of at most one more event, whatever the
/// listeners report, and the thread ends after at most five more pieces of work: the wait that was
/// going on, the three that a change of the default output takes, and looking whether it is to end.
pub proof fn law_thread_ends_soon_after_shutdown<L>(
    thread: SystemAudioThreadView<L>,
    replies: Seq<MonitorReply<L>>,
)
    requires
        thread.wf(),
        thread.ready,
        thread.all_due(replies),
        forall|i: int| 0 <= i < replies.len() ==> #[trigger] replies[i] != MonitorReply::<
            L,
        >::Shutdown(false),
    ensures
        thread.told(replies).len() <= 1,
        replies.len() <= 5,
{
    lemma_work_left_after_shutdown(thread, replies);
}

/// The work that is left at most once the thread was told to end.
spec fn work_left<L>(thread: SystemAudioThreadView<L>) -> int {
    match thread.action {
        MonitorAction::WaitForEvent => 5,
        MonitorAction::QueryDefaultOutput => 4,
        MonitorAction::RegisterDefaultOutputListeners(_) => 3,
        MonitorAction::SendEvent(_) => 2,
        MonitorAction::CheckShutdown => 1,
        _ => 0,
    }
}

proof fn lemma_work_left_after_shutdown<L>(
    thread: SystemAudioThreadView<L>,
    replies: Seq<MonitorReply<L>>,
)
    requires
        thread.wf(),
        thread.ready,
        thread.all_due(replies),
        forall|i: int| 0 <= i < replies.len() ==> #[trigger] replies[i] != MonitorReply::<
            L,
        >::Shutdown(false),
    ensures
        thread.told(replies).len() <= (if work_left(thread) <= 1 { 0int } else { 1 }),
        replies.len() <= work_left(thread),
    decreases replies.len(),
{
    if replies.len() > 0 {
        assert(replies[0] != MonitorReply::<L>::Shutdown(false));
        assert forall|i: int| 0 <= i < replies.drop_first().len() implies #[trigger]
        replies.drop_first()[i] != MonitorReply::<L>::Shutdown(false) by {
            assert(replies.drop_first()[i] == replies[i + 1]);
        }
        lemma_work_left_after_shutdown(thread.after(replies[0]), replies.drop_first());
    }
}

/// When the default output changes, its listeners are replaced by those for the device that is
/// the default output now, and then the monitor is told: that the stream is invalidated where
/// there is such a device, that there is no device where there is none.
pub proof fn law_default_output_is_followed<L>(
    thread: SystemAudioThreadView<L>,
    device: Option<Device>,
    listeners: Vec<L>,
)
    requires
        thread.ready,
        thread.action is WaitForEvent,
    ensures
        ({
            let queried = thread.after(
                MonitorReply::Waited(Ok(SystemAudioListenerEvent::DefaultOutputChanged)),
            );
            let found = queried.after(MonitorReply::DefaultOutput(device));
            let replaced = found.after(MonitorReply::DefaultOutputListeners(listeners));
            &&& queried.action is QueryDefaultOutput
            &&& found.action == MonitorAction::RegisterDefaultOutputListeners(Device::id_of(device))
            &&& replaced.default_output_listeners == listeners@
            &&& replaced.default_output_id == Device::id_of(device)
            &&& replaced.action == MonitorAction::SendEvent(
                match device {
                    Some(_) => SystemAudioMonitorEvent::StreamInvalidated(
                        "system audio default output changed",
                    ),
                    None => SystemAudioMonitorEvent::DeviceNotAvailable(
                        "no default output device for system audio",
                    ),
                },
            )
        }),
{
}

/// Where a listener that the stream cannot do without could not be had, the thread reports that
/// error and ends, and never serves an event.
pub proof fn law_failed_setup_is_reported<L>(thread: SystemAudioThreadView<L>, error: Error)
    requires
        thread.action is RegisterListeners,
    ensures
        ({
            let failed = thread.after(MonitorReply::ListenersRegistered(Err(error)));
            &&& failed.action == MonitorAction::ReportReady(Err(error))
            &&& failed.after(MonitorReply::Reported).action is Exit
            &&& failed.after(MonitorReply::Reported).ready == thread.ready
        }),
{
}

/// The monitor is told once of each event that was taken up, in the order in which they were
/// taken up, and each time exactly what [`news_of`] says, given the devices that were found. At
/// most the last event is still being worked on.
pub proof fn law_each_event_is_told_once<L>(
    thread: SystemAudioThreadView<L>,
    replies: Seq<MonitorReply<L>>,
)
    requires
        thread.wf(),
        !thread.busy(),
    ensures
        ({
            let taken = thread.taken(replies);
            let news = all_news(taken, thread.found(replies));
            let told = thread.told(replies);
            &&& told.is_prefix_of(news)
            &&& !thread.after_all(replies).busy() ==> told == news && told.len() == taken.len()
            &&& thread.after_all(replies).busy() ==> told.len() + 1 == taken.len()
        }),
    decreases replies.len(),
{
    if replies.len() > 0 {
        let next = thread.after(replies[0]);
        let rest = replies.drop_first();
        assert(thread.found(replies) == next.found(rest));
        assert(thread.told(replies) == next.told(rest));
        if next.busy() {
            let event = replies[0]->Waited_0->Ok_0;
            assert(thread.taken(replies) == seq![event] + next.taken(rest));
            lemma_busy_event_is_told(next, event, Seq::empty(), rest);
            assert(Seq::empty() + next.found(rest) =~= next.found(rest));
        } else {
            law_each_event_is_told_once(next, rest);
            assert(thread.taken(replies) == next.taken(rest));
        }
    }
}

/// Whether what is due fits with `event` being worked on, where `already` holds what was found
/// for it, if that was looked up.
spec fn working_on<L>(
    thread: SystemAudioThreadView<L>,
    event: SystemAudioListenerEvent,
    already: Seq<Option<Device>>,
) -> bool {
    match thread.action {
        MonitorAction::SendEvent(told) => if event is DefaultOutputChanged {
            already.len() == 1 && told == news_of(event, already[0])
        } else {
            already.len() == 0 && told == news_of(event, None)
        },
        MonitorAction::RegisterDefaultOutputListeners(id) => event is DefaultOutputChanged
            && already.len() == 1 && id == Device::id_of(already[0]),
        _ => event is DefaultOutputChanged && already.len() == 0,
    }
}

/// The same for a thread that is working on `event`.
proof fn lemma_busy_event_is_told<L>(
    thread: SystemAudioThreadView<L>,
    event: SystemAudioListenerEvent,
    already: Seq<Option<Device>>,
    replies: Seq<MonitorReply<L>>,
)
    requires
        thread.wf(),
        thread.busy(),
        working_on(thread, event, already),
    ensures
        ({
            let taken = seq![event] + thread.taken(replies);
            let news = all_news(taken, already + thread.found(replies));
            let told = thread.told(replies);
            &&& told.is_prefix_of(news)
            &&& !thread.after_all(replies).busy() ==> told == news && told.len() == taken.len()
            &&& thread.after_all(replies).busy() ==> told.len() + 1 == taken.len()
        }),
    decreases replies.len(),
{
    if replies.len() > 0 {
        let next = thread.after(replies[0]);
        let rest = replies.drop_first();
        assert(thread.taken(replies) == next.taken(rest));
        if next.busy() {
            assert(thread.told(replies) == next.told(rest));
            if thread.action is QueryDefaultOutput && replies[0] is DefaultOutput {
                let device = replies[0]->DefaultOutput_0;
                assert(already + thread.found(replies) =~= seq![device] + next.found(rest));
                lemma_busy_event_is_told(next, event, seq![device], rest);
            } else {
                assert(thread.found(replies) == next.found(rest));
                lemma_busy_event_is_told(next, event, already, rest);
            }
        } else {
            law_each_event_is_told_once(next, rest);
            let told = thread.action->SendEvent_0;
            let taken = next.taken(rest);
            let found = next.found(rest);
            assert(thread.found(replies) == found);
            assert(thread.told(replies) == seq![told] + next.told(rest));
            assert((seq![event] + taken).drop_first() =~= taken);
            if event is DefaultOutputChanged {
                assert((already + found).drop_first() =~= found);
            } else {
                assert(already + found =~= found);
            }
            assert(all_news(seq![event] + taken, already + found) == seq![told] + all_news(
                taken,
                found,
            ));
        }
    }
}

/// A thread starts by registering the listeners for the devices that it was made for. It holds none
/// and has not reported.
pub proof fn law_threads_start_by_registering<L>(
    aggregate_device_id: AudioDeviceID,
    tap_id: AudioObjectID,
    thread: SystemAudioThread<L>,
)
    requires
        call_ensures(SystemAudioThread::<L>::new, (aggregate_device_id, tap_id), thread),
    ensures
        thread.action == (MonitorAction::RegisterListeners { aggregate_device_id, tap_id }),
        !thread.ready,
        thread.listeners@.len() == 0,
        thread.default_output_id is None,
        thread.default_output_listeners@.len() == 0,
{
}

/// The listeners that the thread holds are replaced by those that were registered, all of them and
/// in their order, and are given up when the thread comes to its end. Nothing else touches them: no
/// event, no news to the monitor, no look at the shutdown channel.
pub proof fn law_only_registering_and_the_end_touch_listeners<L>(
    thread: SystemAudioThread<L>,
    reply: MonitorReply<L>,
    next: SystemAudioThread<L>,
)
    requires
        call_ensures(SystemAudioThread::<L>::step, (thread, reply), next),
    ensures
        thread.action is RegisterListeners && reply is ListenersRegistered
            && reply->ListenersRegistered_0 is Ok ==> next.listeners@
            == reply->ListenersRegistered_0->Ok_0@,
        thread.action is RegisterDefaultOutputListeners && reply is DefaultOutputListeners
            ==> next.default_output_listeners@ == reply->DefaultOutputListeners_0@,
        !(thread.action is Exit) && next.action is Exit ==> next.listeners@.len() == 0
            && next.default_output_listeners@.len() == 0,
        next.listeners@ == thread.listeners@ || next.action is Exit || (thread.action
            is RegisterListeners && reply is ListenersRegistered),
        next.default_output_listeners@ == thread.default_output_listeners@ || next.action is Exit
            || (thread.action is RegisterDefaultOutputListeners && reply
            is DefaultOutputListeners),
        thread.action is RegisterListeners && reply is ListenersRegistered
            && reply->ListenersRegistered_0 is Err ==> next.listeners@ == thread.listeners@,
{
}

/// The device that the thread takes for the default output is the one that it found when it last
/// looked. It has reported that it could be set up from the moment on at which it did so, for good.
pub proof fn law_what_the_thread_knows<L>(
    thread: SystemAudioThread<L>,
    reply: MonitorReply<L>,
    next: SystemAudioThread<L>,
)
    requires
        call_ensures(SystemAudioThread::<L>::step, (thread, reply), next),
    ensures
        thread.action is QueryDefaultOutput && reply is DefaultOutput ==> {
            &&& next.default_output_id is Some <==> reply->DefaultOutput_0 is Some
            &&& next.default_output_id is Some ==> next.default_output_id->Some_0
                == reply->DefaultOutput_0->Some_0.audio_device_id
        },
        !(thread.action is QueryDefaultOutput && reply is DefaultOutput) ==> next.default_output_id
            == thread.default_output_id,
        next.ready <==> thread.ready || (thread.action is ReportReady
            && thread.action->ReportReady_0 is Ok && reply is Reported),
{
}

/// The thread comes to its end for one of three reasons only, and for each of them: it has reported
/// that it could not be set up, it was told to end, or no event can come any more.
pub proof fn law_why_the_thread_ends<L>(
    thread: SystemAudioThread<L>,
    reply: MonitorReply<L>,
    next: SystemAudioThread<L>,
)
    requires
        call_ensures(SystemAudioThread::<L>::step, (thread, reply), next),
        !(thread.action is Exit),
    ensures
        next.action is Exit <==> {
            ||| thread.action is ReportReady && thread.action->ReportReady_0 is Err && reply
                is Reported
            ||| thread.action is CheckShutdown && reply == MonitorReply::<L>::Shutdown(true)
            ||| thread.action is WaitForEvent && reply == MonitorReply::<L>::Waited(
                Err(RecvTimeoutError::Disconnected),
            )
        },
{
}

/// A thread that serves events goes round: it looks whether it is to end, waits for an event, and
/// tells the monitor. It looks after every wait that brought nothing and after everything that it
/// told, and waits whenever it looked and was not to end.
pub proof fn law_the_thread_goes_round<L>(
    thread: SystemAudioThread<L>,
    reply: MonitorReply<L>,
    next: SystemAudioThread<L>,
)
    requires
        call_ensures(SystemAudioThread::<L>::step, (thread, reply), next),
    ensures
        !(thread.action is CheckShutdown) ==> (next.action is CheckShutdown <==> {
            ||| thread.action is ReportReady && thread.action->ReportReady_0 is Ok && reply
                is Reported
            ||| thread.action is WaitForEvent && reply == MonitorReply::<L>::Waited(
                Err(RecvTimeoutError::Timeout),
            )
            ||| thread.action is SendEvent && reply is Sent
        }),
        !(thread.action is WaitForEvent) ==> (next.action is WaitForEvent <==> thread.action
            is CheckShutdown && reply == MonitorReply::<L>::Shutdown(false)),
{
}

/// The thread looks for the default output device once what is watched as long as the stream exists
/// is registered, and each time that device has changed, and at no other time. It then registers the
/// listeners on what it found, and on nothing else.
pub proof fn law_when_the_default_output_is_looked_for<L>(
    thread: SystemAudioThread<L>,
    reply: MonitorReply<L>,
    next: SystemAudioThread<L>,
)
    requires
        call_ensures(SystemAudioThread::<L>::step, (thread, reply), next),
    ensures
        !(thread.action is QueryDefaultOutput) ==> (next.action is QueryDefaultOutput <==> {
            ||| thread.action is RegisterListeners && reply is ListenersRegistered
                && reply->ListenersRegistered_0 is Ok
            ||| thread.action is WaitForEvent && reply == MonitorReply::<L>::Waited(
                Ok(SystemAudioListenerEvent::DefaultOutputChanged),
            )
        }),
        !(thread.action is RegisterDefaultOutputListeners) ==> (next.action
            is RegisterDefaultOutputListeners <==> thread.action is QueryDefaultOutput && reply
            is DefaultOutput),
        thread.action is QueryDefaultOutput && reply is DefaultOutput ==> ({
            let watched = next.action->RegisterDefaultOutputListeners_0;
            &&& watched is Some <==> reply->DefaultOutput_0 is Some
            &&& watched is Some ==> watched->Some_0 == reply->DefaultOutput_0->Some_0.audio_device_id
        }),
        thread.action is RegisterListeners && next.action is RegisterListeners ==> next.action
            == thread.action,
        next.action is RegisterListeners ==> thread.action is RegisterListeners,
{
}

/// Whoever started the thread is told that it could be set up once all its listeners are registered,
/// and the error of the registration where they could not be. The thread reports at no other time.
pub proof fn law_what_the_thread_reports<L>(
    thread: SystemAudioThread<L>,
    reply: MonitorReply<L>,
    next: SystemAudioThread<L>,
)
    requires
        call_ensures(SystemAudioThread::<L>::step, (thread, reply), next),
        !(thread.action is ReportReady),
    ensures
        next.action is ReportReady <==> {
            ||| thread.action is RegisterListeners && reply is ListenersRegistered
                && reply->ListenersRegistered_0 is Err
            ||| thread.action is RegisterDefaultOutputListeners && reply is DefaultOutputListeners
                && !thread.ready
        },
        next.action is ReportReady ==> {
            &&& next.action->ReportReady_0 is Err <==> thread.action is RegisterListeners
            &&& thread.action is RegisterListeners ==> next.action->ReportReady_0->Err_0
                == reply->ListenersRegistered_0->Err_0
        },
{
}

/// The monitor is told of each event that comes in, and of nothing else: of a lost device and of an
/// invalidated stream as they came, and of a change of the default output once its listeners are
/// replaced. That is an invalidated stream where there is a default output now, and a lost device
/// where there is none.
pub proof fn law_what_the_monitor_is_told<L>(
    thread: SystemAudioThread<L>,
    reply: MonitorReply<L>,
    next: SystemAudioThread<L>,
)
    requires
        call_ensures(SystemAudioThread::<L>::step, (thread, reply), next),
        !(thread.action is SendEvent),
    ensures
        next.action is SendEvent <==> {
            ||| thread.action is WaitForEvent && reply is Waited && reply->Waited_0 is Ok && !(
            reply->Waited_0->Ok_0 is DefaultOutputChanged)
            ||| thread.action is RegisterDefaultOutputListeners && reply is DefaultOutputListeners
                && thread.ready
        },
        thread.action is WaitForEvent && reply is Waited && reply->Waited_0 is Ok ==> {
            let event = reply->Waited_0->Ok_0;
            &&& event is DeviceNotAvailable ==> next.action == MonitorAction::SendEvent(
                SystemAudioMonitorEvent::DeviceNotAvailable(event->DeviceNotAvailable_0),
            )
            &&& event is StreamInvalidated ==> next.action == MonitorAction::SendEvent(
                SystemAudioMonitorEvent::StreamInvalidated(event->StreamInvalidated_0),
            )
        },
        thread.action is RegisterDefaultOutputListeners && reply is DefaultOutputListeners
            && thread.ready ==> {
            let told = next.action->SendEvent_0;
            &&& thread.default_output_id is Some ==> told is StreamInvalidated
                && told->StreamInvalidated_0@ == "system audio default output changed"@
            &&& thread.default_output_id is None ==> told is DeviceNotAvailable
                && told->DeviceNotAvailable_0@ == "no default output device for system audio"@
        },
{
}

/// A reply to work that is not due leaves everything as it is.
pub proof fn law_other_replies_change_nothing<L>(
    thread: SystemAudioThread<L>,
    reply: MonitorReply<L>,
    next: SystemAudioThread<L>,
)
    requires
        call_ensures(SystemAudioThread::<L>::step, (thread, reply), next),
        !(thread.action is RegisterListeners && reply is ListenersRegistered),
        !(thread.action is QueryDefaultOutput && reply is DefaultOutput),
        !(thread.action is RegisterDefaultOutputListeners && reply is DefaultOutputListeners),
        !(thread.action is ReportReady && reply is Reported),
        !(thread.action is CheckShutdown && reply is Shutdown),
        !(thread.action is WaitForEvent && reply is Waited),
        !(thread.action is SendEvent && reply is Sent),
    ensures
        next.action == thread.action,
        next.ready == thread.ready,
        next.listeners@ == thread.listeners@,
        next.default_output_id == thread.default_output_id,
        next.default_output_listeners@ == thread.default_output_listeners@,
{
}

/// Whether the thread went through the states of `course` as it was given `replies`, one after the
/// other.
pub open spec fn went_through<L>(
    course: Seq<SystemAudioThread<L>>,
    replies: Seq<MonitorReply<L>>,
) -> bool {
    &&& course.len() == replies.len() + 1
    &&& forall|i: int|
        0 <= i < replies.len() ==> call_ensures(
            SystemAudioThread::<L>::step,
            (course[i], #[trigger] replies[i]),
            course[i + 1],
        )
}

/// What was registered when the thread was set up is held, all of it and in its order, in every
/// later state until the thread ends. Then nothing is held.
pub proof fn law_all_listeners_are_held_to_the_end<L>(
    course: Seq<SystemAudioThread<L>>,
    replies: Seq<MonitorReply<L>>,
    from: int,
    to: int,
)
    requires
        went_through(course, replies),
        0 <= from < to <= replies.len(),
        course[from].action is RegisterListeners,
        replies[from] is ListenersRegistered,
        replies[from]->ListenersRegistered_0 is Ok,
    ensures
        !(course[to].action is Exit) ==> course[to].listeners@
            == replies[from]->ListenersRegistered_0->Ok_0@,
        course[to].action is Exit ==> course[to].listeners@.len() == 0
            && course[to].default_output_listeners@.len() == 0,
        !(course[to].action is RegisterListeners),
    decreases to,
{
    let reply = replies[to - 1];
    law_only_registering_and_the_end_touch_listeners(course[to - 1], reply, course[to]);
    law_when_the_default_output_is_looked_for(course[to - 1], reply, course[to]);
    if to > from + 1 {
        law_all_listeners_are_held_to_the_end(course, replies, from, to - 1);
        if course[to - 1].action is Exit {
            law_other_replies_change_nothing(course[to - 1], reply, course[to]);
        }
    }
}

/// The listeners on the default output device that the thread holds are those that it registered
/// last, all of them and in their order, or those that it held at `from` where it has registered
/// none since, until the thread ends. In particular they are held while the monitor is told of
/// their registration and of anything else.
pub proof fn law_default_output_listeners_are_the_last_ones<L>(
    course: Seq<SystemAudioThread<L>>,
    replies: Seq<MonitorReply<L>>,
    from: int,
    to: int,
)
    requires
        went_through(course, replies),
        0 <= from < to <= replies.len(),
        forall|i: int|
            from < i < to ==> !(course[i].action is RegisterDefaultOutputListeners && #[trigger]
            replies[i] is DefaultOutputListeners),
        !(course[to].action is Exit),
    ensures
        course[from].action is RegisterDefaultOutputListeners && replies[from]
            is DefaultOutputListeners ==> course[to].default_output_listeners@
            == replies[from]->DefaultOutputListeners_0@,
        !(course[from].action is RegisterDefaultOutputListeners && replies[from]
            is DefaultOutputListeners) ==> course[to].default_output_listeners@
            == course[from].default_output_listeners@,
    decreases to,
{
    let reply = replies[to - 1];
    law_only_registering_and_the_end_touch_listeners(course[to - 1], reply, course[to]);
    if to > from + 1 {
        if course[to - 1].action is Exit {
            law_other_replies_change_nothing(course[to - 1], reply, course[to]);
        }
        law_default_output_listeners_are_the_last_ones(course, replies, from, to - 1);
    }
}

/// A change of the default output brings news of an invalidated stream exactly where there is a
/// default output now, whichever device that is.
pub proof fn law_default_output_news(
    default_output_id: Option<AudioDeviceID>,
    event: SystemAudioMonitorEvent,
)
    requires
        call_ensures(default_output_event, (default_output_id,), event),
    ensures
        event == default_output_news(default_output_id),
        event is StreamInvalidated <==> default_output_id is Some,
        event is StreamInvalidated ==> event->StreamInvalidated_0@
            == "system audio default output changed"@,
        event is DeviceNotAvailable ==> event->DeviceNotAvailable_0@
            == "no default output device for system audio"@,
{
}

/// A lost device and an invalidated stream are passed on as what they are, whatever was found. Only
/// the news of a change of the default output depends on that.
pub proof fn law_news_keep_their_meaning(
    event: SystemAudioListenerEvent,
    found: Option<Device>,
)
    ensures
        event is DeviceNotAvailable ==> news_of(event, found)
            == SystemAudioMonitorEvent::DeviceNotAvailable(event->DeviceNotAvailable_0),
        event is StreamInvalidated ==> news_of(event, found)
            == SystemAudioMonitorEvent::StreamInvalidated(event->StreamInvalidated_0),
        event is DefaultOutputChanged ==> (news_of(event, found) is StreamInvalidated <==> found
            is Some),
{
}

} // verus!
