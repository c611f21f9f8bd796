//! Starting the monitor of a stream.
//!
//! A monitor has a thread that owns its property listeners, and a thread that tells the owner of
//! the stream what the listeners report. The first has to say that it is ready before the second
//! is started.
use crate::error::{Error, ErrorKind, ErrorView};
use crate::plan::{property_listener, ListenerRequest};
use crate::property::{
    AudioDeviceID, AudioObject, PropertyAddress, PropertyScope, PropertySelector,
};
use vstd::prelude::*;

verus! {

/// The monitors that a stream can have.
#[derive(Copy, Clone, Debug, PartialEq, Eq, Structural)]
pub enum MonitorKind {
    /// Watches whether the device of the stream stays connected and keeps its sample rate.
    Disconnect,
    /// Watches which device is the system's default output.
    DefaultOutput,
    /// Watches what a system-audio stream is built on.
    SystemAudio,
}

impl MonitorKind {
    /// The message for a listener thread that ended without a word.
    pub open spec fn terminated(self) -> Seq<char> {
        match self {
            MonitorKind::Disconnect => "Stream monitor terminated unexpectedly"@,
            MonitorKind::DefaultOutput => "property listener thread terminated unexpectedly"@,
            MonitorKind::SystemAudio => "system-audio monitor thread terminated unexpectedly"@,
        }
    }

    /// How the message begins for a delivery thread that could not be started.
    pub open spec fn spawn_failed(self) -> Seq<char> {
        match self {
            MonitorKind::Disconnect => "Failed to spawn disconnect thread: "@,
            MonitorKind::DefaultOutput => "failed to spawn default-output monitor thread: "@,
            MonitorKind::SystemAudio => "failed to spawn system-audio monitor thread: "@,
        }
    }

    /// The name of the delivery thread.
    pub fn thread_name(&self) -> (name: &'static str)
        ensures
            name@ == (match *self {
                MonitorKind::Disconnect => "cpal-coreaudio-disconnect"@,
                MonitorKind::DefaultOutput => "cpal-coreaudio-default-output"@,
                MonitorKind::SystemAudio => "cpal-coreaudio-system-audio"@,
            }),
    {
        match *self {
            MonitorKind::Disconnect => "cpal-coreaudio-disconnect",
            MonitorKind::DefaultOutput => "cpal-coreaudio-default-output",
            MonitorKind::SystemAudio => "cpal-coreaudio-system-audio",
        }
    }
}

/// Says that the listener thread ended before it said whether it is ready.
#[derive(Copy, Clone, Debug, PartialEq, Eq, Structural)]
pub struct RecvError;

/// What starting a listener thread comes to, given what the thread said when it was asked whether
/// it is ready.
pub fn listener_thread_result(
    kind: MonitorKind,
    ready: Result<Result<(), Error>, RecvError>,
) -> (result: Result<(), Error>)
    ensures
        match ready {
            Ok(said) => result == said,
            Err(_) => result matches Err(error) && error@ == ErrorView::plain(
                ErrorKind::StreamInvalidated,
                kind.terminated(),
            ),
        },
{
    match ready {
        Ok(said) => said,
        Err(_) => {
            let message = match kind {
                MonitorKind::Disconnect => "Stream monitor terminated unexpectedly",
                MonitorKind::DefaultOutput => "property listener thread terminated unexpectedly",
                MonitorKind::SystemAudio => "system-audio monitor thread terminated unexpectedly",
            };
            Err(Error::with_message(ErrorKind::StreamInvalidated, message))
        },
    }
}

/// What starting a delivery thread comes to, given what the system answered.
pub fn delivery_thread_result(kind: MonitorKind, spawned: Result<(), String>) -> (result: Result<
    (),
    Error,
>)
    ensures
        match spawned {
            Ok(_) => result == Ok::<(), Error>(()),
            Err(cause) => result matches Err(error) && error@ == ErrorView::plain(
                ErrorKind::ResourceExhausted,
                kind.spawn_failed() + cause@,
            ),
        },
{
    match spawned {
        Ok(_) => Ok(()),
        Err(cause) => {
            let prefix = match kind {
                MonitorKind::Disconnect => "Failed to spawn disconnect thread: ",
                MonitorKind::DefaultOutput => "failed to spawn default-output monitor thread: ",
                MonitorKind::SystemAudio => "failed to spawn system-audio monitor thread: ",
            };
            Err(Error::with_cause(ErrorKind::ResourceExhausted, prefix, cause.as_str()))
        },
    }
}

/// A monitor that is being started: the work that is due.
#[derive(Debug, PartialEq, Eq)]
pub enum MonitorStartup {
    /// Wait until the listener thread, which runs already, says whether it is ready.
    AwaitReady(MonitorKind),
    /// Start the delivery thread.
    SpawnDelivery(MonitorKind),
    /// Nothing: the monitor runs, or could not be started.
    Done(Result<(), Error>),
}

/// What came of the work that was due.
#[derive(Debug, PartialEq, Eq)]
pub enum StartupReply {
    /// What the listener thread said.
    Ready(Result<Result<(), Error>, RecvError>),
    /// Whether the delivery thread could be started, or why not.
    Spawned(Result<(), String>),
}

/// The mathematical content of a [`MonitorStartup`].
pub enum MonitorStartupView {
    AwaitReady(MonitorKind),
    SpawnDelivery(MonitorKind),
    Done(Result<(), ErrorView>),
}

/// The mathematical content of a [`StartupReply`].
pub enum StartupReplyView {
    Ready(Result<Result<(), ErrorView>, RecvError>),
    Spawned(Result<(), Seq<char>>),
}

impl View for MonitorStartup {
    type V = MonitorStartupView;

    open spec fn view(&self) -> MonitorStartupView {
        match self {
            MonitorStartup::AwaitReady(kind) => MonitorStartupView::AwaitReady(*kind),
            MonitorStartup::SpawnDelivery(kind) => MonitorStartupView::SpawnDelivery(*kind),
            MonitorStartup::Done(Ok(_)) => MonitorStartupView::Done(Ok(())),
            MonitorStartup::Done(Err(error)) => MonitorStartupView::Done(Err(error@)),
        }
    }
}

impl View for StartupReply {
    type V = StartupReplyView;

    open spec fn view(&self) -> StartupReplyView {
        match self {
            StartupReply::Ready(Ok(Ok(_))) => StartupReplyView::Ready(Ok(Ok(()))),
            StartupReply::Ready(Ok(Err(error))) => StartupReplyView::Ready(Ok(Err(error@))),
            StartupReply::Ready(Err(error)) => StartupReplyView::Ready(Err(*error)),
            StartupReply::Spawned(Ok(_)) => StartupReplyView::Spawned(Ok(())),
            StartupReply::Spawned(Err(cause)) => StartupReplyView::Spawned(Err(cause@)),
        }
    }
}

impl MonitorStartupView {
    /// What is due after the work that was due has come to `reply`. A reply to work that was not
    /// due changes nothing.
    pub open spec fn after(self, reply: StartupReplyView) -> MonitorStartupView {
        match (self, reply) {
            (MonitorStartupView::AwaitReady(kind), StartupReplyView::Ready(Ok(Ok(_)))) =>
                MonitorStartupView::SpawnDelivery(kind),
            (MonitorStartupView::AwaitReady(_), StartupReplyView::Ready(Ok(Err(error)))) =>
                MonitorStartupView::Done(Err(error)),
            (MonitorStartupView::AwaitReady(kind), StartupReplyView::Ready(Err(_))) =>
                MonitorStartupView::Done(
                Err(ErrorView::plain(ErrorKind::StreamInvalidated, kind.terminated())),
            ),
            (MonitorStartupView::SpawnDelivery(_), StartupReplyView::Spawned(Ok(_))) =>
                MonitorStartupView::Done(Ok(())),
            (MonitorStartupView::SpawnDelivery(kind), StartupReplyView::Spawned(Err(cause))) =>
                MonitorStartupView::Done(
                Err(ErrorView::plain(ErrorKind::ResourceExhausted, kind.spawn_failed() + cause)),
            ),
            _ => self,
        }
    }
}

impl MonitorStartup {
    /// What is due once the listener thread of the monitor has been started.
    pub fn new(kind: MonitorKind) -> (startup: MonitorStartup)
        ensures
            startup@ == MonitorStartupView::AwaitReady(kind),
    {
        MonitorStartup::AwaitReady(kind)
    }

    /// Takes what came of the work that was due, and decides what is due next.
    pub fn step(self, reply: StartupReply) -> (next: MonitorStartup)
        ensures
            next@ == self@.after(reply@),
    {
        match self {
            MonitorStartup::AwaitReady(kind) => match reply {
                StartupReply::Ready(ready) => match listener_thread_result(kind, ready) {
                    Ok(()) => MonitorStartup::SpawnDelivery(kind),
                    Err(error) => MonitorStartup::Done(Err(error)),
                },
                _ => MonitorStartup::AwaitReady(kind),
            },
            MonitorStartup::SpawnDelivery(kind) => match reply {
                StartupReply::Spawned(spawned) => MonitorStartup::Done(
                    delivery_thread_result(kind, spawned),
                ),
                _ => MonitorStartup::SpawnDelivery(kind),
            },
            MonitorStartup::Done(result) => MonitorStartup::Done(result),
        }
    }
}

/// The request to be told when the system's default output device changes.
pub fn default_output_listener() -> (request: ListenerRequest<()>)
    ensures
        request == (ListenerRequest {
            object: AudioObject::System,
            address: PropertyAddress::on_main_element(
                PropertySelector::DefaultOutputDevice,
                PropertyScope::Global,
            ),
            event: (),
        }),
{
    property_listener(
        AudioObject::System,
        PropertySelector::DefaultOutputDevice,
        PropertyScope::Global,
        (),
    )
}

/// The error that a stream is given when its device is gone.
pub open spec fn device_disconnected() -> ErrorView {
    ErrorView::plain(ErrorKind::DeviceNotAvailable, "Device disconnected"@)
}

/// The error that a stream is given when its device changes its sample rate.
pub open spec fn sample_rate_changed() -> ErrorView {
    ErrorView::plain(ErrorKind::StreamInvalidated, "Device sample rate changed"@)
}

/// Whether `request` is to be told when the device is gone, with the error that its stream is given
/// then.
pub open spec fn asks_for_alive(
    request: ListenerRequest<Error>,
    device_id: AudioDeviceID,
) -> bool {
    &&& request.object == AudioObject::Id(device_id)
    &&& request.address == PropertyAddress::on_main_element(
        PropertySelector::DeviceIsAlive,
        PropertyScope::Global,
    )
    &&& request.event@ == device_disconnected()
}

/// Whether `request` is to be told when the device changes its sample rate, with the error that its
/// stream is given then.
pub open spec fn asks_for_rate(request: ListenerRequest<Error>, device_id: AudioDeviceID) -> bool {
    &&& request.object == AudioObject::Id(device_id)
    &&& request.address == PropertyAddress::on_main_element(
        PropertySelector::NominalSampleRate,
        PropertyScope::Global,
    )
    &&& request.event@ == sample_rate_changed()
}

/// The request to be told when a device is gone, with the error that its stream is given then.
pub fn alive_listener(device_id: AudioDeviceID) -> (request: ListenerRequest<Error>)
    ensures
        asks_for_alive(request, device_id),
{
    property_listener(
        AudioObject::Id(device_id),
        PropertySelector::DeviceIsAlive,
        PropertyScope::Global,
        Error::with_message(ErrorKind::DeviceNotAvailable, "Device disconnected"),
    )
}

/// The request to be told when a device changes its sample rate, with the error that its stream
/// is given then.
pub fn rate_listener(device_id: AudioDeviceID) -> (request: ListenerRequest<Error>)
    ensures
        asks_for_rate(request, device_id),
{
    property_listener(
        AudioObject::Id(device_id),
        PropertySelector::NominalSampleRate,
        PropertyScope::Global,
        Error::with_message(ErrorKind::StreamInvalidated, "Device sample rate changed"),
    )
}

/// What registering the two listeners of a disconnect monitor comes to: both are needed, and where
/// neither could be had, the error is that of the listener for the device being alive.
pub open spec fn both_listeners<L>(alive: Result<L, Error>, rate: Result<L, Error>) -> Result<
    (L, L),
    Error,
> {
    match (alive, rate) {
        (Ok(alive), Ok(rate)) => Ok((alive, rate)),
        (Err(error), _) => Err(error),
        (Ok(_), Err(error)) => Err(error),
    }
}

/// What registering the two listeners of a disconnect monitor comes to: both are needed, and where
/// neither could be had, the error is that of the listener for the device being alive.
pub fn disconnect_listeners<L>(alive: Result<L, Error>, rate: Result<L, Error>) -> (result: Result<
    (L, L),
    Error,
>)
    ensures
        result == both_listeners(alive, rate),
{
    match alive {
        Ok(alive) => match rate {
            Ok(rate) => Ok((alive, rate)),
            Err(error) => Err(error),
        },
        Err(error) => Err(error),
    }
}

/// Whether `register` may be asked for the two listeners of a disconnect monitor: for that of the
/// device being alive at the outset, and for that of its sample rate once it has answered to the
/// first, whatever the answer was. Nothing is granted beyond that.
pub open spec fn accepts_disconnect<S, L, F>(
    register: F,
    start: S,
    device_id: AudioDeviceID,
) -> bool where F: Fn(S, ListenerRequest<Error>) -> (S, Result<L, Error>) {
    &&& forall|request: ListenerRequest<Error>| #[trigger]
        asks_for_alive(request, device_id) ==> call_requires(register, (start, request))
    &&& forall|
        first: ListenerRequest<Error>,
        answer: (S, Result<L, Error>),
        second: ListenerRequest<Error>,
    |
        #![trigger call_ensures(register, (start, first), answer), asks_for_rate(second, device_id)]
        asks_for_alive(first, device_id) && call_ensures(register, (start, first), answer)
            && asks_for_rate(second, device_id) ==> call_requires(register, (answer.0, second))
}

/// Whether `alive` and `rate` are answers of `register` to the two requests of a disconnect monitor:
/// it was asked for the listener of the device being alive, and from where that left it for that of
/// the sample rate, each once, and `end` is what it works on afterwards.
pub open spec fn answers_disconnect<S, L, F>(
    register: F,
    start: S,
    device_id: AudioDeviceID,
    middle: S,
    alive: Result<L, Error>,
    end: S,
    rate: Result<L, Error>,
) -> bool where F: Fn(S, ListenerRequest<Error>) -> (S, Result<L, Error>) {
    &&& exists|request: ListenerRequest<Error>|
        asks_for_alive(request, device_id) && #[trigger] call_ensures(
            register,
            (start, request),
            (middle, alive),
        )
    &&& exists|request: ListenerRequest<Error>|
        asks_for_rate(request, device_id) && #[trigger] call_ensures(
            register,
            (middle, request),
            (end, rate),
        )
}

/// Registers the two listeners of a disconnect monitor, asking `register` for each once: first for
/// that of the device being alive, and then, whatever came of it, for that of its sample rate. Both
/// are needed; where neither could be had, the error is that of the first.
///
/// What `register` works on goes from one call to the next, beginning with `state`, and is returned
/// as the last call left it.
pub fn disconnect_property_listeners<S, L, F>(
    device_id: AudioDeviceID,
    state: S,
    register: &F,
) -> (result: (S, Result<(L, L), Error>)) where
    F: Fn(S, ListenerRequest<Error>) -> (S, Result<L, Error>),

    requires
        accepts_disconnect::<S, L, F>(*register, state, device_id),
    ensures
        exists|middle: S, alive: Result<L, Error>, rate: Result<L, Error>| #[trigger]
            answers_disconnect(*register, state, device_id, middle, alive, result.0, rate)
                && result.1 == both_listeners(alive, rate),
{
    let ghost start = state;
    let first = alive_listener(device_id);
    let (state, alive) = register(state, first);
    let ghost middle = state;
    let second = rate_listener(device_id);
    let (state, rate) = register(state, second);
    let result = (state, disconnect_listeners(alive, rate));
    assert(answers_disconnect(*register, start, device_id, middle, alive, result.0, rate));
    result
}

/// Work that is due in a thread that owns listeners and does nothing else.
#[derive(Debug, PartialEq, Eq)]
pub enum ListenerThreadAction {
    /// Register the listeners.
    Register,
    /// Tell whoever started the thread whether the listeners could be had.
    ReportReady(Result<(), Error>),
    /// Wait until the thread is to end.
    AwaitShutdown,
    /// End the thread.
    Exit,
}

/// What came of the work that was due.
#[derive(Debug, PartialEq, Eq)]
pub enum ListenerThreadReply<L> {
    /// The listeners, or why they could not be had.
    Registered(Result<L, Error>),
    /// Whoever started the thread was told.
    Reported,
    /// The thread was told to end, or nobody is left who could tell it.
    ShutDown,
}

/// The state of a thread that owns listeners and does nothing else.
#[derive(Debug, PartialEq, Eq)]
pub struct ListenerThread<L> {
    /// The work that is due.
    pub action: ListenerThreadAction,
    /// The listeners, as long as they are registered.
    pub listeners: Option<L>,
}

impl<L> ListenerThread<L> {
    /// The state after the work that was due has come to `reply`. A reply to work that was not due
    /// changes nothing.
    pub open spec fn after(self, reply: ListenerThreadReply<L>) -> ListenerThread<L> {
        match (self.action, reply) {
            (ListenerThreadAction::Register, ListenerThreadReply::Registered(Ok(listeners))) =>
                ListenerThread {
                action: ListenerThreadAction::ReportReady(Ok(())),
                listeners: Some(listeners),
            },
            (ListenerThreadAction::Register, ListenerThreadReply::Registered(Err(error))) =>
                ListenerThread {
                action: ListenerThreadAction::ReportReady(Err(error)),
                listeners: None,
            },
            (ListenerThreadAction::ReportReady(Ok(_)), ListenerThreadReply::Reported) =>
                ListenerThread { action: ListenerThreadAction::AwaitShutdown, ..self },
            (ListenerThreadAction::ReportReady(Err(_)), ListenerThreadReply::Reported) =>
                ListenerThread { action: ListenerThreadAction::Exit, ..self },
            (ListenerThreadAction::AwaitShutdown, ListenerThreadReply::ShutDown) => ListenerThread {
                action: ListenerThreadAction::Exit,
                listeners: None,
            },
            _ => self,
        }
    }

    /// The state after `replies`.
    pub open spec fn after_all(self, replies: Seq<ListenerThreadReply<L>>) -> ListenerThread<L>
        decreases replies.len(),
    {
        if replies.len() == 0 {
            self
        } else {
            self.after(replies[0]).after_all(replies.drop_first())
        }
    }

    /// What was registered in the course of `replies`, in this order.
    pub open spec fn registered(self, replies: Seq<ListenerThreadReply<L>>) -> Seq<L>
        decreases replies.len(),
    {
        if replies.len() == 0 {
            Seq::empty()
        } else {
            let rest = self.after(replies[0]).registered(replies.drop_first());
            match (self.action, replies[0]) {
                (
                    ListenerThreadAction::Register,
                    ListenerThreadReply::Registered(Ok(listeners)),
                ) => seq![listeners] + rest,
                _ => rest,
            }
        }
    }

    /// What holds of every state that the thread can come into: from the registration of the
    /// listeners to the end of the thread, and at no other time, they are registered.
    pub open spec fn wf(self) -> bool {
        self.listeners is Some <==> match self.action {
            ListenerThreadAction::Register => false,
            ListenerThreadAction::ReportReady(ready) => ready is Ok,
            ListenerThreadAction::AwaitShutdown => true,
            ListenerThreadAction::Exit => false,
        }
    }

    /// The state in which the thread starts.
    pub fn new() -> (thread: ListenerThread<L>)
        ensures
            thread == (ListenerThread::<L> {
                action: ListenerThreadAction::Register,
                listeners: None,
            }),
            thread.wf(),
    {
        ListenerThread { action: ListenerThreadAction::Register, listeners: None }
    }

    /// Takes what came of the work that was due, and decides what is due next.
    pub fn step(self, reply: ListenerThreadReply<L>) -> (next: ListenerThread<L>)
        ensures
            next == self.after(reply),
    {
        let mut next = self;
        match reply {
            ListenerThreadReply::Registered(result) => {
                if let ListenerThreadAction::Register = next.action {
                    match result {
                        Ok(listeners) => {
                            next.action = ListenerThreadAction::ReportReady(Ok(()));
                            next.listeners = Some(listeners);
                        },
                        Err(error) => {
                            next.action = ListenerThreadAction::ReportReady(Err(error));
                            next.listeners = None;
                        },
                    }
                }
            },
            ListenerThreadReply::Reported => {
                match next.action {
                    ListenerThreadAction::ReportReady(Ok(())) => {
                        next.action = ListenerThreadAction::AwaitShutdown;
                    },
                    ListenerThreadAction::ReportReady(Err(_)) => {
                        next.action = ListenerThreadAction::Exit;
                    },
                    _ => {},
                }
            },
            ListenerThreadReply::ShutDown => {
                if let ListenerThreadAction::AwaitShutdown = next.action {
                    next.action = ListenerThreadAction::Exit;
                    next.listeners = None;
                }
            },
        }
        next
    }
}

/// A monitor runs if and only if its listener thread said that it is ready and its delivery thread
/// could be started. The delivery thread is started only after the listener thread said so.
pub proof fn law_monitor_runs_when_both_threads_do(
    kind: MonitorKind,
    ready: Result<Result<(), ErrorView>, RecvError>,
    spawned: Result<(), Seq<char>>,
)
    ensures
        ({
            let asked = MonitorStartupView::AwaitReady(kind).after(StartupReplyView::Ready(ready));
            let ended = asked.after(StartupReplyView::Spawned(spawned));
            &&& asked is SpawnDelivery <==> (ready is Ok && ready->Ok_0 is Ok)
            &&& ended is Done
            &&& ended->Done_0 is Ok <==> (ready is Ok && ready->Ok_0 is Ok && spawned is Ok)
        }),
{
}

/// Where the listeners could not be had, that error is what starting the monitor fails with.
pub proof fn law_listener_failure_is_passed_on(kind: MonitorKind, error: ErrorView)
    ensures
        MonitorStartupView::AwaitReady(kind).after(StartupReplyView::Ready(Ok(Err(error))))
            == MonitorStartupView::Done(Err(error)),
{
}

/// A monitor that was started, or could not be, stays so.
pub proof fn law_startup_ends_once(result: Result<(), ErrorView>, reply: StartupReplyView)
    ensures
        MonitorStartupView::Done(result).after(reply) == MonitorStartupView::Done(result),
{
}

/// The listeners stay registered until the thread is told to end, or nobody is left who could
/// tell it; then they are given up.
pub proof fn law_listeners_live_until_shutdown<L>(
    thread: ListenerThread<L>,
    reply: ListenerThreadReply<L>,
)
    requires
        thread.wf(),
        thread.listeners is Some,
    ensures
        thread.action is AwaitShutdown && reply is ShutDown ==> thread.after(reply).listeners is None
            && thread.after(reply).action is Exit,
        !(thread.action is AwaitShutdown && reply is ShutDown) ==> thread.after(reply).listeners
            == thread.listeners,
{
}

/// Listeners are registered at most once by a thread. One that says that it is ready, or that waits
/// to be told to end, has registered exactly the listeners that it holds.
pub proof fn law_one_registration_before_ready<L>(
    thread: ListenerThread<L>,
    replies: Seq<ListenerThreadReply<L>>,
)
    requires
        thread.wf(),
        thread.action is Register,
    ensures
        ({
            let registered = thread.registered(replies);
            let end = thread.after_all(replies);
            &&& registered.len() <= 1
            &&& end.listeners is Some ==> registered == seq![end.listeners->Some_0]
            &&& end.action == ListenerThreadAction::ReportReady(Ok(())) || end.action
                is AwaitShutdown ==> end.listeners is Some
        }),
    decreases replies.len(),
{
    if replies.len() > 0 {
        let next = thread.after(replies[0]);
        let rest = replies.drop_first();
        if next.action is Register {
            law_one_registration_before_ready(next, rest);
        } else {
            lemma_registered_before(next, rest);
            assert(next.listeners is Some ==> thread.registered(replies) =~= seq![
                next.listeners->Some_0,
            ]);
        }
    }
}

/// A thread that is past registering registers nothing more, and holds what it held or nothing.
proof fn lemma_registered_before<L>(
    thread: ListenerThread<L>,
    replies: Seq<ListenerThreadReply<L>>,
)
    requires
        thread.wf(),
        !(thread.action is Register),
    ensures
        thread.registered(replies).len() == 0,
        thread.after_all(replies).wf(),
        thread.after_all(replies).listeners is Some ==> thread.after_all(replies).listeners
            == thread.listeners,
    decreases replies.len(),
{
    if replies.len() > 0 {
        lemma_registered_before(thread.after(replies[0]), replies.drop_first());
    }
}

/// A listener thread never leaves the states that [`ListenerThread::wf`] describes.
pub proof fn law_listener_thread_stays_well_formed<L>(
    thread: ListenerThread<L>,
    reply: ListenerThreadReply<L>,
)
    requires
        thread.wf(),
    ensures
        thread.after(reply).wf(),
{
}

/// Each monitor has a delivery thread of its own name.
pub proof fn law_threads_are_named(kind: MonitorKind, name: &'static str)
    requires
        call_ensures(MonitorKind::thread_name, (&kind,), name),
    ensures
        kind is Disconnect ==> name@ == "cpal-coreaudio-disconnect"@,
        kind is DefaultOutput ==> name@ == "cpal-coreaudio-default-output"@,
        kind is SystemAudio ==> name@ == "cpal-coreaudio-system-audio"@,
{
}

/// What a listener thread says is what starting it comes to, word for word. One that ended without
/// a word invalidates the stream, and which monitor it belongs to is said.
pub proof fn law_listener_threads_are_believed(
    kind: MonitorKind,
    ready: Result<Result<(), Error>, RecvError>,
    result: Result<(), Error>,
)
    requires
        call_ensures(listener_thread_result, (kind, ready), result),
    ensures
        result is Ok <==> ready is Ok && ready->Ok_0 is Ok,
        ready is Ok && ready->Ok_0 is Err ==> result->Err_0 == ready->Ok_0->Err_0,
        ready is Err ==> {
            let error = result->Err_0;
            &&& error.kind == ErrorKind::StreamInvalidated
            &&& error.context is None
            &&& kind is Disconnect ==> error.message@ == "Stream monitor terminated unexpectedly"@
            &&& kind is DefaultOutput ==> error.message@
                == "property listener thread terminated unexpectedly"@
            &&& kind is SystemAudio ==> error.message@
                == "system-audio monitor thread terminated unexpectedly"@
        },
{
}

/// A delivery thread that could not be started is a resource that could not be had. The error says
/// which thread that was, and then why, in the words of the system.
pub proof fn law_delivery_threads_need_resources(
    kind: MonitorKind,
    spawned: Result<(), String>,
    result: Result<(), Error>,
)
    requires
        call_ensures(delivery_thread_result, (kind, spawned), result),
    ensures
        result is Ok <==> spawned is Ok,
        spawned is Err ==> {
            let error = result->Err_0;
            let cause = spawned->Err_0@;
            &&& error.kind == ErrorKind::ResourceExhausted
            &&& error.context is None
            &&& kind is Disconnect ==> error.message@ == "Failed to spawn disconnect thread: "@
                + cause
            &&& kind is DefaultOutput ==> error.message@
                == "failed to spawn default-output monitor thread: "@ + cause
            &&& kind is SystemAudio ==> error.message@
                == "failed to spawn system-audio monitor thread: "@ + cause
        },
{
}

/// Starting a monitor goes on to the delivery thread exactly where the listener thread said that it
/// is ready, and succeeds exactly where the delivery thread could then be started. It is the same
/// monitor all along, and a reply to work that is not due changes nothing.
pub proof fn law_how_a_monitor_is_started(
    startup: MonitorStartup,
    reply: StartupReply,
    next: MonitorStartup,
)
    requires
        call_ensures(MonitorStartup::step, (startup, reply), next),
    ensures
        next is AwaitReady <==> startup is AwaitReady && !(reply is Ready),
        next is AwaitReady ==> next->AwaitReady_0 == startup->AwaitReady_0,
        next is SpawnDelivery <==> {
            ||| startup is SpawnDelivery && !(reply is Spawned)
            ||| startup is AwaitReady && reply is Ready && reply->Ready_0 is Ok
                && reply->Ready_0->Ok_0 is Ok
        },
        next is SpawnDelivery ==> next->SpawnDelivery_0 == (if startup is AwaitReady {
            startup->AwaitReady_0
        } else {
            startup->SpawnDelivery_0
        }),
        next is Done && next->Done_0 is Ok <==> {
            ||| startup is Done && startup->Done_0 is Ok
            ||| startup is SpawnDelivery && reply is Spawned && reply->Spawned_0 is Ok
        },
        startup is Done ==> next is Done && (startup->Done_0 is Err ==> next->Done_0->Err_0@
            == startup->Done_0->Err_0@),
{
}

/// A monitor that cannot be started says why: with the error of the listeners where they could not
/// be had, and otherwise with what became of the thread that failed.
pub proof fn law_why_a_monitor_cannot_be_started(
    startup: MonitorStartup,
    reply: StartupReply,
    next: MonitorStartup,
)
    requires
        call_ensures(MonitorStartup::step, (startup, reply), next),
    ensures
        startup is AwaitReady && reply is Ready && reply->Ready_0 is Ok && reply->Ready_0->Ok_0
            is Err ==> next is Done && next->Done_0 is Err && next->Done_0->Err_0@
            == reply->Ready_0->Ok_0->Err_0@,
        startup is AwaitReady && reply is Ready && reply->Ready_0 is Err ==> {
            let error = next->Done_0->Err_0;
            let kind = startup->AwaitReady_0;
            &&& next is Done && next->Done_0 is Err
            &&& error.kind == ErrorKind::StreamInvalidated
            &&& error.context is None
            &&& kind is Disconnect ==> error.message@ == "Stream monitor terminated unexpectedly"@
            &&& kind is DefaultOutput ==> error.message@
                == "property listener thread terminated unexpectedly"@
            &&& kind is SystemAudio ==> error.message@
                == "system-audio monitor thread terminated unexpectedly"@
        },
        startup is SpawnDelivery && reply is Spawned && reply->Spawned_0 is Err ==> {
            let error = next->Done_0->Err_0;
            let kind = startup->SpawnDelivery_0;
            let cause = reply->Spawned_0->Err_0@;
            &&& next is Done && next->Done_0 is Err
            &&& error.kind == ErrorKind::ResourceExhausted
            &&& error.context is None
            &&& kind is Disconnect ==> error.message@ == "Failed to spawn disconnect thread: "@
                + cause
            &&& kind is DefaultOutput ==> error.message@
                == "failed to spawn default-output monitor thread: "@ + cause
            &&& kind is SystemAudio ==> error.message@
                == "failed to spawn system-audio monitor thread: "@ + cause
        },
{
}

/// A monitor is started by waiting for its listener thread.
pub proof fn law_monitors_start_with_their_listeners(kind: MonitorKind, startup: MonitorStartup)
    requires
        call_ensures(MonitorStartup::new, (kind,), startup),
    ensures
        startup is AwaitReady,
        startup->AwaitReady_0 == kind,
{
}

/// A default-output monitor watches the default output device of the audio system as a whole.
pub proof fn law_the_default_output_is_watched(request: ListenerRequest<()>)
    requires
        call_ensures(default_output_listener, (), request),
    ensures
        request.object is System,
        request.address.selector is DefaultOutputDevice,
        request.address.scope is Global,
        request.address.element is Main,
{
}

/// A disconnect monitor watches two properties of its device as a whole: that it is there, whose loss
/// means that there is no device any more, and its sample rate, whose change invalidates the stream.
pub proof fn law_a_device_is_watched(
    device_id: AudioDeviceID,
    alive: ListenerRequest<Error>,
    rate: ListenerRequest<Error>,
)
    requires
        call_ensures(alive_listener, (device_id,), alive),
        call_ensures(rate_listener, (device_id,), rate),
    ensures
        alive.object == AudioObject::Id(device_id) && rate.object == AudioObject::Id(device_id),
        alive.address.selector is DeviceIsAlive && rate.address.selector is NominalSampleRate,
        alive.address.scope is Global && rate.address.scope is Global,
        alive.address.element is Main && rate.address.element is Main,
        alive.event.kind == ErrorKind::DeviceNotAvailable,
        alive.event.message@ == "Device disconnected"@,
        alive.event.context is None,
        rate.event.kind == ErrorKind::StreamInvalidated,
        rate.event.message@ == "Device sample rate changed"@,
        rate.event.context is None,
{
}

/// A disconnect monitor holds both its listeners or none. Where one could not be had it fails with
/// the error of that one, and with that of the first where neither could.
pub proof fn law_both_listeners_are_needed<L>(
    alive: Result<L, Error>,
    rate: Result<L, Error>,
    result: Result<(L, L), Error>,
)
    requires
        call_ensures(disconnect_listeners::<L>, (alive, rate), result),
    ensures
        result is Ok <==> alive is Ok && rate is Ok,
        result is Ok ==> result->Ok_0.0 == alive->Ok_0 && result->Ok_0.1 == rate->Ok_0,
        alive is Err ==> result->Err_0 == alive->Err_0,
        alive is Ok && rate is Err ==> result->Err_0 == rate->Err_0,
{
}

/// Registering the listeners of a disconnect monitor takes two requests, whatever comes of them: one
/// for its device being there, and then one for its sample rate. Both have to succeed, and the first
/// that did not is what registering fails with.
pub proof fn law_both_listeners_are_attempted<S, L, F>(
    device_id: AudioDeviceID,
    state: S,
    register: &F,
    end: S,
    result: Result<(L, L), Error>,
) -> (run: (
    ListenerRequest<Error>,
    (S, Result<L, Error>),
    ListenerRequest<Error>,
    (S, Result<L, Error>),
)) where F: Fn(S, ListenerRequest<Error>) -> (S, Result<L, Error>)
    requires
        call_ensures(
            disconnect_property_listeners::<S, L, F>,
            (device_id, state, register),
            (end, result),
        ),
    ensures
        ({
            let (first, alive, second, rate) = run;
            &&& call_ensures(*register, (state, first), alive)
            &&& call_ensures(*register, (alive.0, second), rate)
            &&& rate.0 == end
            &&& first.object == AudioObject::Id(device_id) && second.object == AudioObject::Id(
                device_id,
            )
            &&& first.address.selector is DeviceIsAlive && first.address.scope is Global
                && first.address.element is Main
            &&& second.address.selector is NominalSampleRate && second.address.scope is Global
                && second.address.element is Main
            &&& first.event.kind == ErrorKind::DeviceNotAvailable
            &&& first.event.message@ == "Device disconnected"@
            &&& second.event.kind == ErrorKind::StreamInvalidated
            &&& second.event.message@ == "Device sample rate changed"@
            &&& first.event.context is None && second.event.context is None
            &&& result is Ok <==> alive.1 is Ok && rate.1 is Ok
            &&& result is Ok ==> result->Ok_0.0 == alive.1->Ok_0 && result->Ok_0.1 == rate.1->Ok_0
            &&& alive.1 is Err ==> result->Err_0 == alive.1->Err_0
            &&& alive.1 is Ok && rate.1 is Err ==> result->Err_0 == rate.1->Err_0
        }),
{
    let (middle, alive, rate) = choose|middle: S, alive: Result<L, Error>, rate: Result<L, Error>|
        #[trigger]
        answers_disconnect(*register, state, device_id, middle, alive, end, rate) && result
            == both_listeners(alive, rate);
    let first = choose|request: ListenerRequest<Error>|
        asks_for_alive(request, device_id) && #[trigger] call_ensures(
            *register,
            (state, request),
            (middle, alive),
        );
    let second = choose|request: ListenerRequest<Error>|
        asks_for_rate(request, device_id) && #[trigger] call_ensures(
            *register,
            (middle, request),
            (end, rate),
        );
    (first, (middle, alive), second, (end, rate))
}

/// Whoever can register any listener at any time can be asked for those of a disconnect monitor.
pub proof fn law_any_device_can_be_watched<S, L, F>(
    register: F,
    start: S,
    device_id: AudioDeviceID,
) where F: Fn(S, ListenerRequest<Error>) -> (S, Result<L, Error>)
    requires
        forall|state: S, request: ListenerRequest<Error>| #[trigger]
            call_requires(register, (state, request)),
    ensures
        accepts_disconnect::<S, L, F>(register, start, device_id),
{
}

/// A thread that owns listeners registers them first, reports what came of that, and ends where they
/// could not be had. Where they could, it waits until it is told to end, and ends then and not
/// before. A reply to work that is not due changes nothing.
pub proof fn law_what_a_listener_thread_does<L>(
    thread: ListenerThread<L>,
    reply: ListenerThreadReply<L>,
    next: ListenerThread<L>,
)
    requires
        call_ensures(ListenerThread::<L>::step, (thread, reply), next),
    ensures
        next.action is Register <==> thread.action is Register && !(reply is Registered),
        !(thread.action is ReportReady) ==> (next.action is ReportReady <==> thread.action
            is Register && reply is Registered),
        thread.action is Register && reply is Registered ==> {
            &&& next.action->ReportReady_0 is Ok <==> reply->Registered_0 is Ok
            &&& reply->Registered_0 is Err ==> next.action->ReportReady_0->Err_0
                == reply->Registered_0->Err_0
        },
        !(thread.action is AwaitShutdown) ==> (next.action is AwaitShutdown <==> thread.action
            is ReportReady && thread.action->ReportReady_0 is Ok && reply is Reported),
        !(thread.action is Exit) ==> (next.action is Exit <==> {
            ||| thread.action is ReportReady && thread.action->ReportReady_0 is Err && reply
                is Reported
            ||| thread.action is AwaitShutdown && reply is ShutDown
        }),
        thread.action is Exit ==> next == thread,
        thread.action is ReportReady && !(reply is Reported) ==> next == thread,
        thread.action is AwaitShutdown && !(reply is ShutDown) ==> next == thread,
        thread.action is Register && !(reply is Registered) ==> next == thread,
{
}

/// A thread holds the listeners that it registered, just these, from then on until it is told to
/// end.
pub proof fn law_a_listener_thread_holds_what_it_registered<L>(
    thread: ListenerThread<L>,
    reply: ListenerThreadReply<L>,
    next: ListenerThread<L>,
)
    requires
        call_ensures(ListenerThread::<L>::step, (thread, reply), next),
    ensures
        thread.action is Register && reply is Registered && reply->Registered_0 is Ok
            ==> next.listeners == Some(reply->Registered_0->Ok_0),
        thread.action is Register && reply is Registered && reply->Registered_0 is Err
            ==> next.listeners is None,
        thread.action is AwaitShutdown && reply is ShutDown ==> next.listeners is None,
        !(thread.action is Register && reply is Registered) && !(thread.action is AwaitShutdown
            && reply is ShutDown) ==> next.listeners == thread.listeners,
{
}

/// A thread that owns listeners starts without any, by registering them.
pub proof fn law_listener_threads_start_by_registering<L>(thread: ListenerThread<L>)
    requires
        call_ensures(ListenerThread::<L>::new, (), thread),
    ensures
        thread.action is Register,
        thread.listeners is None,
{
}

} // verus!
