use coreaudio_host::delivery::{monitor_error, Delivery, DeliveryReply, Notice};
use coreaudio_host::error::{Error, ErrorKind};
use coreaudio_host::host::Device;
use coreaudio_host::latch::LatchState;
use coreaudio_host::monitor::{
    alive_listener, default_output_listener, delivery_thread_result, disconnect_listeners,
    disconnect_property_listeners, listener_thread_result, rate_listener, ListenerThread, ListenerThreadAction,
    ListenerThreadReply, MonitorKind, MonitorStartup, RecvError, StartupReply,
};
use coreaudio_host::plan::{ListenerRequest, SystemAudioListenerEvent};
use coreaudio_host::property::{AudioObject, PropertyScope, PropertySelector};
use coreaudio_host::system_audio::{
    default_output_event, MonitorAction, MonitorReply, RecvTimeoutError, SystemAudioMonitorEvent,
    SystemAudioThread, EVENT_WAIT_MILLIS,
};

fn refused() -> Error {
    Error::with_message(ErrorKind::BackendError, "refused")
}

fn speakers() -> Device {
    Device { audio_device_id: 77, is_system_audio: false }
}

fn disconnected() -> Error {
    Error::with_message(ErrorKind::DeviceNotAvailable, "Device disconnected")
}

/// A thread that serves events and waits for the next one.
fn waiting_thread() -> SystemAudioThread<&'static str> {
    SystemAudioThread::new(10, 20)
        .step(MonitorReply::ListenersRegistered(Ok(vec!["alive", "rate"])))
        .step(MonitorReply::DefaultOutput(Some(speakers())))
        .step(MonitorReply::DefaultOutputListeners(vec!["old"]))
        .step(MonitorReply::Reported)
        .step(MonitorReply::Shutdown(false))
}

#[test]
fn system_audio_thread_is_set_up_in_order() {
    let thread: SystemAudioThread<u8> = SystemAudioThread::new(10, 20);
    assert_eq!(
        thread.action,
        MonitorAction::RegisterListeners { aggregate_device_id: 10, tap_id: 20 }
    );
    let thread = thread.step(MonitorReply::ListenersRegistered(Ok(vec![1, 2])));
    assert_eq!(thread.action, MonitorAction::QueryDefaultOutput);
    assert_eq!(thread.listeners, vec![1, 2]);
    let thread = thread.step(MonitorReply::DefaultOutput(Some(speakers())));
    assert_eq!(thread.action, MonitorAction::RegisterDefaultOutputListeners(Some(77)));
    let thread = thread.step(MonitorReply::DefaultOutputListeners(vec![3]));
    assert_eq!(thread.action, MonitorAction::ReportReady(Ok(())));
    assert!(!thread.ready);
    let thread = thread.step(MonitorReply::Reported);
    assert_eq!(thread.action, MonitorAction::CheckShutdown);
    assert!(thread.ready);
    assert_eq!(thread.default_output_id, Some(77));
    assert_eq!(thread.default_output_listeners, vec![3]);
}

#[test]
fn system_audio_thread_reports_a_failed_setup() {
    let thread: SystemAudioThread<u8> = SystemAudioThread::new(10, 20);
    let thread = thread.step(MonitorReply::ListenersRegistered(Err(refused())));
    assert_eq!(thread.action, MonitorAction::ReportReady(Err(refused())));
    let thread = thread.step(MonitorReply::Reported);
    assert_eq!(thread.action, MonitorAction::Exit);
    assert!(!thread.ready);
}

#[test]
fn system_audio_thread_forwards_events() {
    let thread = waiting_thread()
        .step(MonitorReply::Waited(Ok(SystemAudioListenerEvent::DeviceNotAvailable("gone"))));
    assert_eq!(
        thread.action,
        MonitorAction::SendEvent(SystemAudioMonitorEvent::DeviceNotAvailable("gone"))
    );
    let thread = thread.step(MonitorReply::Sent);
    assert_eq!(thread.action, MonitorAction::CheckShutdown);
    let thread = thread
        .step(MonitorReply::Shutdown(false))
        .step(MonitorReply::Waited(Ok(SystemAudioListenerEvent::StreamInvalidated("rate"))));
    assert_eq!(
        thread.action,
        MonitorAction::SendEvent(SystemAudioMonitorEvent::StreamInvalidated("rate"))
    );
    assert_eq!(thread.listeners, vec!["alive", "rate"]);
}

#[test]
fn system_audio_thread_follows_the_default_output() {
    let thread = waiting_thread()
        .step(MonitorReply::Waited(Ok(SystemAudioListenerEvent::DefaultOutputChanged)));
    assert_eq!(thread.action, MonitorAction::QueryDefaultOutput);
    let headphones = Device { audio_device_id: 88, is_system_audio: false };
    let thread = thread.step(MonitorReply::DefaultOutput(Some(headphones)));
    assert_eq!(thread.action, MonitorAction::RegisterDefaultOutputListeners(Some(88)));
    assert_eq!(thread.default_output_listeners, vec!["old"]);
    let thread = thread.step(MonitorReply::DefaultOutputListeners(vec!["new"]));
    assert_eq!(thread.default_output_listeners, vec!["new"]);
    assert_eq!(
        thread.action,
        MonitorAction::SendEvent(SystemAudioMonitorEvent::StreamInvalidated(
            "system audio default output changed"
        ))
    );
}

#[test]
fn system_audio_thread_notices_a_missing_default_output() {
    let thread = waiting_thread()
        .step(MonitorReply::Waited(Ok(SystemAudioListenerEvent::DefaultOutputChanged)))
        .step(MonitorReply::DefaultOutput(None))
        .step(MonitorReply::DefaultOutputListeners(vec![]));
    assert_eq!(thread.default_output_id, None);
    assert!(thread.default_output_listeners.is_empty());
    assert_eq!(
        thread.action,
        MonitorAction::SendEvent(SystemAudioMonitorEvent::DeviceNotAvailable(
            "no default output device for system audio"
        ))
    );
}

#[test]
fn system_audio_thread_ends_when_told_or_cut_off() {
    assert_eq!(EVENT_WAIT_MILLIS, 100);
    let thread = waiting_thread().step(MonitorReply::Waited(Err(RecvTimeoutError::Timeout)));
    assert_eq!(thread.action, MonitorAction::CheckShutdown);
    let thread = thread.step(MonitorReply::Shutdown(true));
    assert_eq!(thread.action, MonitorAction::Exit);
    let thread = thread
        .step(MonitorReply::Shutdown(false))
        .step(MonitorReply::Waited(Ok(SystemAudioListenerEvent::DefaultOutputChanged)));
    assert_eq!(thread.action, MonitorAction::Exit);

    let thread = waiting_thread().step(MonitorReply::Waited(Err(RecvTimeoutError::Disconnected)));
    assert_eq!(thread.action, MonitorAction::Exit);
}

#[test]
fn system_audio_thread_gives_its_listeners_up_at_the_end() {
    let waiting = waiting_thread();
    assert_eq!(waiting.listeners, vec!["alive", "rate"]);
    assert_eq!(waiting.default_output_listeners, vec!["old"]);
    let cut_off = waiting.step(MonitorReply::Waited(Err(RecvTimeoutError::Disconnected)));
    assert_eq!(cut_off.action, MonitorAction::Exit);
    assert!(cut_off.listeners.is_empty() && cut_off.default_output_listeners.is_empty());

    let checking = waiting_thread().step(MonitorReply::Waited(Err(RecvTimeoutError::Timeout)));
    assert_eq!(checking.listeners, vec!["alive", "rate"]);
    let told = checking.step(MonitorReply::Shutdown(true));
    assert_eq!(told.action, MonitorAction::Exit);
    assert!(told.listeners.is_empty() && told.default_output_listeners.is_empty());
}

#[test]
fn system_audio_thread_ends_soon_after_shutdown() {
    let mut thread = waiting_thread();
    let mut work = 0;
    let mut told = 0;
    loop {
        let reply = match &thread.action {
            MonitorAction::WaitForEvent => {
                MonitorReply::Waited(Ok(SystemAudioListenerEvent::DefaultOutputChanged))
            }
            MonitorAction::QueryDefaultOutput => MonitorReply::DefaultOutput(None),
            MonitorAction::RegisterDefaultOutputListeners(_) => {
                MonitorReply::DefaultOutputListeners(vec!["new"])
            }
            MonitorAction::SendEvent(_) => {
                told += 1;
                MonitorReply::Sent
            }
            MonitorAction::CheckShutdown => MonitorReply::Shutdown(true),
            _ => break,
        };
        work += 1;
        thread = thread.step(reply);
    }
    assert_eq!((work, told), (5, 1));
    assert_eq!(thread.action, MonitorAction::Exit);
    assert!(thread.listeners.is_empty() && thread.default_output_listeners.is_empty());
}

#[test]
fn system_audio_thread_ignores_replies_that_are_not_due() {
    let thread = waiting_thread().step(MonitorReply::Sent).step(MonitorReply::Reported);
    assert_eq!(thread, waiting_thread());
}

#[test]
fn each_listener_event_is_told_once() {
    let events = [
        SystemAudioListenerEvent::StreamInvalidated("one"),
        SystemAudioListenerEvent::DefaultOutputChanged,
        SystemAudioListenerEvent::DeviceNotAvailable("three"),
    ];
    let mut left = events.iter();
    let mut told = Vec::new();
    let mut thread = waiting_thread();
    loop {
        let reply = match &thread.action {
            MonitorAction::CheckShutdown => MonitorReply::Shutdown(left.len() == 0),
            MonitorAction::WaitForEvent => MonitorReply::Waited(Ok(*left.next().unwrap())),
            MonitorAction::QueryDefaultOutput => MonitorReply::DefaultOutput(None),
            MonitorAction::RegisterDefaultOutputListeners(_) => {
                MonitorReply::DefaultOutputListeners(vec![])
            }
            MonitorAction::SendEvent(event) => {
                told.push(*event);
                MonitorReply::Sent
            }
            _ => break,
        };
        thread = thread.step(reply);
    }
    assert_eq!(thread.action, MonitorAction::Exit);
    assert_eq!(
        told,
        vec![
            SystemAudioMonitorEvent::StreamInvalidated("one"),
            SystemAudioMonitorEvent::DeviceNotAvailable(
                "no default output device for system audio"
            ),
            SystemAudioMonitorEvent::DeviceNotAvailable("three"),
        ]
    );
}

#[test]
fn default_output_changes_are_told_by_what_was_found() {
    let mut found = vec![None, Some(speakers()), None];
    let mut told = Vec::new();
    let mut thread = waiting_thread();
    loop {
        let reply = match &thread.action {
            MonitorAction::CheckShutdown => MonitorReply::Shutdown(found.is_empty()),
            MonitorAction::WaitForEvent => {
                MonitorReply::Waited(Ok(SystemAudioListenerEvent::DefaultOutputChanged))
            }
            MonitorAction::QueryDefaultOutput => MonitorReply::DefaultOutput(found.remove(0)),
            MonitorAction::RegisterDefaultOutputListeners(_) => {
                MonitorReply::DefaultOutputListeners(vec![])
            }
            MonitorAction::SendEvent(event) => {
                told.push(*event);
                MonitorReply::Sent
            }
            _ => break,
        };
        thread = thread.step(reply);
    }
    let missing = SystemAudioMonitorEvent::DeviceNotAvailable(
        "no default output device for system audio",
    );
    let changed =
        SystemAudioMonitorEvent::StreamInvalidated("system audio default output changed");
    assert_eq!(told, vec![missing, changed, missing]);
}

#[test]
fn default_output_events() {
    assert_eq!(
        default_output_event(Some(1)),
        SystemAudioMonitorEvent::StreamInvalidated("system audio default output changed")
    );
    assert_eq!(
        default_output_event(None),
        SystemAudioMonitorEvent::DeviceNotAvailable("no default output device for system audio")
    );
}

#[test]
fn monitor_errors_keep_kind_and_message() {
    assert_eq!(
        monitor_error(SystemAudioMonitorEvent::DeviceNotAvailable("gone")),
        Error::with_message(ErrorKind::DeviceNotAvailable, "gone")
    );
    assert_eq!(
        monitor_error(SystemAudioMonitorEvent::StreamInvalidated("rate")),
        Error::with_message(ErrorKind::StreamInvalidated, "rate")
    );
}

#[test]
fn delivery_waits_for_release() {
    assert_eq!(Delivery::new(), Delivery::AwaitRelease);
    let early = Delivery::new().step(DeliveryReply::Received(Some(Notice::DefaultOutputChanged)));
    assert_eq!(early, Delivery::AwaitRelease);
    assert_eq!(early.step(DeliveryReply::Released(true)), Delivery::Receive);
    assert_eq!(Delivery::new().step(DeliveryReply::Released(false)), Delivery::Exit);
}

#[test]
fn disconnect_is_paused_and_reported() {
    let upgraded = Delivery::Receive
        .step(DeliveryReply::Received(Some(Notice::Disconnect(disconnected()))))
        .step(DeliveryReply::Upgraded(true));
    assert_eq!(upgraded, Delivery::TryLock(disconnected()));
    let locked = upgraded.step(DeliveryReply::Locked(true));
    assert_eq!(locked, Delivery::Pause(disconnected()));
    let paused = locked.step(DeliveryReply::Paused);
    assert_eq!(paused, Delivery::Emit(disconnected()));
    assert_eq!(paused.step(DeliveryReply::Emitted), Delivery::Receive);
}

#[test]
fn disconnect_is_reported_without_the_lock() {
    let delivery = Delivery::TryLock(disconnected()).step(DeliveryReply::Locked(false));
    assert_eq!(delivery, Delivery::Emit(disconnected()));
}

#[test]
fn another_default_output_is_reported_without_a_pause() {
    let delivery = Delivery::Receive
        .step(DeliveryReply::Received(Some(Notice::DefaultOutputChanged)))
        .step(DeliveryReply::Upgraded(true));
    assert_eq!(delivery, Delivery::QueryDefaultOutput);
    assert_eq!(
        delivery.step(DeliveryReply::DefaultOutput(Some(speakers()))),
        Delivery::Emit(Error::with_message(
            ErrorKind::DeviceChanged,
            "default output device changed"
        ))
    );
}

#[test]
fn a_missing_default_output_pauses_the_stream() {
    assert_eq!(
        Delivery::QueryDefaultOutput.step(DeliveryReply::DefaultOutput(None)),
        Delivery::TryLock(Error::with_message(
            ErrorKind::DeviceNotAvailable,
            "no default output device"
        ))
    );
}

#[test]
fn system_audio_notice_pauses_and_reports() {
    let delivery = Delivery::Receive
        .step(DeliveryReply::Received(Some(Notice::SystemAudio(
            SystemAudioMonitorEvent::StreamInvalidated("format"),
        ))))
        .step(DeliveryReply::Upgraded(true));
    assert_eq!(
        delivery,
        Delivery::TryLock(Error::with_message(ErrorKind::StreamInvalidated, "format"))
    );
}

#[test]
fn delivery_ends_with_the_stream_or_the_channel() {
    let gone = Delivery::UpgradeStream(Notice::Disconnect(disconnected()))
        .step(DeliveryReply::Upgraded(false));
    assert_eq!(gone, Delivery::Exit);
    assert_eq!(gone.step(DeliveryReply::Received(None)), Delivery::Exit);
    assert_eq!(Delivery::Receive.step(DeliveryReply::Received(None)), Delivery::Exit);
}

#[test]
fn each_notice_is_reported_once() {
    let mut notices = vec![
        Notice::SystemAudio(SystemAudioMonitorEvent::DeviceNotAvailable("three")),
        Notice::DefaultOutputChanged,
        Notice::Disconnect(disconnected()),
    ];
    let mut emitted = Vec::new();
    let mut delivery = Delivery::new();
    loop {
        let reply = match delivery {
            Delivery::AwaitRelease => DeliveryReply::Released(true),
            Delivery::Receive => DeliveryReply::Received(notices.pop()),
            Delivery::UpgradeStream(_) => DeliveryReply::Upgraded(true),
            Delivery::QueryDefaultOutput => DeliveryReply::DefaultOutput(Some(speakers())),
            Delivery::TryLock(_) => DeliveryReply::Locked(true),
            Delivery::Pause(_) => DeliveryReply::Paused,
            Delivery::Emit(ref error) => {
                emitted.push(error.message.clone());
                DeliveryReply::Emitted
            }
            Delivery::Exit => break,
        };
        delivery = delivery.step(reply);
    }
    assert_eq!(emitted, vec!["Device disconnected", "default output device changed", "three"]);
}

#[test]
fn default_output_changes_are_reported_by_what_was_found() {
    let mut found = vec![Some(speakers()), None];
    let mut emitted = Vec::new();
    let mut delivery = Delivery::new();
    loop {
        let reply = match delivery {
            Delivery::AwaitRelease => DeliveryReply::Released(true),
            Delivery::Receive => DeliveryReply::Received(if found.is_empty() {
                None
            } else {
                Some(Notice::DefaultOutputChanged)
            }),
            Delivery::UpgradeStream(_) => DeliveryReply::Upgraded(true),
            Delivery::QueryDefaultOutput => DeliveryReply::DefaultOutput(found.remove(0)),
            Delivery::TryLock(_) => DeliveryReply::Locked(true),
            Delivery::Pause(_) => DeliveryReply::Paused,
            Delivery::Emit(ref error) => {
                emitted.push(error.kind);
                DeliveryReply::Emitted
            }
            Delivery::Exit => break,
        };
        delivery = delivery.step(reply);
    }
    assert_eq!(emitted, vec![ErrorKind::DeviceChanged, ErrorKind::DeviceNotAvailable]);
}

#[test]
fn releasing_the_latch_unblocks_delivery() {
    let mut latch = LatchState::new();
    assert_eq!(latch.wait_result(), None);
    latch.release();
    latch.release();
    latch.abandon();
    let released = latch.wait_result();
    assert_eq!(released, Some(true));
    let delivery = Delivery::new().step(DeliveryReply::Released(released.unwrap()));
    assert_eq!(delivery, Delivery::Receive);
}

#[test]
fn listeners_are_registered_once() {
    let thread = ListenerThread::new().step(ListenerThreadReply::Registered(Ok("first")));
    assert_eq!(thread.action, ListenerThreadAction::ReportReady(Ok(())));
    let thread = thread.step(ListenerThreadReply::Registered(Ok("second")));
    assert_eq!(thread.listeners, Some("first"));
    let thread = thread.step(ListenerThreadReply::Reported);
    let thread = thread.step(ListenerThreadReply::Registered(Ok("third")));
    assert_eq!(thread.action, ListenerThreadAction::AwaitShutdown);
    assert_eq!(thread.listeners, Some("first"));
}

#[test]
fn disconnect_monitor_watches_alive_and_rate() {
    let alive = alive_listener(6);
    assert_eq!(alive.object, AudioObject::Id(6));
    assert_eq!(alive.address.selector, PropertySelector::DeviceIsAlive);
    assert_eq!(alive.address.scope, PropertyScope::Global);
    assert_eq!(alive.event, disconnected());
    let rate = rate_listener(6);
    assert_eq!(rate.object, AudioObject::Id(6));
    assert_eq!(rate.address.selector, PropertySelector::NominalSampleRate);
    assert_eq!(rate.address.scope, PropertyScope::Global);
    assert_eq!(
        rate.event,
        Error::with_message(ErrorKind::StreamInvalidated, "Device sample rate changed")
    );
}

#[test]
fn disconnect_monitor_needs_both_listeners() {
    let other = Error::with_message(ErrorKind::BackendError, "other");
    assert_eq!(disconnect_listeners(Ok(1), Ok(2)), Ok((1, 2)));
    assert_eq!(disconnect_listeners(Ok(1), Err(refused())), Err(refused()));
    assert_eq!(disconnect_listeners(Err(refused()), Ok(2)), Err(refused()));
    assert_eq!(disconnect_listeners::<u8>(Err(refused()), Err(other)), Err(refused()));
}

#[test]
fn disconnect_monitor_attempts_both_listeners_once() {
    let register_but = |refuse: &'static [PropertySelector]| {
        move |mut log: Vec<PropertySelector>, request: ListenerRequest<Error>| {
            let selector = request.address.selector;
            log.push(selector);
            let text = format!("{:?} refused", selector);
            let refused = Error::with_message(ErrorKind::BackendError, &text);
            (log, if refuse.contains(&selector) { Err(refused) } else { Ok(request.event) })
        }
    };
    let both = vec![PropertySelector::DeviceIsAlive, PropertySelector::NominalSampleRate];

    let (log, held) = disconnect_property_listeners(6, Vec::new(), &register_but(&[]));
    assert_eq!(log, both);
    assert_eq!(held, Ok((alive_listener(6).event, rate_listener(6).event)));

    let refuse = &[PropertySelector::NominalSampleRate];
    let (log, held) = disconnect_property_listeners(6, Vec::new(), &register_but(refuse));
    assert_eq!(log, both);
    assert_eq!(held.unwrap_err().message, "NominalSampleRate refused");

    let refuse = &[PropertySelector::DeviceIsAlive, PropertySelector::NominalSampleRate];
    let (log, held) = disconnect_property_listeners(6, Vec::new(), &register_but(refuse));
    assert_eq!(log, both);
    assert_eq!(held.unwrap_err().message, "DeviceIsAlive refused");
}

#[test]
fn default_output_monitor_watches_the_system() {
    let request = default_output_listener();
    assert_eq!(request.object, AudioObject::System);
    assert_eq!(request.address.selector, PropertySelector::DefaultOutputDevice);
    assert_eq!(request.address.scope, PropertyScope::Global);
}

#[test]
fn listener_thread_holds_its_listeners_until_shutdown() {
    let thread = ListenerThread::new().step(ListenerThreadReply::Registered(Ok("listener")));
    assert_eq!(thread.action, ListenerThreadAction::ReportReady(Ok(())));
    let thread = thread.step(ListenerThreadReply::Reported);
    assert_eq!(thread.action, ListenerThreadAction::AwaitShutdown);
    assert_eq!(thread.listeners, Some("listener"));
    let thread = thread.step(ListenerThreadReply::ShutDown);
    assert_eq!(thread.action, ListenerThreadAction::Exit);
    assert_eq!(thread.listeners, None);
}

#[test]
fn listener_thread_reports_a_failure_and_ends() {
    let thread: ListenerThread<u8> =
        ListenerThread::new().step(ListenerThreadReply::Registered(Err(refused())));
    assert_eq!(thread.action, ListenerThreadAction::ReportReady(Err(refused())));
    assert_eq!(
        thread.step(ListenerThreadReply::Reported).action,
        ListenerThreadAction::Exit
    );
}

#[test]
fn listener_threads_that_vanish_are_reported() {
    let expected = [
        (MonitorKind::Disconnect, "Stream monitor terminated unexpectedly"),
        (MonitorKind::DefaultOutput, "property listener thread terminated unexpectedly"),
        (MonitorKind::SystemAudio, "system-audio monitor thread terminated unexpectedly"),
    ];
    for (kind, message) in expected {
        assert_eq!(
            listener_thread_result(kind, Err(RecvError)),
            Err(Error::with_message(ErrorKind::StreamInvalidated, message))
        );
        assert_eq!(listener_thread_result(kind, Ok(Err(refused()))), Err(refused()));
        assert_eq!(listener_thread_result(kind, Ok(Ok(()))), Ok(()));
    }
}

#[test]
fn delivery_threads_that_cannot_start_are_reported() {
    let expected = [
        (MonitorKind::Disconnect, "Failed to spawn disconnect thread: limit"),
        (MonitorKind::DefaultOutput, "failed to spawn default-output monitor thread: limit"),
        (MonitorKind::SystemAudio, "failed to spawn system-audio monitor thread: limit"),
    ];
    for (kind, message) in expected {
        assert_eq!(
            delivery_thread_result(kind, Err("limit".to_string())),
            Err(Error::with_message(ErrorKind::ResourceExhausted, message))
        );
        assert_eq!(delivery_thread_result(kind, Ok(())), Ok(()));
    }
}

#[test]
fn delivery_threads_are_named() {
    assert_eq!(MonitorKind::Disconnect.thread_name(), "cpal-coreaudio-disconnect");
    assert_eq!(MonitorKind::DefaultOutput.thread_name(), "cpal-coreaudio-default-output");
    assert_eq!(MonitorKind::SystemAudio.thread_name(), "cpal-coreaudio-system-audio");
}

#[test]
fn a_monitor_starts_when_both_threads_do() {
    let kind = MonitorKind::SystemAudio;
    let startup = MonitorStartup::new(kind);
    assert_eq!(startup, MonitorStartup::AwaitReady(kind));
    let startup = startup.step(StartupReply::Ready(Ok(Ok(()))));
    assert_eq!(startup, MonitorStartup::SpawnDelivery(kind));
    let startup = startup.step(StartupReply::Spawned(Ok(())));
    assert_eq!(startup, MonitorStartup::Done(Ok(())));
    let startup = startup.step(StartupReply::Ready(Err(RecvError)));
    assert_eq!(startup, MonitorStartup::Done(Ok(())));
}

#[test]
fn a_monitor_whose_listeners_fail_does_not_start() {
    let startup =
        MonitorStartup::new(MonitorKind::Disconnect).step(StartupReply::Ready(Ok(Err(refused()))));
    assert_eq!(startup, MonitorStartup::Done(Err(refused())));
    let startup =
        MonitorStartup::new(MonitorKind::Disconnect).step(StartupReply::Ready(Err(RecvError)));
    assert_eq!(
        startup,
        MonitorStartup::Done(Err(Error::with_message(
            ErrorKind::StreamInvalidated,
            "Stream monitor terminated unexpectedly"
        )))
    );
    let startup = MonitorStartup::SpawnDelivery(MonitorKind::Disconnect)
        .step(StartupReply::Spawned(Err("limit".to_string())));
    assert_eq!(
        startup,
        MonitorStartup::Done(Err(Error::with_message(
            ErrorKind::ResourceExhausted,
            "Failed to spawn disconnect thread: limit"
        )))
    );
}
