use coreaudio_host::error::{Error, ErrorKind};
use coreaudio_host::host::{Device, Host};
use coreaudio_host::latch::LatchState;
use coreaudio_host::property::{
    property_address, PropertyAddress, PropertyElement, PropertyScope, PropertySelector,
};
use coreaudio_host::shutdown::{check_shutdown, is_shutdown, ChannelPoll};
use coreaudio_host::stream::{Monitor, Poisoned, Stream, StreamInner};
use std::cell::Cell;
use std::sync::atomic::{AtomicUsize, Ordering};
use std::sync::mpsc;
use std::sync::{Arc, Mutex};

fn backend_error() -> Error {
    Error::with_message(ErrorKind::BackendError, "unit refused")
}

fn backend_error_in(context: &str) -> Error {
    Error {
        kind: ErrorKind::BackendError,
        message: "unit refused".to_string(),
        context: Some(context.to_string()),
    }
}

#[test]
fn host_can_be_made_and_is_available() {
    assert!(Host::new().is_ok());
    assert!(Host::is_available());
}

#[test]
fn system_audio_device_carries_the_default_output() {
    let host = Host::new().unwrap();
    let output = Device { audio_device_id: 73, is_system_audio: false };
    assert_eq!(
        host.system_audio_device(Some(output)),
        Some(Device { audio_device_id: 73, is_system_audio: true })
    );
    assert_eq!(
        host.system_audio_device(None),
        Some(Device { audio_device_id: 0, is_system_audio: true })
    );
}

#[test]
fn device_id_of_a_missing_device_is_missing() {
    assert_eq!(Device::device_id(None), None);
    assert_eq!(Device::device_id(Some(Device::system_audio(4))), Some(4));
}

#[test]
fn error_messages_and_contexts() {
    let error = Error::with_message(ErrorKind::DeviceChanged, "moved");
    assert_eq!(error.kind, ErrorKind::DeviceChanged);
    assert_eq!(error.message, "moved");
    assert_eq!(error.context, None);
    let error = error.context("first").context("second");
    assert_eq!(error.message, "moved");
    assert_eq!(error.context, Some("second".to_string()));
    let error = Error::with_cause(ErrorKind::ResourceExhausted, "no thread: ", "limit");
    assert_eq!(error.message, "no thread: limit");
}

#[test]
fn addresses_are_on_the_main_element() {
    assert_eq!(
        property_address(PropertySelector::StreamFormat, PropertyScope::Input),
        PropertyAddress {
            selector: PropertySelector::StreamFormat,
            scope: PropertyScope::Input,
            element: PropertyElement::Main,
        }
    );
}

#[test]
fn playing_starts_the_unit_once() {
    let starts = Cell::new(0);
    let start = || {
        starts.set(starts.get() + 1);
        Ok(())
    };
    let mut inner = StreamInner { playing: false, device_id: 9 };
    assert_eq!(inner.play(&start), Ok(()));
    assert_eq!(inner, StreamInner { playing: true, device_id: 9 });
    assert_eq!(inner.play(&start), Ok(()));
    assert_eq!(inner, StreamInner { playing: true, device_id: 9 });
    assert_eq!(starts.get(), 1);
}

#[test]
fn pausing_stops_the_unit_once_and_undoes_playing() {
    let stops = Cell::new(0);
    let stop = || {
        stops.set(stops.get() + 1);
        Ok(())
    };
    let mut inner = StreamInner { playing: false, device_id: 9 };
    assert_eq!(inner.pause(&stop), Ok(()));
    assert_eq!(stops.get(), 0);
    inner.play(|| Ok(())).unwrap();
    assert_eq!(inner.pause(&stop), Ok(()));
    assert_eq!(inner, StreamInner { playing: false, device_id: 9 });
    assert_eq!(stops.get(), 1);
}

#[test]
fn a_unit_that_refuses_leaves_the_stream_as_it_was() {
    let mut inner = StreamInner { playing: false, device_id: 9 };
    assert_eq!(
        inner.play(|| Err(backend_error())),
        Err(backend_error_in("Failed to start audio unit"))
    );
    assert!(!inner.playing);
    inner.playing = true;
    assert_eq!(
        inner.pause(|| Err(backend_error())),
        Err(backend_error_in("Failed to stop audio unit"))
    );
    assert!(inner.playing);
}

#[test]
fn stream_methods_work_under_a_lock() {
    let shared = Mutex::new(StreamInner { playing: false, device_id: 2 });
    let stream = Stream::new((), ());
    {
        let mut guard = shared.lock().unwrap();
        assert_eq!(stream.play(Ok(&mut guard), || Ok(())), Ok(()));
    }
    assert!(shared.lock().unwrap().playing);
    {
        let mut guard = shared.lock().unwrap();
        assert_eq!(stream.pause(Ok(&mut guard), || Ok(())), Ok(()));
    }
    assert!(!shared.lock().unwrap().playing);
    assert_eq!(stream.buffer_size(Ok(()), || Ok(512)), Ok(512));
    assert_eq!(stream.buffer_size(Ok(()), || Ok(0)), Ok(0));
    assert_eq!(stream.buffer_size(Ok(()), || Ok(u32::MAX as usize)), Ok(u32::MAX));
    assert_eq!(stream.buffer_size(Ok(()), || Ok(0x1_0000_0200)), Ok(512));
    assert_eq!(
        stream.buffer_size(Ok(()), || Err(backend_error())),
        Err(backend_error_in("Failed to get buffer frame size"))
    );
}

#[test]
fn poisoned_locks_are_reported() {
    let poisoned = Error::with_message(ErrorKind::StreamInvalidated, "Stream lock poisoned");
    let stream = Stream::new((), ());
    let touched = Cell::new(false);
    let touch = || {
        touched.set(true);
        Ok(())
    };
    assert_eq!(stream.play(Err(Poisoned), &touch), Err(poisoned));
    let poisoned = Error::with_message(ErrorKind::StreamInvalidated, "Stream lock poisoned");
    assert_eq!(stream.pause(Err(Poisoned), &touch), Err(poisoned));
    let poisoned = Error::with_message(ErrorKind::StreamInvalidated, "Stream lock poisoned");
    assert_eq!(
        stream.buffer_size(Err(Poisoned), || {
            touched.set(true);
            Ok(1)
        }),
        Err(poisoned)
    );
    assert!(!touched.get());
}

struct CountingMonitor(Arc<AtomicUsize>);

impl Monitor for CountingMonitor {
    fn signal_ready(&self) {
        self.0.fetch_add(1, Ordering::SeqCst);
    }
}

#[test]
fn signalling_a_stream_signals_its_monitor() {
    let count = Arc::new(AtomicUsize::new(0));
    let stream = Stream::new(41u8, CountingMonitor(count.clone()));
    assert_eq!(*stream.inner(), 41);
    stream.signal_ready();
    stream.monitor().signal_ready();
    assert_eq!(count.load(Ordering::SeqCst), 2);
}

#[test]
fn shutdown_is_a_message_or_a_hangup() {
    assert!(is_shutdown(ChannelPoll::Message));
    assert!(is_shutdown(ChannelPoll::Disconnected));
    assert!(!is_shutdown(ChannelPoll::Empty));
}

#[test]
fn check_shutdown_looks_at_the_channel() {
    let (tx, rx) = mpsc::channel::<()>();
    assert!(!check_shutdown(&rx));
    tx.send(()).unwrap();
    assert!(check_shutdown(&rx));
    assert!(!check_shutdown(&rx));
    drop(tx);
    assert!(check_shutdown(&rx));
    assert!(check_shutdown(&rx));
}

#[test]
fn latch_is_released_once_and_for_all() {
    let mut state = LatchState::new();
    assert_eq!(state.wait_result(), None);
    state.release();
    assert_eq!(state.wait_result(), Some(true));
    state.release();
    state.abandon();
    assert_eq!(state.wait_result(), Some(true));
}

#[test]
fn latch_dropped_without_release_is_abandoned() {
    let mut state = LatchState::new();
    state.abandon();
    assert_eq!(state.wait_result(), Some(false));
    state.release();
    assert_eq!(state.wait_result(), Some(false));
}
