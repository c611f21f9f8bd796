use coreaudio_host::error::{Error, ErrorKind};
use coreaudio_host::listeners::{
    aggregate_property_listeners, default_output_property_listeners,
    system_audio_global_property_listeners, system_audio_listeners, tap_property_listeners,
};
use coreaudio_host::plan::{
    aggregate_listener_plan, default_output_listener_plan, property_listener,
    system_audio_global_listener_plan, tap_listener_plan, ListenerRequest,
    SystemAudioListenerEvent,
};
use coreaudio_host::property::{
    AudioObject, PropertyAddress, PropertyElement, PropertyScope, PropertySelector,
};
use coreaudio_host::registration::{push_optional_listener, register_listeners, ListenerSetup};

type Request = ListenerRequest<SystemAudioListenerEvent>;

fn refused(selector: PropertySelector) -> Error {
    Error::with_message(ErrorKind::BackendError, &format!("{:?} refused", selector))
}

/// Registers everything but the given properties, and keeps a log of what was asked for.
fn registering(
    refuse: &[PropertySelector],
) -> impl Fn(Vec<Request>, Request) -> (Vec<Request>, Result<PropertySelector, Error>) + '_ {
    move |mut log: Vec<Request>, request: Request| {
        log.push(request);
        if refuse.contains(&request.address.selector) {
            (log, Err(refused(request.address.selector)))
        } else {
            (log, Ok(request.address.selector))
        }
    }
}

const AGGREGATE: [PropertySelector; 11] = [
    PropertySelector::DeviceIsAlive,
    PropertySelector::NominalSampleRate,
    PropertySelector::StreamFormat,
    PropertySelector::StreamConfiguration,
    PropertySelector::AggregateFullSubDeviceList,
    PropertySelector::AggregateActiveSubDeviceList,
    PropertySelector::AggregateTapList,
    PropertySelector::AggregateSubTapList,
    PropertySelector::AggregateComposition,
    PropertySelector::AggregateMainSubDevice,
    PropertySelector::AggregateClockDevice,
];

#[test]
fn a_request_names_object_address_and_event() {
    assert_eq!(
        property_listener(
            AudioObject::Id(5),
            PropertySelector::TapFormat,
            PropertyScope::Global,
            SystemAudioListenerEvent::StreamInvalidated("changed"),
        ),
        ListenerRequest {
            object: AudioObject::Id(5),
            address: PropertyAddress {
                selector: PropertySelector::TapFormat,
                scope: PropertyScope::Global,
                element: PropertyElement::Main,
            },
            event: SystemAudioListenerEvent::StreamInvalidated("changed"),
        }
    );
}

#[test]
fn optional_listeners_are_pushed_when_they_could_be_had() {
    let mut listeners = vec![1];
    push_optional_listener(&mut listeners, Ok(2));
    push_optional_listener(&mut listeners, Err(refused(PropertySelector::TapFormat)));
    push_optional_listener(&mut listeners, Ok(3));
    assert_eq!(listeners, vec![1, 2, 3]);
}

#[test]
fn aggregate_plan_is_complete() {
    let plan = aggregate_listener_plan(12);
    let selectors: Vec<PropertySelector> =
        plan.iter().map(|planned| planned.request.address.selector).collect();
    assert_eq!(selectors, AGGREGATE.to_vec());
    let required: Vec<bool> = plan.iter().map(|planned| planned.required).collect();
    assert_eq!(required[..2], [true, true]);
    assert!(required[2..].iter().all(|required| !required));
    let scopes: Vec<PropertyScope> =
        plan.iter().map(|planned| planned.request.address.scope).collect();
    for (i, scope) in scopes.iter().enumerate() {
        let expected = if i == 2 || i == 3 { PropertyScope::Input } else { PropertyScope::Global };
        assert_eq!(*scope, expected);
    }
    let events: Vec<SystemAudioListenerEvent> =
        plan.iter().map(|planned| planned.request.event).collect();
    assert_eq!(
        events,
        vec![
            SystemAudioListenerEvent::DeviceNotAvailable(
                "system audio aggregate device disconnected"
            ),
            SystemAudioListenerEvent::StreamInvalidated(
                "system audio aggregate sample rate changed"
            ),
            SystemAudioListenerEvent::StreamInvalidated(
                "system audio aggregate input stream format changed"
            ),
            SystemAudioListenerEvent::StreamInvalidated(
                "system audio aggregate input stream configuration changed"
            ),
            SystemAudioListenerEvent::StreamInvalidated(
                "system audio aggregate subdevice list changed"
            ),
            SystemAudioListenerEvent::StreamInvalidated(
                "system audio aggregate active subdevice list changed"
            ),
            SystemAudioListenerEvent::StreamInvalidated("system audio aggregate tap list changed"),
            SystemAudioListenerEvent::StreamInvalidated(
                "system audio aggregate subtap list changed"
            ),
            SystemAudioListenerEvent::StreamInvalidated(
                "system audio aggregate composition changed"
            ),
            SystemAudioListenerEvent::StreamInvalidated(
                "system audio aggregate main subdevice changed"
            ),
            SystemAudioListenerEvent::StreamInvalidated(
                "system audio aggregate clock device changed"
            ),
        ]
    );
    assert!(plan.iter().all(|planned| planned.request.object == AudioObject::Id(12)));
}

#[test]
fn global_plan_needs_the_default_output() {
    let plan = system_audio_global_listener_plan();
    assert_eq!(plan.len(), 3);
    assert!(plan.iter().all(|planned| planned.request.object == AudioObject::System));
    assert_eq!(plan[0].request.address.selector, PropertySelector::DefaultOutputDevice);
    assert_eq!(plan[0].request.event, SystemAudioListenerEvent::DefaultOutputChanged);
    assert!(plan[0].required);
    assert_eq!(plan[1].request.address.selector, PropertySelector::HardwareDevices);
    assert_eq!(
        plan[1].request.event,
        SystemAudioListenerEvent::StreamInvalidated("system audio hardware device list changed")
    );
    assert_eq!(plan[2].request.address.selector, PropertySelector::HardwareTapList);
    assert_eq!(
        plan[2].request.event,
        SystemAudioListenerEvent::StreamInvalidated("system audio hardware tap list changed")
    );
    assert!(!plan[1].required && !plan[2].required);
}

#[test]
fn tap_plan_is_optional() {
    let plan = tap_listener_plan(31);
    assert_eq!(plan.len(), 2);
    assert_eq!(plan[0].request.address.selector, PropertySelector::TapFormat);
    assert_eq!(
        plan[0].request.event,
        SystemAudioListenerEvent::StreamInvalidated("system audio tap format changed")
    );
    assert_eq!(plan[1].request.address.selector, PropertySelector::TapDescription);
    assert_eq!(
        plan[1].request.event,
        SystemAudioListenerEvent::StreamInvalidated("system audio tap description changed")
    );
    assert!(plan.iter().all(|p| !p.required && p.request.object == AudioObject::Id(31)));
}

#[test]
fn default_output_plan_follows_the_device() {
    assert!(default_output_listener_plan(None).is_empty());
    let plan = default_output_listener_plan(Some(8));
    let watched: Vec<(PropertySelector, PropertyScope, SystemAudioListenerEvent)> = plan
        .iter()
        .map(|p| (p.request.address.selector, p.request.address.scope, p.request.event))
        .collect();
    assert_eq!(
        watched,
        vec![
            (
                PropertySelector::NominalSampleRate,
                PropertyScope::Global,
                SystemAudioListenerEvent::StreamInvalidated(
                    "system audio default output sample rate changed"
                ),
            ),
            (
                PropertySelector::StreamFormat,
                PropertyScope::Output,
                SystemAudioListenerEvent::StreamInvalidated(
                    "system audio default output stream format changed"
                ),
            ),
            (
                PropertySelector::StreamConfiguration,
                PropertyScope::Output,
                SystemAudioListenerEvent::StreamInvalidated(
                    "system audio default output stream configuration changed"
                ),
            ),
            (
                PropertySelector::DeviceIsAlive,
                PropertyScope::Global,
                SystemAudioListenerEvent::StreamInvalidated(
                    "system audio default output availability changed"
                ),
            ),
        ]
    );
    assert!(plan.iter().all(|p| !p.required && p.request.object == AudioObject::Id(8)));
}

#[test]
fn all_aggregate_listeners_are_registered_in_order() {
    let (log, held) = aggregate_property_listeners(3, Vec::new(), &registering(&[]));
    assert_eq!(held, Ok(AGGREGATE.to_vec()));
    let asked: Vec<Request> = aggregate_listener_plan(3).iter().map(|p| p.request).collect();
    assert_eq!(log, asked);
}

#[test]
fn optional_aggregate_listeners_may_fail() {
    let (log, held) = aggregate_property_listeners(3, Vec::new(), &registering(&AGGREGATE[2..]));
    assert_eq!(held, Ok(AGGREGATE[..2].to_vec()));
    let asked: Vec<Request> = aggregate_listener_plan(3).iter().map(|p| p.request).collect();
    assert_eq!(log, asked);
}

#[test]
fn a_required_aggregate_listener_that_fails_ends_registration() {
    let refuse = [PropertySelector::NominalSampleRate];
    let (log, result) = aggregate_property_listeners(3, Vec::new(), &registering(&refuse));
    assert_eq!(result, Err(refused(PropertySelector::NominalSampleRate)));
    assert_eq!(log.len(), 2);

    let refuse = [PropertySelector::DeviceIsAlive, PropertySelector::NominalSampleRate];
    let (log, result) = aggregate_property_listeners(3, Vec::new(), &registering(&refuse));
    assert_eq!(result, Err(refused(PropertySelector::DeviceIsAlive)));
    assert_eq!(log.len(), 1);
}

#[test]
fn global_listeners_fail_without_the_default_output() {
    let refuse = [PropertySelector::DefaultOutputDevice];
    let (log, result) = system_audio_global_property_listeners(Vec::new(), &registering(&refuse));
    assert_eq!(result, Err(refused(PropertySelector::DefaultOutputDevice)));
    assert_eq!(log.len(), 1);

    let refuse = [PropertySelector::HardwareDevices];
    let (log, held) = system_audio_global_property_listeners(Vec::new(), &registering(&refuse));
    assert_eq!(
        held,
        Ok(vec![PropertySelector::DefaultOutputDevice, PropertySelector::HardwareTapList])
    );
    assert_eq!(log.len(), 3);
}

#[test]
fn tap_and_default_output_listeners_never_fail() {
    let refuse = [PropertySelector::TapFormat, PropertySelector::TapDescription];
    let (log, held) = tap_property_listeners(4, Vec::new(), &registering(&refuse));
    assert!(held.is_empty());
    assert_eq!(log.len(), 2);

    let refuse = [PropertySelector::StreamFormat];
    let (log, held) =
        default_output_property_listeners(Some(4), Vec::new(), &registering(&refuse));
    assert_eq!(
        held,
        vec![
            PropertySelector::NominalSampleRate,
            PropertySelector::StreamConfiguration,
            PropertySelector::DeviceIsAlive,
        ]
    );
    assert_eq!(log.len(), 4);
}

#[test]
fn nothing_is_registered_without_a_default_output() {
    let (log, held) = default_output_property_listeners(None, Vec::new(), &registering(&[]));
    assert!(held.is_empty());
    assert!(log.is_empty());
}

#[test]
fn what_was_logged_before_is_kept() {
    let earlier = tap_listener_plan(4)[0].request;
    let (log, _) = tap_property_listeners(5, vec![earlier], &registering(&[]));
    let mut expected = vec![earlier];
    expected.extend(tap_listener_plan(5).iter().map(|p| p.request));
    assert_eq!(log, expected);
}

#[test]
fn system_audio_listeners_are_aggregate_then_global_then_tap() {
    let (log, held) = system_audio_listeners(1, 2, Vec::new(), &registering(&[]));
    let mut expected = AGGREGATE.to_vec();
    expected.extend([
        PropertySelector::DefaultOutputDevice,
        PropertySelector::HardwareDevices,
        PropertySelector::HardwareTapList,
        PropertySelector::TapFormat,
        PropertySelector::TapDescription,
    ]);
    assert_eq!(held, Ok(expected));
    assert_eq!(log.len(), 16);
    for (i, one) in log.iter().enumerate() {
        for other in log.iter().skip(i + 1) {
            assert!(one.object != other.object || one.address != other.address);
        }
    }
}

#[test]
fn system_audio_listeners_stop_at_the_first_required_failure() {
    let refuse = [PropertySelector::DefaultOutputDevice, PropertySelector::TapFormat];
    let (log, result) = system_audio_listeners(1, 2, Vec::new(), &registering(&refuse));
    assert_eq!(result, Err(refused(PropertySelector::DefaultOutputDevice)));
    assert_eq!(log.len(), 12);

    let refuse = [PropertySelector::DeviceIsAlive];
    let (log, result) = system_audio_listeners(1, 2, Vec::new(), &registering(&refuse));
    assert_eq!(result, Err(refused(PropertySelector::DeviceIsAlive)));
    assert_eq!(log.len(), 1);
}

#[test]
fn a_setup_can_be_worked_off_step_by_step() {
    let mut setup: ListenerSetup<u8> = ListenerSetup::new(system_audio_global_listener_plan());
    let first = setup.next_request().unwrap();
    assert_eq!(first.address.selector, PropertySelector::DefaultOutputDevice);
    setup = setup.record(Ok(1)).ok().unwrap();
    let second = setup.next_request().unwrap();
    assert_eq!(second.address.selector, PropertySelector::HardwareDevices);
    setup = setup.record(Err(refused(PropertySelector::HardwareDevices))).ok().unwrap();
    let third = setup.next_request().unwrap();
    assert_eq!(third.address.selector, PropertySelector::HardwareTapList);
    setup = setup.record(Ok(3)).ok().unwrap();
    assert_eq!(setup.next_request(), None);
    assert_eq!(setup.into_listeners(), vec![1, 3]);
}

#[test]
fn a_setup_ends_with_the_error_of_a_required_listener() {
    let setup: ListenerSetup<u8> = ListenerSetup::new(system_audio_global_listener_plan());
    let result = setup.record(Err(refused(PropertySelector::DefaultOutputDevice)));
    assert_eq!(result.err(), Some(refused(PropertySelector::DefaultOutputDevice)));
}

#[test]
fn an_empty_plan_registers_nothing() {
    let (log, held) = register_listeners(Vec::new(), Vec::new(), &registering(&[]));
    assert_eq!(held, Ok(Vec::new()));
    assert!(log.is_empty());
}

#[test]
fn joined_plans_register_the_same_listeners() {
    let refuse = [PropertySelector::HardwareDevices, PropertySelector::TapFormat];
    let register = registering(&refuse);
    let mut joined = system_audio_global_listener_plan();
    joined.extend(tap_listener_plan(6));
    let (log_at_once, at_once) = register_listeners(joined, Vec::new(), &register);
    let (log, in_turn) = system_audio_global_property_listeners(Vec::new(), &register);
    let mut in_turn = in_turn.unwrap();
    let (log, tap) = tap_property_listeners(6, log, &register);
    in_turn.extend(tap);
    assert_eq!(at_once, Ok(in_turn));
    assert_eq!(log_at_once, log);
}
