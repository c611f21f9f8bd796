//! The property listeners behind a system-audio stream: which properties are watched, and what
//! each of them reports.
use crate::property::{
    property_address, AudioDeviceID, AudioObject, AudioObjectID, PropertyAddress, PropertyScope,
    PropertySelector,
};
use vstd::prelude::*;

verus! {

/// What a property listener reports when its property changes.
#[derive(Copy, Clone, Debug, PartialEq, Eq)]
pub enum SystemAudioListenerEvent {
    /// The device behind the stream is gone.
    DeviceNotAvailable(&'static str),
    /// Something that the stream was built on has changed.
    StreamInvalidated(&'static str),
    /// The system has another default output device, or none.
    DefaultOutputChanged,
}

/// Asks for one property of one object to be watched, and says what to report on a change.
#[derive(Debug, PartialEq, Eq)]
pub struct ListenerRequest<E> {
    pub object: AudioObject,
    pub address: PropertyAddress,
    pub event: E,
}

impl<E: Copy> Copy for ListenerRequest<E> {

}

impl<E: Copy> Clone for ListenerRequest<E> {
    fn clone(&self) -> (request: Self)
        ensures
            request == *self,
    {
        *self
    }
}

/// The request to watch a property on the main element of `scope` and to report `event` on each
/// change.
pub fn property_listener<E>(
    object: AudioObject,
    selector: PropertySelector,
    scope: PropertyScope,
    event: E,
) -> (request: ListenerRequest<E>)
    ensures
        request == (ListenerRequest {
            object,
            address: PropertyAddress::on_main_element(selector, scope),
            event,
        }),
{
    ListenerRequest { object, address: property_address(selector, scope), event }
}

/// A listener that is to be registered, and whether the stream can do without it.
#[derive(Copy, Clone, Debug, PartialEq, Eq)]
pub struct PlannedListener {
    pub request: ListenerRequest<SystemAudioListenerEvent>,
    pub required: bool,
}

impl PlannedListener {
    /// A listener that the stream cannot do without.
    pub open spec fn required_on(
        object: AudioObject,
        selector: PropertySelector,
        scope: PropertyScope,
        event: SystemAudioListenerEvent,
    ) -> PlannedListener {
        PlannedListener {
            request: ListenerRequest {
                object,
                address: PropertyAddress::on_main_element(selector, scope),
                event,
            },
            required: true,
        }
    }

    /// A listener for a property that not every system offers. `message` is what the stream is
    /// invalidated with when the property changes.
    pub open spec fn optional_on(
        object: AudioObject,
        selector: PropertySelector,
        scope: PropertyScope,
        message: &'static str,
    ) -> PlannedListener {
        PlannedListener {
            request: ListenerRequest {
                object,
                address: PropertyAddress::on_main_element(selector, scope),
                event: SystemAudioListenerEvent::StreamInvalidated(message),
            },
            required: false,
        }
    }

    fn required(
        object: AudioObject,
        selector: PropertySelector,
        scope: PropertyScope,
        event: SystemAudioListenerEvent,
    ) -> (planned: PlannedListener)
        ensures
            planned == PlannedListener::required_on(object, selector, scope, event),
    {
        PlannedListener {
            request: property_listener(object, selector, scope, event),
            required: true,
        }
    }

    fn optional(
        object: AudioObject,
        selector: PropertySelector,
        scope: PropertyScope,
        message: &'static str,
    ) -> (planned: PlannedListener)
        ensures
            planned == PlannedListener::optional_on(object, selector, scope, message),
    {
        PlannedListener {
            request: property_listener(
                object,
                selector,
                scope,
                SystemAudioListenerEvent::StreamInvalidated(message),
            ),
            required: false,
        }
    }
}

/// What is watched on the private aggregate device, in the order of registration. The stream
/// cannot do without knowing that the device is alive and at which rate it runs.
pub open spec fn aggregate_plan(aggregate_device_id: AudioDeviceID) -> Seq<PlannedListener> {
    let device = AudioObject::Id(aggregate_device_id);
    seq![
        PlannedListener::required_on(
            device,
            PropertySelector::DeviceIsAlive,
            PropertyScope::Global,
            SystemAudioListenerEvent::DeviceNotAvailable(
                "system audio aggregate device disconnected",
            ),
        ),
        PlannedListener::required_on(
            device,
            PropertySelector::NominalSampleRate,
            PropertyScope::Global,
            SystemAudioListenerEvent::StreamInvalidated(
                "system audio aggregate sample rate changed",
            ),
        ),
        PlannedListener::optional_on(
            device,
            PropertySelector::StreamFormat,
            PropertyScope::Input,
            "system audio aggregate input stream format changed",
        ),
        PlannedListener::optional_on(
            device,
            PropertySelector::StreamConfiguration,
            PropertyScope::Input,
            "system audio aggregate input stream configuration changed",
        ),
        PlannedListener::optional_on(
            device,
            PropertySelector::AggregateFullSubDeviceList,
            PropertyScope::Global,
            "system audio aggregate subdevice list changed",
        ),
        PlannedListener::optional_on(
            device,
            PropertySelector::AggregateActiveSubDeviceList,
            PropertyScope::Global,
            "system audio aggregate active subdevice list changed",
        ),
        PlannedListener::optional_on(
            device,
            PropertySelector::AggregateTapList,
            PropertyScope::Global,
            "system audio aggregate tap list changed",
        ),
        PlannedListener::optional_on(
            device,
            PropertySelector::AggregateSubTapList,
            PropertyScope::Global,
            "system audio aggregate subtap list changed",
        ),
        PlannedListener::optional_on(
            device,
            PropertySelector::AggregateComposition,
            PropertyScope::Global,
            "system audio aggregate composition changed",
        ),
        PlannedListener::optional_on(
            device,
            PropertySelector::AggregateMainSubDevice,
            PropertyScope::Global,
            "system audio aggregate main subdevice changed",
        ),
        PlannedListener::optional_on(
            device,
            PropertySelector::AggregateClockDevice,
            PropertyScope::Global,
            "system audio aggregate clock device changed",
        ),
    ]
}

/// What is watched on the tap, in the order of registration.
pub open spec fn tap_plan(tap_id: AudioObjectID) -> Seq<PlannedListener> {
    let tap = AudioObject::Id(tap_id);
    seq![
        PlannedListener::optional_on(
            tap,
            PropertySelector::TapFormat,
            PropertyScope::Global,
            "system audio tap format changed",
        ),
        PlannedListener::optional_on(
            tap,
            PropertySelector::TapDescription,
            PropertyScope::Global,
            "system audio tap description changed",
        ),
    ]
}

/// What is watched on the audio system as a whole, in the order of registration. The stream
/// cannot do without knowing which device is the default output.
pub open spec fn system_audio_global_plan() -> Seq<PlannedListener> {
    seq![
        PlannedListener::required_on(
            AudioObject::System,
            PropertySelector::DefaultOutputDevice,
            PropertyScope::Global,
            SystemAudioListenerEvent::DefaultOutputChanged,
        ),
        PlannedListener::optional_on(
            AudioObject::System,
            PropertySelector::HardwareDevices,
            PropertyScope::Global,
            "system audio hardware device list changed",
        ),
        PlannedListener::optional_on(
            AudioObject::System,
            PropertySelector::HardwareTapList,
            PropertyScope::Global,
            "system audio hardware tap list changed",
        ),
    ]
}

/// What is watched on the default output device, in the order of registration: nothing where
/// there is no such device.
pub open spec fn default_output_plan(default_output_id: Option<AudioDeviceID>) -> Seq<
    PlannedListener,
> {
    match default_output_id {
        None => Seq::empty(),
        Some(id) => {
            let device = AudioObject::Id(id);
            seq![
                PlannedListener::optional_on(
                    device,
                    PropertySelector::NominalSampleRate,
                    PropertyScope::Global,
                    "system audio default output sample rate changed",
                ),
                PlannedListener::optional_on(
                    device,
                    PropertySelector::StreamFormat,
                    PropertyScope::Output,
                    "system audio default output stream format changed",
                ),
                PlannedListener::optional_on(
                    device,
                    PropertySelector::StreamConfiguration,
                    PropertyScope::Output,
                    "system audio default output stream configuration changed",
                ),
                PlannedListener::optional_on(
                    device,
                    PropertySelector::DeviceIsAlive,
                    PropertyScope::Global,
                    "system audio default output availability changed",
                ),
            ]
        },
    }
}

/// What is watched for as long as a system-audio stream exists, in the order of registration.
pub open spec fn system_audio_plan(
    aggregate_device_id: AudioDeviceID,
    tap_id: AudioObjectID,
) -> Seq<PlannedListener> {
    aggregate_plan(aggregate_device_id) + system_audio_global_plan() + tap_plan(tap_id)
}

/// The listeners for the private aggregate device, in the order of registration.
pub fn aggregate_listener_plan(aggregate_device_id: AudioDeviceID) -> (plan: Vec<PlannedListener>)
    ensures
        plan@ == aggregate_plan(aggregate_device_id),
{
    let device = AudioObject::Id(aggregate_device_id);
    let mut plan: Vec<PlannedListener> = Vec::new();
    plan.push(PlannedListener::required(
        device,
        PropertySelector::DeviceIsAlive,
        PropertyScope::Global,
        SystemAudioListenerEvent::DeviceNotAvailable("system audio aggregate device disconnected"),
    ));
    plan.push(PlannedListener::required(
        device,
        PropertySelector::NominalSampleRate,
        PropertyScope::Global,
        SystemAudioListenerEvent::StreamInvalidated("system audio aggregate sample rate changed"),
    ));
    plan.push(PlannedListener::optional(
        device,
        PropertySelector::StreamFormat,
        PropertyScope::Input,
        "system audio aggregate input stream format changed",
    ));
    plan.push(PlannedListener::optional(
        device,
        PropertySelector::StreamConfiguration,
        PropertyScope::Input,
        "system audio aggregate input stream configuration changed",
    ));
    plan.push(PlannedListener::optional(
        device,
        PropertySelector::AggregateFullSubDeviceList,
        PropertyScope::Global,
        "system audio aggregate subdevice list changed",
    ));
    plan.push(PlannedListener::optional(
        device,
        PropertySelector::AggregateActiveSubDeviceList,
        PropertyScope::Global,
        "system audio aggregate active subdevice list changed",
    ));
    plan.push(PlannedListener::optional(
        device,
        PropertySelector::AggregateTapList,
        PropertyScope::Global,
        "system audio aggregate tap list changed",
    ));
    plan.push(PlannedListener::optional(
        device,
        PropertySelector::AggregateSubTapList,
        PropertyScope::Global,
        "system audio aggregate subtap list changed",
    ));
    plan.push(PlannedListener::optional(
        device,
        PropertySelector::AggregateComposition,
        PropertyScope::Global,
        "system audio aggregate composition changed",
    ));
    plan.push(PlannedListener::optional(
        device,
        PropertySelector::AggregateMainSubDevice,
        PropertyScope::Global,
        "system audio aggregate main subdevice changed",
    ));
    plan.push(PlannedListener::optional(
        device,
        PropertySelector::AggregateClockDevice,
        PropertyScope::Global,
        "system audio aggregate clock device changed",
    ));
    plan
}

/// The listeners for the tap, in the order of registration.
pub fn tap_listener_plan(tap_id: AudioObjectID) -> (plan: Vec<PlannedListener>)
    ensures
        plan@ == tap_plan(tap_id),
{
    let tap = AudioObject::Id(tap_id);
    let mut plan: Vec<PlannedListener> = Vec::new();
    plan.push(PlannedListener::optional(
        tap,
        PropertySelector::TapFormat,
        PropertyScope::Global,
        "system audio tap format changed",
    ));
    plan.push(PlannedListener::optional(
        tap,
        PropertySelector::TapDescription,
        PropertyScope::Global,
        "system audio tap description changed",
    ));
    plan
}

/// The listeners for the audio system as a whole, in the order of registration.
pub fn system_audio_global_listener_plan() -> (plan: Vec<PlannedListener>)
    ensures
        plan@ == system_audio_global_plan(),
{
    let mut plan: Vec<PlannedListener> = Vec::new();
    plan.push(PlannedListener::required(
        AudioObject::System,
        PropertySelector::DefaultOutputDevice,
        PropertyScope::Global,
        SystemAudioListenerEvent::DefaultOutputChanged,
    ));
    plan.push(PlannedListener::optional(
        AudioObject::System,
        PropertySelector::HardwareDevices,
        PropertyScope::Global,
        "system audio hardware device list changed",
    ));
    plan.push(PlannedListener::optional(
        AudioObject::System,
        PropertySelector::HardwareTapList,
        PropertyScope::Global,
        "system audio hardware tap list changed",
    ));
    plan
}

/// The listeners for the default output device, in the order of registration. There are none
/// where there is no such device.
pub fn default_output_listener_plan(default_output_id: Option<AudioDeviceID>) -> (plan: Vec<
    PlannedListener,
>)
    ensures
        plan@ == default_output_plan(default_output_id),
{
    let mut plan: Vec<PlannedListener> = Vec::new();
    let Some(default_output_id) = default_output_id else {
        return plan;
    };
    let device = AudioObject::Id(default_output_id);
    plan.push(PlannedListener::optional(
        device,
        PropertySelector::NominalSampleRate,
        PropertyScope::Global,
        "system audio default output sample rate changed",
    ));
    plan.push(PlannedListener::optional(
        device,
        PropertySelector::StreamFormat,
        PropertyScope::Output,
        "system audio default output stream format changed",
    ));
    plan.push(PlannedListener::optional(
        device,
        PropertySelector::StreamConfiguration,
        PropertyScope::Output,
        "system audio default output stream configuration changed",
    ));
    plan.push(PlannedListener::optional(
        device,
        PropertySelector::DeviceIsAlive,
        PropertyScope::Global,
        "system audio default output availability changed",
    ));
    plan
}

/// A request names the object, the property and the scope that are to be watched, and what is to be
/// reported on a change.
pub proof fn law_requests_ask_for_what_was_named<E>(
    object: AudioObject,
    selector: PropertySelector,
    scope: PropertyScope,
    event: E,
    request: ListenerRequest<E>,
)
    requires
        call_ensures(property_listener::<E>, (object, selector, scope, event), request),
    ensures
        request.object == object,
        request.address.selector == selector,
        request.address.scope == scope,
        request.address.element is Main,
        request.event == event,
{
}

/// The properties of the aggregate device that are watched, each of them once: whether it is alive,
/// its rate, the format and the buffers of what it records, the devices and taps that it is made of,
/// and where it takes its clock from.
pub proof fn law_all_of_the_aggregate_device_is_watched(aggregate_device_id: AudioDeviceID)
    ensures
        aggregate_plan(aggregate_device_id).map_values(
            |planned: PlannedListener| planned.request.address.selector,
        ) == seq![
            PropertySelector::DeviceIsAlive,
            PropertySelector::NominalSampleRate,
            PropertySelector::StreamFormat,
            PropertySelector::StreamConfiguration,
            PropertySelector::AggregateFullSubDeviceList,
            PropertySelector::AggregateActiveSubDeviceList,
            PropertySelector::AggregateTapList,
            PropertySelector::AggregateSubTapList,
            PropertySelector::AggregateComposition,
            PropertySelector::AggregateMainSubDevice,
            PropertySelector::AggregateClockDevice,
        ],
{
}

/// Each property of the aggregate device is watched on the device itself, on its input side where it
/// is about the stream that is recorded from it, and on the device as a whole otherwise. The stream
/// cannot do without knowing that the device is alive and at which rate it runs. That the device is
/// gone is reported as just that; every other change invalidates the stream.
pub proof fn law_how_the_aggregate_device_is_watched(aggregate_device_id: AudioDeviceID, i: int)
    requires
        0 <= i < aggregate_plan(aggregate_device_id).len(),
    ensures
        ({
            let planned = aggregate_plan(aggregate_device_id)[i];
            let address = planned.request.address;
            let event = planned.request.event;
            &&& planned.request.object == AudioObject::Id(aggregate_device_id)
            &&& address.element is Main
            &&& !(address.scope is Output)
            &&& address.scope is Input <==> address.selector is StreamFormat || address.selector
                is StreamConfiguration
            &&& planned.required <==> address.selector is DeviceIsAlive || address.selector
                is NominalSampleRate
            &&& event is DeviceNotAvailable <==> address.selector is DeviceIsAlive
            &&& event is StreamInvalidated <==> !(address.selector is DeviceIsAlive)
        }),
{
}

/// Which property of the aggregate device has changed is said by the message.
pub proof fn law_what_is_said_of_the_aggregate_device(aggregate_device_id: AudioDeviceID, i: int)
    requires
        0 <= i < aggregate_plan(aggregate_device_id).len(),
    ensures
        ({
            let request = aggregate_plan(aggregate_device_id)[i].request;
            let message = match request.event {
                SystemAudioListenerEvent::DeviceNotAvailable(message) => message@,
                SystemAudioListenerEvent::StreamInvalidated(message) => message@,
                SystemAudioListenerEvent::DefaultOutputChanged => ""@,
            };
            match request.address.selector {
                PropertySelector::DeviceIsAlive => message
                    == "system audio aggregate device disconnected"@,
                PropertySelector::NominalSampleRate => message
                    == "system audio aggregate sample rate changed"@,
                PropertySelector::StreamFormat => message
                    == "system audio aggregate input stream format changed"@,
                PropertySelector::StreamConfiguration => message
                    == "system audio aggregate input stream configuration changed"@,
                PropertySelector::AggregateFullSubDeviceList => message
                    == "system audio aggregate subdevice list changed"@,
                PropertySelector::AggregateActiveSubDeviceList => message
                    == "system audio aggregate active subdevice list changed"@,
                PropertySelector::AggregateTapList => message
                    == "system audio aggregate tap list changed"@,
                PropertySelector::AggregateSubTapList => message
                    == "system audio aggregate subtap list changed"@,
                PropertySelector::AggregateComposition => message
                    == "system audio aggregate composition changed"@,
                PropertySelector::AggregateMainSubDevice => message
                    == "system audio aggregate main subdevice changed"@,
                PropertySelector::AggregateClockDevice => message
                    == "system audio aggregate clock device changed"@,
                _ => false,
            }
        }),
{
}

/// Of the tap its format and its description are watched, each once, on the tap as a whole. The
/// stream can do without either, and is invalidated by a change of either.
pub proof fn law_all_of_the_tap_is_watched(tap_id: AudioObjectID, i: int)
    requires
        0 <= i < tap_plan(tap_id).len(),
    ensures
        tap_plan(tap_id).map_values(
            |planned: PlannedListener| planned.request.address.selector,
        ) == seq![PropertySelector::TapFormat, PropertySelector::TapDescription],
        ({
            let planned = tap_plan(tap_id)[i];
            let event = planned.request.event;
            &&& planned.request.object == AudioObject::Id(tap_id)
            &&& planned.request.address.scope is Global
            &&& planned.request.address.element is Main
            &&& !planned.required
            &&& event is StreamInvalidated
            &&& planned.request.address.selector is TapFormat ==> event->StreamInvalidated_0@
                == "system audio tap format changed"@
            &&& planned.request.address.selector is TapDescription ==> event->StreamInvalidated_0@
                == "system audio tap description changed"@
        }),
{
}

/// Of the audio system as a whole the default output device, the devices and the taps are watched,
/// each once. The stream cannot do without knowing the default output. A change of that is reported
/// as what it is, and a change of the others invalidates the stream.
pub proof fn law_all_of_the_system_is_watched(i: int)
    requires
        0 <= i < system_audio_global_plan().len(),
    ensures
        system_audio_global_plan().map_values(
            |planned: PlannedListener| planned.request.address.selector,
        ) == seq![
            PropertySelector::DefaultOutputDevice,
            PropertySelector::HardwareDevices,
            PropertySelector::HardwareTapList,
        ],
        ({
            let planned = system_audio_global_plan()[i];
            let selector = planned.request.address.selector;
            let event = planned.request.event;
            &&& planned.request.object is System
            &&& planned.request.address.scope is Global
            &&& planned.request.address.element is Main
            &&& planned.required <==> selector is DefaultOutputDevice
            &&& event is DefaultOutputChanged <==> selector is DefaultOutputDevice
            &&& event is StreamInvalidated <==> !(selector is DefaultOutputDevice)
            &&& selector is HardwareDevices ==> event->StreamInvalidated_0@
                == "system audio hardware device list changed"@
            &&& selector is HardwareTapList ==> event->StreamInvalidated_0@
                == "system audio hardware tap list changed"@
        }),
{
}

/// Of the default output device its rate, the format and the buffers of what it plays, and whether it
/// is alive are watched, each once: on its output side where it is about the stream that it plays,
/// and on the device as a whole otherwise. The stream can do without any of them, and is invalidated
/// by a change of any of them, the loss of the device included.
pub proof fn law_all_of_the_default_output_is_watched(default_output_id: AudioDeviceID, i: int)
    requires
        0 <= i < default_output_plan(Some(default_output_id)).len(),
    ensures
        default_output_plan(Some(default_output_id)).map_values(
            |planned: PlannedListener| planned.request.address.selector,
        ) == seq![
            PropertySelector::NominalSampleRate,
            PropertySelector::StreamFormat,
            PropertySelector::StreamConfiguration,
            PropertySelector::DeviceIsAlive,
        ],
        ({
            let planned = default_output_plan(Some(default_output_id))[i];
            let address = planned.request.address;
            let event = planned.request.event;
            &&& planned.request.object == AudioObject::Id(default_output_id)
            &&& address.element is Main
            &&& !(address.scope is Input)
            &&& address.scope is Output <==> address.selector is StreamFormat || address.selector
                is StreamConfiguration
            &&& !planned.required
            &&& event is StreamInvalidated
            &&& address.selector is NominalSampleRate ==> event->StreamInvalidated_0@
                == "system audio default output sample rate changed"@
            &&& address.selector is StreamFormat ==> event->StreamInvalidated_0@
                == "system audio default output stream format changed"@
            &&& address.selector is StreamConfiguration ==> event->StreamInvalidated_0@
                == "system audio default output stream configuration changed"@
            &&& address.selector is DeviceIsAlive ==> event->StreamInvalidated_0@
                == "system audio default output availability changed"@
        }),
{
}

/// Where there is no default output device, nothing is watched on it.
pub proof fn law_nothing_is_watched_without_a_default_output()
    ensures
        default_output_plan(None).len() == 0,
{
}

/// Which device and which tap a stream is built on decides on which objects it is watched, and on
/// nothing else: the same properties are watched in the same order, with the same reports.
pub proof fn law_all_devices_are_watched_alike(one: AudioObjectID, other: AudioObjectID, i: int)
    ensures
        aggregate_plan(one).len() == aggregate_plan(other).len() == 11,
        tap_plan(one).len() == tap_plan(other).len() == 2,
        default_output_plan(Some(one)).len() == default_output_plan(Some(other)).len() == 4,
        0 <= i < 11 ==> {
            let (first, second) = (aggregate_plan(one)[i], aggregate_plan(other)[i]);
            &&& first.request.address == second.request.address
            &&& first.request.event == second.request.event
            &&& first.required == second.required
        },
        0 <= i < 2 ==> {
            let (first, second) = (tap_plan(one)[i], tap_plan(other)[i]);
            &&& first.request.address == second.request.address
            &&& first.request.event == second.request.event
            &&& first.required == second.required
        },
        0 <= i < 4 ==> {
            let (first, second) = (
                default_output_plan(Some(one))[i],
                default_output_plan(Some(other))[i],
            );
            &&& first.request.address == second.request.address
            &&& first.request.event == second.request.event
            &&& first.required == second.required
        },
{
}

/// What is watched for as long as a system-audio stream exists is all that is watched on its aggregate
/// device, then all that is watched on the audio system, then all that is watched on its tap.
pub proof fn law_a_stream_is_watched_all_over(
    aggregate_device_id: AudioDeviceID,
    tap_id: AudioObjectID,
    i: int,
)
    requires
        0 <= i < system_audio_plan(aggregate_device_id, tap_id).len(),
    ensures
        system_audio_plan(aggregate_device_id, tap_id).len() == 16,
        ({
            let planned = system_audio_plan(aggregate_device_id, tap_id)[i];
            &&& i < 11 ==> planned == aggregate_plan(aggregate_device_id)[i]
            &&& 11 <= i < 14 ==> planned == system_audio_global_plan()[i - 11]
            &&& 14 <= i ==> planned == tap_plan(tap_id)[i - 14]
        }),
{
}

/// Each property behind a system-audio stream is watched on the object as a whole, but for the format
/// and the buffers of what the aggregate device records: these are watched on its input side.
pub proof fn law_only_recorded_streams_are_watched_on_the_input_side(
    aggregate_device_id: AudioDeviceID,
    tap_id: AudioObjectID,
    i: int,
)
    requires
        0 <= i < system_audio_plan(aggregate_device_id, tap_id).len(),
    ensures
        ({
            let request = system_audio_plan(aggregate_device_id, tap_id)[i].request;
            let recorded = request.object == AudioObject::Id(aggregate_device_id) && (
            request.address.selector is StreamFormat || request.address.selector
                is StreamConfiguration);
            &&& recorded ==> request.address.scope is Input
            &&& !recorded ==> request.address.scope is Global
        }),
{
}

/// The listeners that are planned are those that are to be watched.
pub proof fn law_plans_hold_what_is_watched(
    aggregate_device_id: AudioDeviceID,
    tap_id: AudioObjectID,
    default_output_id: Option<AudioDeviceID>,
    aggregate: Vec<PlannedListener>,
    global: Vec<PlannedListener>,
    tap: Vec<PlannedListener>,
    default_output: Vec<PlannedListener>,
)
    requires
        call_ensures(aggregate_listener_plan, (aggregate_device_id,), aggregate),
        call_ensures(system_audio_global_listener_plan, (), global),
        call_ensures(tap_listener_plan, (tap_id,), tap),
        call_ensures(default_output_listener_plan, (default_output_id,), default_output),
    ensures
        aggregate@ == aggregate_plan(aggregate_device_id),
        global@ == system_audio_global_plan(),
        tap@ == tap_plan(tap_id),
        default_output@ == default_output_plan(default_output_id),
        aggregate@ + global@ + tap@ == system_audio_plan(aggregate_device_id, tap_id),
{
}

/// A clone of a request asks for the same.
pub proof fn law_clones_ask_for_the_same<E: Copy>(
    request: ListenerRequest<E>,
    clone: ListenerRequest<E>,
)
    requires
        call_ensures(<ListenerRequest<E> as Clone>::clone, (&request,), clone),
    ensures
        clone.object == request.object,
        clone.address == request.address,
        clone.event == request.event,
{
}

} // verus!
