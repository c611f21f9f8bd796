//! The host and the devices that it hands out.
use crate::error::Error;
use crate::property::AudioDeviceID;
use vstd::prelude::*;

verus! {

/// An audio device, as far as the host's decisions depend on it.
#[derive(Copy, Clone, Debug, PartialEq, Eq, Structural)]
pub struct Device {
    /// The number of the device. The global tap is bound to no device: there it is only a
    /// placeholder.
    pub audio_device_id: AudioDeviceID,
    /// Whether this stands for the global tap on all system audio.
    pub is_system_audio: bool,
}

impl Device {
    /// The device that stands for the global tap on all system audio.
    pub fn system_audio(placeholder: AudioDeviceID) -> (device: Device)
        ensures
            device == (Device { audio_device_id: placeholder, is_system_audio: true }),
    {
        Device { audio_device_id: placeholder, is_system_audio: true }
    }

    /// The number of `device`, where there is a device.
    pub open spec fn id_of(device: Option<Device>) -> Option<AudioDeviceID> {
        match device {
            Some(device) => Some(device.audio_device_id),
            None => None,
        }
    }

    /// The number of `device`, where there is a device.
    pub fn device_id(device: Option<Device>) -> (id: Option<AudioDeviceID>)
        ensures
            id == Device::id_of(device),
    {
        match device {
            Some(device) => Some(device.audio_device_id),
            None => None,
        }
    }
}

/// CoreAudio host, the default host on macOS.
#[derive(Debug)]
pub struct Host;

impl Host {
    /// The host. There is nothing to set up, so this does not fail.
    pub fn new() -> (host: Result<Host, Error>)
        ensures
            host == Ok::<Host, Error>(Host),
    {
        Ok(Host)
    }

    /// CoreAudio is taken to be always available.
    pub fn is_available() -> (available: bool)
        ensures
            available,
    {
        true
    }

    /// The device that records all system audio, given the current default output device.
    ///
    /// There always is one. It carries the number of the default output, or zero where there is
    /// no default output; the tap itself makes no use of that number.
    pub fn system_audio_device(&self, default_output: Option<Device>) -> (device: Option<Device>)
        ensures
            device == Some(
                Device {
                    audio_device_id: match default_output {
                        Some(output) => output.audio_device_id,
                        None => 0,
                    },
                    is_system_audio: true,
                },
            ),
    {
        let placeholder: AudioDeviceID = match Device::device_id(default_output) {
            Some(id) => id,
            None => 0,
        };
        Some(Device::system_audio(placeholder))
    }
}

/// The number of a device is the one that it carries, and there is a number exactly where there is
/// a device.
pub proof fn law_devices_carry_their_number(device: Option<Device>, id: Option<AudioDeviceID>)
    requires
        call_ensures(Device::device_id, (device,), id),
    ensures
        id == Device::id_of(device),
        id is Some <==> device is Some,
        id is Some ==> id->Some_0 == device->Some_0.audio_device_id,
{
}

/// There always is a device for system audio, and it is told apart from every device of the system
/// by being one. It carries the number of the default output, and zero where there is none.
pub proof fn law_system_audio_is_always_there(
    host: Host,
    default_output: Option<Device>,
    device: Option<Device>,
)
    requires
        call_ensures(Host::system_audio_device, (&host, default_output), device),
    ensures
        device is Some,
        device->Some_0.is_system_audio,
        default_output is Some ==> device->Some_0.audio_device_id
            == default_output->Some_0.audio_device_id,
        default_output is None ==> device->Some_0.audio_device_id == 0,
{
}

/// The device for system audio carries the number that it was made with.
pub proof fn law_system_audio_keeps_its_placeholder(placeholder: AudioDeviceID, device: Device)
    requires
        call_ensures(Device::system_audio, (placeholder,), device),
    ensures
        device.is_system_audio,
        device.audio_device_id == placeholder,
{
}

/// The host can be had at any time.
pub proof fn law_host_is_always_there(host: Result<Host, Error>, available: bool)
    requires
        call_ensures(Host::new, (), host),
        call_ensures(Host::is_available, (), available),
    ensures
        host is Ok,
        available,
{
}

} // verus!
