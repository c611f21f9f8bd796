//! Audio objects and the addresses of their properties.
use vstd::prelude::*;

verus! {

/// The number that the system gives to an audio object.
pub type AudioObjectID = u32;

/// The number of an audio object that is a device.
pub type AudioDeviceID = u32;

/// An audio object whose properties can be watched.
#[derive(Copy, Clone, Debug, PartialEq, Eq, Structural)]
pub enum AudioObject {
    /// The object that stands for the audio system as a whole.
    System,
    /// The object of the given number.
    Id(AudioObjectID),
}

/// The properties that this host watches.
#[derive(Copy, Clone, Debug, PartialEq, Eq, Structural)]
pub enum PropertySelector {
    /// Whether a device is still present.
    DeviceIsAlive,
    /// The sample rate that a device runs at.
    NominalSampleRate,
    /// The format of a device's stream.
    StreamFormat,
    /// The buffers that make up a device's stream.
    StreamConfiguration,
    /// All devices that an aggregate device names.
    AggregateFullSubDeviceList,
    /// The devices of an aggregate device that are in use.
    AggregateActiveSubDeviceList,
    /// The taps that an aggregate device names.
    AggregateTapList,
    /// The tap objects of an aggregate device.
    AggregateSubTapList,
    /// The description that an aggregate device was made from.
    AggregateComposition,
    /// The main device of an aggregate device.
    AggregateMainSubDevice,
    /// The device that an aggregate device takes its clock from.
    AggregateClockDevice,
    /// The format that a tap delivers.
    TapFormat,
    /// The description of a tap.
    TapDescription,
    /// The system's default output device.
    DefaultOutputDevice,
    /// The devices of the system.
    HardwareDevices,
    /// The taps of the system.
    HardwareTapList,
}

/// The part of an object that a property belongs to.
#[derive(Copy, Clone, Debug, PartialEq, Eq, Structural)]
pub enum PropertyScope {
    /// The object as a whole.
    Global,
    /// Its input side.
    Input,
    /// Its output side.
    Output,
}

/// The element within a scope that a property belongs to.
#[derive(Copy, Clone, Debug, PartialEq, Eq, Structural)]
pub enum PropertyElement {
    /// The scope as a whole, no single channel of it.
    Main,
}

/// Names one property of an audio object.
#[derive(Copy, Clone, Debug, PartialEq, Eq, Structural)]
pub struct PropertyAddress {
    pub selector: PropertySelector,
    pub scope: PropertyScope,
    pub element: PropertyElement,
}

impl PropertyAddress {
    /// The address of a property on the main element of `scope`.
    pub open spec fn on_main_element(selector: PropertySelector, scope: PropertyScope) -> PropertyAddress {
        PropertyAddress { selector, scope, element: PropertyElement::Main }
    }
}

/// The address of a property on the main element of `scope`.
pub fn property_address(selector: PropertySelector, scope: PropertyScope) -> (address:
    PropertyAddress)
    ensures
        address == PropertyAddress::on_main_element(selector, scope),
{
    PropertyAddress { selector, scope, element: PropertyElement::Main }
}

/// The address of a property names the property and the scope that it was asked for on, and the
/// scope as a whole.
pub proof fn law_addresses_name_what_was_asked_for(
    selector: PropertySelector,
    scope: PropertyScope,
    address: PropertyAddress,
)
    requires
        call_ensures(property_address, (selector, scope), address),
    ensures
        address.selector == selector,
        address.scope == scope,
        address.element is Main,
{
}

} // verus!
