//! Contains types for the CMD_NOTIFY_USER_DEVICE_LIST command,
//! which tells us of every custom XML tag in the robot hardware
//! configuration

use vstd::prelude::*;

verus! {

/// A device as described in JSON in NOTIFY_USER_DEVICE_LIST
#[derive(Debug, Clone, PartialEq, Eq)]
pub struct HardwareDeviceType {
    /// Type of device
    pub flavor: DeviceFlavor,
    pub xml_tag: String,
    pub name: String,
    pub built_in: bool,
    pub is_deprecated: bool,
    pub is_external_libraries: bool,
    pub is_on_bot_java: bool,
    pub description: String,
    pub xml_tag_aliases: Vec<String>,
    // Class source and control system and not really needed
    pub motor_extras: Option<MotorDeviceExtraFields>,
    pub servo_extras: Option<ServoDeviceExtraFields>,
}

/// What the configuration document reads of a device type: the tag it is written with,
/// the other tags it may be written with, and its flavor.
pub struct HardwareDeviceTypeView {
    pub flavor: DeviceFlavor,
    pub xml_tag: Seq<char>,
    pub xml_tag_aliases: Seq<Seq<char>>,
}

impl View for HardwareDeviceType {
    type V = HardwareDeviceTypeView;

    open spec fn view(&self) -> HardwareDeviceTypeView {
        HardwareDeviceTypeView {
            flavor: self.flavor,
            xml_tag: self.xml_tag@,
            xml_tag_aliases: self.xml_tag_aliases@.map_values(|s: String| s@),
        }
    }
}

/// The views of a list of device types.
pub open spec fn device_types_view(types: Seq<HardwareDeviceType>) -> Seq<
    HardwareDeviceTypeView,
> {
    types.map_values(|t: HardwareDeviceType| t@)
}

#[derive(Debug, Clone, Copy, PartialEq, Eq, Structural)]
pub enum DeviceFlavor {
    AnalogOutput,
    AnalogSensor,
    BuiltIn,
    DigitalIO,
    EthernetOverUSB,
    I2C,
    Motor,
    Servo,
}

/// Extra fields for a motor configuration device; each number is held as the bit pattern
/// of its IEEE 754 double (`f64::to_bits`).
#[derive(Debug, Clone, Copy, PartialEq, Eq, Structural)]
pub struct MotorDeviceExtraFields {
    pub max_revolutions_per_minute: u64,
    pub ticks_per_revolution: u64,
}

/// Extra fields for a servo configuration device
#[derive(Debug, Clone, Copy, PartialEq, Eq, Structural)]
pub struct ServoDeviceExtraFields {
    pub flavor: ServoFlavor,
}

#[derive(Debug, Clone, Copy, PartialEq, Eq, Structural)]
pub enum ServoFlavor {
    Standard,
    Continuous,
    Custom,
}

} // verus!
