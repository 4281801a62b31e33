//! What the driver station knows about the robot: its opmodes, its state, its battery,
//! its messages and its telemetry lines, and how what it reports changes that.

use vstd::prelude::*;

use std::time::Instant;

use crate::app::opmodes_view;
use crate::clock::instant_now;
use crate::ftc_proto::hardware::device::{DeviceFlavor, HardwareDeviceType};
use crate::ftc_proto::robot_command::{
    OpModeData, OpModeDataView, OpModeFlavor, RobotConfiguration, DEFAULT_OPMODE_GROUP, OPMODE_STOP,
};
use crate::ftc_proto::time_packet::RobotOpmodeState;
use crate::network::{opt_view, CommandEffect, CommandEffectView, TelemetryPlan};
use crate::text::{chars_between, chars_of, find_chars, find_from, spec_trim, string_from_chars, trim};

verus! {

/// Data that we got about the robot itself
#[derive(Debug)]
pub struct Robot {
    /// The last update we got from the robot
    pub active_opmode_state: Option<RobotOpmodeState>,
    /// The currently active opmode
    pub active_opmode: String,
    /// The list of opmodes the robot has
    pub opmode_list: Option<Vec<OpModeData>>,
    /// The active configuration, if we've received one
    pub active_configuration: Option<RobotConfiguration>,
    /// The valid configuration types, if we're received them from the server
    pub configuration_types: Option<Vec<HardwareDeviceType>>,
    /// The last battery voltage we got, as the bit pattern of an `f32`
    pub battery_voltage: Option<u32>,
    /// When the last battery update was received
    pub last_battery_update: Instant,
    /// An active system warning message, if any
    pub warning_message: Option<String>,
    /// An active system error message, if any
    pub error_message: Option<String>,
    /// The telemetry display lines last received in a telemetry packet
    pub telemetry_list: Vec<String>,
}

/// The bit pattern of `12.3f32`, the battery voltage of the fake robot.
pub const FAKE_BATTERY_VOLTAGE_BITS: u32 = 0x4144_CCCD;

fn opmode(name: &str, group: &str, flavor: OpModeFlavor) -> (o: OpModeData)
    ensures
        o@ == fake_opmode(name@, group@, flavor),
{
    OpModeData {
        name: String::from_str(name),
        group: String::from_str(group),
        flavor,
        source: None,
        system_opmode_display_name: None,
    }
}

/// What the fake robot lists of each device type: flavor, tag, name, whether it is built
/// in, description and the other tags it may be written with.
pub open spec fn fake_device_type_entries() -> Seq<(DeviceFlavor, Seq<char>, Seq<char>, bool, Seq<char>, Seq<Seq<char>>)> {
    seq![
        (DeviceFlavor::AnalogSensor, "AnalogInput"@, "Analog Input"@, true, ""@, Seq::empty()),
        (DeviceFlavor::I2C, "AdafruitBNO055IMU"@, "Adafruit IMU"@, true, "an Adafruit IMU"@, Seq::empty()),
        (DeviceFlavor::BuiltIn, "LynxColorSensor"@, "REV Color/Range Sensor"@, false, ""@, Seq::empty()),
        (DeviceFlavor::I2C, "ModernRoboticsI2cRangeSensor"@, "MR Range Sensor"@, true, "a MR range sensor"@, Seq::empty()),
        (DeviceFlavor::BuiltIn, "Compass"@, "[Unknown]"@, false, ""@, Seq::empty()),
        (DeviceFlavor::BuiltIn, "PulseWidthDevice"@, "Pulse Width Device"@, false, ""@, Seq::empty()),
        (DeviceFlavor::DigitalIO, "DigitalDevice"@, "Digital Device"@, true, ""@, Seq::empty()),
        (DeviceFlavor::Motor, "NeveRest40Gearmotor"@, "NeveRest 40 Gearmotor"@, true, ""@, Seq::empty()),
        (DeviceFlavor::I2C, "MaxSonarI2CXL"@, "MaxSonar I2CXL"@, false, ""@, Seq::empty()),
        (DeviceFlavor::AnalogSensor, "OpticalDistanceSensor"@, "MR Optical Distance Sensor"@, true, "a Modern Robotics optical distance sensor"@, Seq::empty()),
        (DeviceFlavor::Servo, "RevSPARKMini"@, "REV SPARKmini Controller"@, true, "a REV SPARKmini Motor Controller"@, Seq::empty()),
        (DeviceFlavor::Motor, "NeveRest20Gearmotor"@, "NeveRest 20 Gearmotor"@, true, ""@, Seq::empty()),
        (DeviceFlavor::I2C, "LynxEmbeddedIMU"@, "REV internal IMU (BNO055)"@, true, "an embedded IMU"@, Seq::empty()),
        (DeviceFlavor::Motor, "NeveRest3.7v1Gearmotor"@, "NeveRest 3.7 v1 Gearmotor"@, true, ""@, Seq::empty()),
        (DeviceFlavor::I2C, "OctoQuadFTC"@, "OctoQuadFTC"@, false, ""@, Seq::empty()),
        (DeviceFlavor::I2C, "KauaiLabsNavxMicro"@, "navX Micro"@, true, "a navX Micro gyro"@, Seq::empty()),
        (DeviceFlavor::Servo, "ContinuousRotationServo"@, "Continuous Rotation Servo"@, true, ""@, Seq::empty()),
        (DeviceFlavor::BuiltIn, "IrSeekerV3"@, "MR IR Seeker v3"@, false, ""@, Seq::empty()),
        (DeviceFlavor::AnalogSensor, "ModernRoboticsAnalogTouchSensor"@, "MR Touch Sensor"@, true, "a Modern Robotics touch sensor"@, Seq::empty()),
        (DeviceFlavor::Motor, "goBILDA5201SeriesMotor"@, "GoBILDA 5201 series"@, true, ""@, Seq::empty()),
        (DeviceFlavor::Motor, "goBILDA5202SeriesMotor"@, "GoBILDA 5202/3/4 series"@, true, ""@, Seq::empty()),
        (DeviceFlavor::I2C, "RevColorSensorV3"@, "REV Color Sensor V3"@, true, "a REV Color Sensor V3"@, Seq::empty()),
        (DeviceFlavor::Motor, "TetrixMotor"@, "Tetrix Motor"@, true, ""@, Seq::empty()),
        (DeviceFlavor::I2C, "SparkFunOTOS"@, "SparkFun OTOS"@, false, "SparkFun Qwiic Optical Tracking Odometry Sensor"@, Seq::empty()),
        (DeviceFlavor::Motor, "Matrix12vMotor"@, "Matrix 12v Motor"@, true, ""@, Seq::empty()),
        (DeviceFlavor::BuiltIn, "Accelerometer"@, "[Unknown]"@, false, ""@, Seq::empty()),
        (DeviceFlavor::BuiltIn, "Webcam"@, "Webcam"@, false, ""@, Seq::empty()),
        (DeviceFlavor::I2C, "ControlHubImuBHI260AP"@, "REV internal IMU (BHI260AP)"@, true, "an embedded IMU"@, Seq::empty()),
        (DeviceFlavor::DigitalIO, "Led"@, "LED"@, true, "an LED"@, Seq::empty()),
        (DeviceFlavor::BuiltIn, "Gyro"@, "MR Gyro"@, false, ""@, Seq::empty()),
        (DeviceFlavor::BuiltIn, "IrSeeker"@, "[Unknown]"@, false, ""@, Seq::empty()),
        (DeviceFlavor::BuiltIn, "LynxModule"@, "Expansion Hub"@, false, ""@, Seq::empty()),
        (DeviceFlavor::BuiltIn, "AdafruitColorSensor"@, "Adafruit Color Sensor"@, false, ""@, Seq::empty()),
        (DeviceFlavor::Servo, "Servo"@, "Servo"@, true, ""@, Seq::empty()),
        (DeviceFlavor::I2C, "ModernRoboticsI2cCompassSensor"@, "MR Compass Sensor"@, true, "a MR compass sensor"@, Seq::empty()),
        (DeviceFlavor::I2C, "RevExternalImu"@, "REV 9-Axis IMU"@, true, "a REV 9-Axis IMU"@, Seq::empty()),
        (DeviceFlavor::Motor, "StudicaMaverick"@, "Studica Maverick"@, true, ""@, Seq::empty()),
        (DeviceFlavor::I2C, "AndyMarkIMU"@, "AndyMark 9-Axis IMU"@, true, "AndyMark External IMU"@, Seq::empty()),
        (DeviceFlavor::I2C, "AndyMarkTOF"@, "AndyMark TOF Lidar"@, true, "AndyMark 2m TOF Lidar"@, Seq::empty()),
        (DeviceFlavor::BuiltIn, "Robot"@, "[Unknown]"@, false, ""@, Seq::empty()),
        (DeviceFlavor::Servo, "ServoFullRange"@, "Full Range Servo"@, true, ""@, Seq::empty()),
        (DeviceFlavor::Motor, "RevRoboticsUltraplanetaryHDHexMotor"@, "REV Robotics UltraPlanetary HD Hex Motor"@, true, ""@, Seq::empty()),
        (DeviceFlavor::I2C, "QWIIC_LED_STICK"@, "SparkFun QWIIC LED Stick"@, false, "a SparkFun QWIIC LED Stick"@, Seq::empty()),
        (DeviceFlavor::BuiltIn, "<unknown>"@, "[Unknown]"@, false, ""@, Seq::empty()),
        (DeviceFlavor::BuiltIn, "LightSensor"@, "[Unknown]"@, false, ""@, Seq::empty()),
        (DeviceFlavor::BuiltIn, "ColorSensor"@, "MR Color Sensor"@, false, ""@, Seq::empty()),
        (DeviceFlavor::Motor, "RevRobotics40HDHexMotor"@, "REV Robotics 40:1 HD Hex Motor"@, true, ""@, seq!["RevRoboticsHDHexMotor"@]),
        (DeviceFlavor::Servo, "RevBlinkinLedDriver"@, "REV Blinkin LED Driver"@, true, "a REV Blinkin LED Driver"@, Seq::empty()),
        (DeviceFlavor::Motor, "RevRoboticsCoreHexMotor"@, "REV Robotics Core Hex Motor"@, true, ""@, Seq::empty()),
        (DeviceFlavor::I2C, "goBILDAPinpoint"@, "goBILDA® Pinpoint Odometry Computer"@, false, "goBILDA® Pinpoint Odometry Computer (IMU Sensor Fusion for 2 Wheel Odometry)"@, Seq::empty()),
        (DeviceFlavor::I2C, "REV_VL53L0X_RANGE_SENSOR"@, "REV 2M Distance Sensor"@, true, "REV 2M Distance Sensor"@, Seq::empty()),
        (DeviceFlavor::Motor, "Motor"@, "Unspecified Motor"@, true, ""@, Seq::empty()),
        (DeviceFlavor::BuiltIn, "Nothing"@, "Nothing"@, false, ""@, Seq::empty()),
        (DeviceFlavor::DigitalIO, "RevTouchSensor"@, "REV Touch Sensor"@, true, "a REV touch sensor"@, Seq::empty()),
        (DeviceFlavor::BuiltIn, "LynxUsbDevice"@, "Expansion Hub Portal"@, false, ""@, Seq::empty()),
        (DeviceFlavor::I2C, "AndyMarkColor"@, "AndyMark Proximity & Color Sensor"@, false, "AndyMark Proximity & Color Sensor"@, Seq::empty()),
        (DeviceFlavor::I2C, "HuskyLens"@, "HuskyLens"@, false, "HuskyLens Vision Sensor"@, Seq::empty()),
        (DeviceFlavor::BuiltIn, "ServoHub"@, "[Unknown]"@, false, ""@, Seq::empty()),
        (DeviceFlavor::BuiltIn, "UltrasonicSensor"@, "[Unknown]"@, false, ""@, Seq::empty()),
        (DeviceFlavor::BuiltIn, "EthernetDevice"@, "[Unknown]"@, false, ""@, Seq::empty()),
        (DeviceFlavor::Motor, "NeveRest60Gearmotor"@, "NeveRest 60 Gearmotor"@, true, ""@, Seq::empty()),
        (DeviceFlavor::Motor, "RevRobotics20HDHexMotor"@, "REV Robotics 20:1 HD Hex Motor"@, true, ""@, Seq::empty()),
    ]
}

/// The listed fields of a device type.
pub open spec fn device_type_entry(t: HardwareDeviceType) -> (DeviceFlavor, Seq<char>, Seq<char>, bool, Seq<char>, Seq<Seq<char>>) {
    (t.flavor, t.xml_tag@, t.name@, t.built_in, t.description@, t.xml_tag_aliases@.map_values(|a: String| a@))
}

/// A device type from no outside library, not deprecated, with no extra fields.
pub open spec fn plain_device_type(t: HardwareDeviceType) -> bool {
    !t.is_deprecated && !t.is_external_libraries && !t.is_on_bot_java && t.motor_extras is None
        && t.servo_extras is None
}

fn device_type(flavor: DeviceFlavor, xml_tag: &str, name: &str, built_in: bool, description: &str) -> (t:
    HardwareDeviceType)
    ensures
        device_type_entry(t) == (flavor, xml_tag@, name@, built_in, description@, Seq::<Seq<char>>::empty()),
        plain_device_type(t),
{
    let t = HardwareDeviceType {
        flavor,
        xml_tag: String::from_str(xml_tag),
        name: String::from_str(name),
        built_in,
        is_deprecated: false,
        is_external_libraries: false,
        is_on_bot_java: false,
        description: String::from_str(description),
        xml_tag_aliases: Vec::new(),
        motor_extras: None,
        servo_extras: None,
    };
    assert(t.xml_tag_aliases@.map_values(|a: String| a@) =~= Seq::<Seq<char>>::empty());
    t
}

fn device_type_with_aliases(
    flavor: DeviceFlavor,
    xml_tag: &str,
    name: &str,
    built_in: bool,
    description: &str,
    alias: &str,
) -> (t: HardwareDeviceType)
    ensures
        device_type_entry(t) == (flavor, xml_tag@, name@, built_in, description@, seq![alias@]),
        plain_device_type(t),
{
    let mut t = device_type(flavor, xml_tag, name, built_in, description);
    t.xml_tag_aliases.push(String::from_str(alias));
    assert(t.xml_tag_aliases@.map_values(|a: String| a@) =~= seq![alias@]);
    t
}

/// The device types the fake robot knows, as a robot controller lists them.
#[verifier::rlimit(40)]
fn fake_device_types() -> (types: Vec<HardwareDeviceType>)
    ensures
        types@.map_values(|t: HardwareDeviceType| device_type_entry(t)) == fake_device_type_entries(),
        forall|i: int| 0 <= i < types@.len() ==> plain_device_type(#[trigger] types@[i]),
{
    let mut types: Vec<HardwareDeviceType> = Vec::new();
    types.push(device_type(DeviceFlavor::AnalogSensor, "AnalogInput", "Analog Input", true, ""));
    types.push(device_type(DeviceFlavor::I2C, "AdafruitBNO055IMU", "Adafruit IMU", true, "an Adafruit IMU"));
    types.push(device_type(DeviceFlavor::BuiltIn, "LynxColorSensor", "REV Color/Range Sensor", false, ""));
    types.push(device_type(DeviceFlavor::I2C, "ModernRoboticsI2cRangeSensor", "MR Range Sensor", true, "a MR range sensor"));
    types.push(device_type(DeviceFlavor::BuiltIn, "Compass", "[Unknown]", false, ""));
    types.push(device_type(DeviceFlavor::BuiltIn, "PulseWidthDevice", "Pulse Width Device", false, ""));
    types.push(device_type(DeviceFlavor::DigitalIO, "DigitalDevice", "Digital Device", true, ""));
    types.push(device_type(DeviceFlavor::Motor, "NeveRest40Gearmotor", "NeveRest 40 Gearmotor", true, ""));
    types.push(device_type(DeviceFlavor::I2C, "MaxSonarI2CXL", "MaxSonar I2CXL", false, ""));
    types.push(device_type(DeviceFlavor::AnalogSensor, "OpticalDistanceSensor", "MR Optical Distance Sensor", true, "a Modern Robotics optical distance sensor"));
    types.push(device_type(DeviceFlavor::Servo, "RevSPARKMini", "REV SPARKmini Controller", true, "a REV SPARKmini Motor Controller"));
    types.push(device_type(DeviceFlavor::Motor, "NeveRest20Gearmotor", "NeveRest 20 Gearmotor", true, ""));
    types.push(device_type(DeviceFlavor::I2C, "LynxEmbeddedIMU", "REV internal IMU (BNO055)", true, "an embedded IMU"));
    types.push(device_type(DeviceFlavor::Motor, "NeveRest3.7v1Gearmotor", "NeveRest 3.7 v1 Gearmotor", true, ""));
    types.push(device_type(DeviceFlavor::I2C, "OctoQuadFTC", "OctoQuadFTC", false, ""));
    types.push(device_type(DeviceFlavor::I2C, "KauaiLabsNavxMicro", "navX Micro", true, "a navX Micro gyro"));
    types.push(device_type(DeviceFlavor::Servo, "ContinuousRotationServo", "Continuous Rotation Servo", true, ""));
    types.push(device_type(DeviceFlavor::BuiltIn, "IrSeekerV3", "MR IR Seeker v3", false, ""));
    types.push(device_type(DeviceFlavor::AnalogSensor, "ModernRoboticsAnalogTouchSensor", "MR Touch Sensor", true, "a Modern Robotics touch sensor"));
    types.push(device_type(DeviceFlavor::Motor, "goBILDA5201SeriesMotor", "GoBILDA 5201 series", true, ""));
    types.push(device_type(DeviceFlavor::Motor, "goBILDA5202SeriesMotor", "GoBILDA 5202/3/4 series", true, ""));
    types.push(device_type(DeviceFlavor::I2C, "RevColorSensorV3", "REV Color Sensor V3", true, "a REV Color Sensor V3"));
    types.push(device_type(DeviceFlavor::Motor, "TetrixMotor", "Tetrix Motor", true, ""));
    types.push(device_type(DeviceFlavor::I2C, "SparkFunOTOS", "SparkFun OTOS", false, "SparkFun Qwiic Optical Tracking Odometry Sensor"));
    types.push(device_type(DeviceFlavor::Motor, "Matrix12vMotor", "Matrix 12v Motor", true, ""));
    types.push(device_type(DeviceFlavor::BuiltIn, "Accelerometer", "[Unknown]", false, ""));
    types.push(device_type(DeviceFlavor::BuiltIn, "Webcam", "Webcam", false, ""));
    types.push(device_type(DeviceFlavor::I2C, "ControlHubImuBHI260AP", "REV internal IMU (BHI260AP)", true, "an embedded IMU"));
    types.push(device_type(DeviceFlavor::DigitalIO, "Led", "LED", true, "an LED"));
    types.push(device_type(DeviceFlavor::BuiltIn, "Gyro", "MR Gyro", false, ""));
    types.push(device_type(DeviceFlavor::BuiltIn, "IrSeeker", "[Unknown]", false, ""));
    types.push(device_type(DeviceFlavor::BuiltIn, "LynxModule", "Expansion Hub", false, ""));
    types.push(device_type(DeviceFlavor::BuiltIn, "AdafruitColorSensor", "Adafruit Color Sensor", false, ""));
    types.push(device_type(DeviceFlavor::Servo, "Servo", "Servo", true, ""));
    types.push(device_type(DeviceFlavor::I2C, "ModernRoboticsI2cCompassSensor", "MR Compass Sensor", true, "a MR compass sensor"));
    types.push(device_type(DeviceFlavor::I2C, "RevExternalImu", "REV 9-Axis IMU", true, "a REV 9-Axis IMU"));
    types.push(device_type(DeviceFlavor::Motor, "StudicaMaverick", "Studica Maverick", true, ""));
    types.push(device_type(DeviceFlavor::I2C, "AndyMarkIMU", "AndyMark 9-Axis IMU", true, "AndyMark External IMU"));
    types.push(device_type(DeviceFlavor::I2C, "AndyMarkTOF", "AndyMark TOF Lidar", true, "AndyMark 2m TOF Lidar"));
    types.push(device_type(DeviceFlavor::BuiltIn, "Robot", "[Unknown]", false, ""));
    types.push(device_type(DeviceFlavor::Servo, "ServoFullRange", "Full Range Servo", true, ""));
    types.push(device_type(DeviceFlavor::Motor, "RevRoboticsUltraplanetaryHDHexMotor", "REV Robotics UltraPlanetary HD Hex Motor", true, ""));
    types.push(device_type(DeviceFlavor::I2C, "QWIIC_LED_STICK", "SparkFun QWIIC LED Stick", false, "a SparkFun QWIIC LED Stick"));
    types.push(device_type(DeviceFlavor::BuiltIn, "<unknown>", "[Unknown]", false, ""));
    types.push(device_type(DeviceFlavor::BuiltIn, "LightSensor", "[Unknown]", false, ""));
    types.push(device_type(DeviceFlavor::BuiltIn, "ColorSensor", "MR Color Sensor", false, ""));
    types.push(device_type_with_aliases(DeviceFlavor::Motor, "RevRobotics40HDHexMotor", "REV Robotics 40:1 HD Hex Motor", true, "", "RevRoboticsHDHexMotor"));
    types.push(device_type(DeviceFlavor::Servo, "RevBlinkinLedDriver", "REV Blinkin LED Driver", true, "a REV Blinkin LED Driver"));
    types.push(device_type(DeviceFlavor::Motor, "RevRoboticsCoreHexMotor", "REV Robotics Core Hex Motor", true, ""));
    types.push(device_type(DeviceFlavor::I2C, "goBILDAPinpoint", "goBILDA® Pinpoint Odometry Computer", false, "goBILDA® Pinpoint Odometry Computer (IMU Sensor Fusion for 2 Wheel Odometry)"));
    types.push(device_type(DeviceFlavor::I2C, "REV_VL53L0X_RANGE_SENSOR", "REV 2M Distance Sensor", true, "REV 2M Distance Sensor"));
    types.push(device_type(DeviceFlavor::Motor, "Motor", "Unspecified Motor", true, ""));
    types.push(device_type(DeviceFlavor::BuiltIn, "Nothing", "Nothing", false, ""));
    types.push(device_type(DeviceFlavor::DigitalIO, "RevTouchSensor", "REV Touch Sensor", true, "a REV touch sensor"));
    types.push(device_type(DeviceFlavor::BuiltIn, "LynxUsbDevice", "Expansion Hub Portal", false, ""));
    types.push(device_type(DeviceFlavor::I2C, "AndyMarkColor", "AndyMark Proximity & Color Sensor", false, "AndyMark Proximity & Color Sensor"));
    types.push(device_type(DeviceFlavor::I2C, "HuskyLens", "HuskyLens", false, "HuskyLens Vision Sensor"));
    types.push(device_type(DeviceFlavor::BuiltIn, "ServoHub", "[Unknown]", false, ""));
    types.push(device_type(DeviceFlavor::BuiltIn, "UltrasonicSensor", "[Unknown]", false, ""));
    types.push(device_type(DeviceFlavor::BuiltIn, "EthernetDevice", "[Unknown]", false, ""));
    types.push(device_type(DeviceFlavor::Motor, "NeveRest60Gearmotor", "NeveRest 60 Gearmotor", true, ""));
    types.push(device_type(DeviceFlavor::Motor, "RevRobotics20HDHexMotor", "REV Robotics 20:1 HD Hex Motor", true, ""));
    assert(types@.map_values(|t: HardwareDeviceType| device_type_entry(t)) =~= fake_device_type_entries());
    types
}

/// The opmodes of the fake robot.
pub open spec fn fake_opmodes() -> Seq<OpModeDataView> {
    seq![
        fake_opmode(OPMODE_STOP@, DEFAULT_OPMODE_GROUP@, OpModeFlavor::System),
        fake_opmode("Robot"@, DEFAULT_OPMODE_GROUP@, OpModeFlavor::Teleop),
        fake_opmode("CoolerRobot"@, DEFAULT_OPMODE_GROUP@, OpModeFlavor::Teleop),
        fake_opmode("Autonomous"@, "jože"@, OpModeFlavor::Autonomous),
        fake_opmode("CoolerAutonomous"@, "jože"@, OpModeFlavor::Autonomous),
        fake_opmode("Bautonomous"@, DEFAULT_OPMODE_GROUP@, OpModeFlavor::Autonomous),
    ]
}

/// An opmode of the fake robot: no source and no display name.
pub open spec fn fake_opmode(name: Seq<char>, group: Seq<char>, flavor: OpModeFlavor) -> OpModeDataView {
    OpModeDataView { flavor, group, name, source: None, system_opmode_display_name: None }
}

/// The telemetry lines of the fake robot.
pub open spec fn fake_telemetry_lines() -> Seq<Seq<char>> {
    seq![
        "leftY : 0"@,
        "leftX : 0"@,
        "rightX : 0"@,
        "left front : -667"@,
        "left back : 0"@,
        "right front : -737"@,
        "right back : 310"@,
        "rokaLeft : -67"@,
        "rokaRight : 67"@,
        "wanted location before : 0"@,
        "power to set : 0"@,
        "left position : 982"@,
        "lifterLeft : 982"@,
        "lifterRight : 983"@,
        "wantedlocation : 984.428"@,
        "L:  : 0"@,
        "D:  : -0"@,
        "claw wanted position : 1"@,
        "curent position : 1"@,
    ]
}

impl Robot {
    /// Creates a new real robot status, that has no info in it yet
    pub fn new_empty() -> (r: Robot)
        ensures
            r.active_opmode_state is None,
            r.active_opmode@ == OPMODE_STOP@,
            r.opmode_list is None,
            r.active_configuration is None,
            r.configuration_types is None,
            r.battery_voltage is None,
            r.warning_message is None,
            r.error_message is None,
            r.telemetry_list@.len() == 0,
    {
        Robot {
            active_opmode_state: None,
            active_opmode: String::from_str(OPMODE_STOP),
            opmode_list: None,
            active_configuration: None,
            battery_voltage: None,
            last_battery_update: instant_now(),
            warning_message: None,
            error_message: None,
            telemetry_list: Vec::new(),
            configuration_types: None,
        }
    }

    /// Creates a new fake robot status, to test the renderers: a running opmode, six
    /// opmodes in two groups, a warning, a battery of 12.3 V, nineteen telemetry lines and
    /// the device types of a robot controller.
    pub fn new_fake() -> (r: Robot)
        ensures
            r.active_opmode_state == Some(RobotOpmodeState::Running),
            r.active_opmode@ == "Bautonomous"@,
            r.opmode_list matches Some(l) && opmodes_view(l@) == fake_opmodes(),
            r.active_configuration is None,
            r.error_message is None,
            opt_view(r.warning_message) == Some("Test warning message"@),
            r.battery_voltage == Some(FAKE_BATTERY_VOLTAGE_BITS),
            r.telemetry_list@.map_values(|l: String| l@) == fake_telemetry_lines(),
            r.configuration_types matches Some(t) && t@.map_values(
                |d: HardwareDeviceType| device_type_entry(d),
            ) == fake_device_type_entries() && forall|i: int|
                0 <= i < t@.len() ==> plain_device_type(#[trigger] t@[i]),
    {
        let mut opmodes: Vec<OpModeData> = Vec::new();
        opmodes.push(opmode(OPMODE_STOP, DEFAULT_OPMODE_GROUP, OpModeFlavor::System));
        opmodes.push(opmode("Robot", DEFAULT_OPMODE_GROUP, OpModeFlavor::Teleop));
        opmodes.push(opmode("CoolerRobot", DEFAULT_OPMODE_GROUP, OpModeFlavor::Teleop));
        opmodes.push(opmode("Autonomous", "jože", OpModeFlavor::Autonomous));
        opmodes.push(opmode("CoolerAutonomous", "jože", OpModeFlavor::Autonomous));
        opmodes.push(opmode("Bautonomous", DEFAULT_OPMODE_GROUP, OpModeFlavor::Autonomous));
        let mut lines: Vec<String> = Vec::new();
        lines.push(String::from_str("leftY : 0"));
        lines.push(String::from_str("leftX : 0"));
        lines.push(String::from_str("rightX : 0"));
        lines.push(String::from_str("left front : -667"));
        lines.push(String::from_str("left back : 0"));
        lines.push(String::from_str("right front : -737"));
        lines.push(String::from_str("right back : 310"));
        lines.push(String::from_str("rokaLeft : -67"));
        lines.push(String::from_str("rokaRight : 67"));
        lines.push(String::from_str("wanted location before : 0"));
        lines.push(String::from_str("power to set : 0"));
        lines.push(String::from_str("left position : 982"));
        lines.push(String::from_str("lifterLeft : 982"));
        lines.push(String::from_str("lifterRight : 983"));
        lines.push(String::from_str("wantedlocation : 984.428"));
        lines.push(String::from_str("L:  : 0"));
        lines.push(String::from_str("D:  : -0"));
        lines.push(String::from_str("claw wanted position : 1"));
        lines.push(String::from_str("curent position : 1"));
        assert(opmodes_view(opmodes@) =~= fake_opmodes());
        assert(lines@.map_values(|l: String| l@) =~= fake_telemetry_lines());
        Robot {
            active_opmode_state: Some(RobotOpmodeState::Running),
            opmode_list: Some(opmodes),
            active_opmode: String::from_str("Bautonomous"),
            active_configuration: None,
            error_message: None,
            warning_message: Some(String::from_str("Test warning message")),
            battery_voltage: Some(FAKE_BATTERY_VOLTAGE_BITS),
            last_battery_update: instant_now(),
            telemetry_list: lines,
            configuration_types: Some(fake_device_types()),
        }
    }

    /// Applies what a received command says of the robot: a new opmode state, or an
    /// opmode that was initialized or started (which becomes the active one). Other
    /// effects do not concern the robot's state and leave it unchanged.
    pub fn apply_command_effect(&mut self, effect: CommandEffect)
        ensures
            final(self).opmode_list == old(self).opmode_list,
            final(self).battery_voltage == old(self).battery_voltage,
            final(self).warning_message == old(self).warning_message,
            final(self).error_message == old(self).error_message,
            final(self).telemetry_list == old(self).telemetry_list,
            final(self).active_configuration == old(self).active_configuration,
            final(self).configuration_types == old(self).configuration_types,
            final(self).last_battery_update == old(self).last_battery_update,
            match effect@ {
                CommandEffectView::SetOpModeState(s) => final(self).active_opmode_state == Some(s)
                    && final(self).active_opmode == old(self).active_opmode,
                CommandEffectView::OpModeInitialized(n) => final(self).active_opmode@ == n
                    && final(self).active_opmode_state == Some(RobotOpmodeState::Initialized),
                CommandEffectView::OpModeRunning(n) => final(self).active_opmode@ == n
                    && final(self).active_opmode_state == Some(RobotOpmodeState::Running),
                _ => final(self).active_opmode == old(self).active_opmode
                    && final(self).active_opmode_state == old(self).active_opmode_state,
            },
    {
        match effect {
            CommandEffect::SetOpModeState(s) => {
                self.active_opmode_state = Some(s);
            },
            CommandEffect::OpModeInitialized(n) => {
                self.active_opmode = n;
                self.active_opmode_state = Some(RobotOpmodeState::Initialized);
            },
            CommandEffect::OpModeRunning(n) => {
                self.active_opmode = n;
                self.active_opmode_state = Some(RobotOpmodeState::Running);
            },
            _ => {},
        }
    }

    /// Applies the messages and telemetry lines a telemetry packet sets ([TelemetryPlan]);
    /// its battery values are read as numbers by the caller, which records them with
    /// [Robot::record_battery_voltage].
    pub fn apply_telemetry_plan(&mut self, plan: TelemetryPlan)
        ensures
            final(self).active_opmode == old(self).active_opmode,
            final(self).active_opmode_state == old(self).active_opmode_state,
            final(self).opmode_list == old(self).opmode_list,
            final(self).battery_voltage == old(self).battery_voltage,
            final(self).last_battery_update == old(self).last_battery_update,
            final(self).active_configuration == old(self).active_configuration,
            final(self).configuration_types == old(self).configuration_types,
            opt_view(final(self).warning_message) == match plan@.warning_message {
                Some(w) => w,
                None => opt_view(old(self).warning_message),
            },
            opt_view(final(self).error_message) == match plan@.error_message {
                Some(e) => e,
                None => opt_view(old(self).error_message),
            },
            final(self).telemetry_list@.map_values(|s: String| s@) == match plan@.telemetry_list {
                Some(l) => l,
                None => old(self).telemetry_list@.map_values(|s: String| s@),
            },
    {
        if let Some(w) = plan.warning_message {
            self.warning_message = w;
        }
        if let Some(e) = plan.error_message {
            self.error_message = e;
        }
        if let Some(l) = plan.telemetry_list {
            self.telemetry_list = l;
        }
    }

    /// Records a battery voltage (the bit pattern of an `f32`) read at `now`.
    pub fn record_battery_voltage(&mut self, voltage: u32, now: Instant)
        ensures
            final(self).battery_voltage == Some(voltage),
            final(self).last_battery_update == now,
            final(self).active_opmode == old(self).active_opmode,
            final(self).active_opmode_state == old(self).active_opmode_state,
            final(self).warning_message == old(self).warning_message,
            final(self).error_message == old(self).error_message,
            final(self).telemetry_list == old(self).telemetry_list,
            final(self).opmode_list == old(self).opmode_list,
            final(self).active_configuration == old(self).active_configuration,
            final(self).configuration_types == old(self).configuration_types,
    {
        self.battery_voltage = Some(voltage);
        self.last_battery_update = now;
    }
}

/// What separates the key of a telemetry line from its value.
pub const TELEMETRY_KEY_SEPARATOR: &'static str = " : ";

/// How a telemetry line is shown: a line holding `" : "` as a key (the trimmed text
/// before the first separator) and a value (the trimmed text after it, up to the next
/// separator if there is one); any other line as it is (`None`).
pub open spec fn spec_telemetry_line_parts(line: Seq<char>) -> Option<(Seq<char>, Seq<char>)> {
    let sep = TELEMETRY_KEY_SEPARATOR@;
    match find_from(line, sep, 0) {
        None => None,
        Some(i) => {
            let rest = line.skip((i + sep.len()) as int);
            let value = match find_from(rest, sep, 0) {
                None => rest,
                Some(j) => rest.take(j as int),
            };
            Some((spec_trim(line.take(i as int)), spec_trim(value)))
        },
    }
}

/// The occurrence found by a search lies within the text.
proof fn lemma_find_from_within(s: Seq<char>, t: Seq<char>, i: nat)
    ensures
        find_from(s, t, i) matches Some(j) ==> i <= j && j + t.len() <= s.len(),
    decreases s.len() + 1 - i,
{
    if i + t.len() <= s.len() && s.subrange(i as int, (i + t.len()) as int) != t {
        lemma_find_from_within(s, t, i + 1);
    }
}

/// Splits a telemetry line into the key and value it is shown as, if it has a key.
pub fn telemetry_line_parts(line: &str) -> (r: Option<(String, String)>)
    ensures
        match r {
            Some((k, v)) => spec_telemetry_line_parts(line@) == Some((k@, v@)),
            None => spec_telemetry_line_parts(line@) is None,
        },
{
    let s = chars_of(line);
    let sep = chars_of(TELEMETRY_KEY_SEPARATOR);
    let i = match find_chars(&s, &sep, 0) {
        Some(i) => i,
        None => return None,
    };
    proof {
        assert(find_from(s@, sep@, 0) == Some(i as nat));
        lemma_find_from_within(s@, sep@, 0);
    }
    let key = trim(&chars_between(&s, 0, i));
    let n = s.len();
    let rest = chars_between(&s, i + sep.len(), n);
    assert(rest@ =~= line@.skip((i + sep@.len()) as int));
    let value = match find_chars(&rest, &sep, 0) {
        Some(j) => {
            proof {
                assert(find_from(rest@, sep@, 0) == Some(j as nat));
                lemma_find_from_within(rest@, sep@, 0);
            }
            let v = chars_between(&rest, 0, j);
            assert(v@ =~= rest@.take(j as int));
            trim(&v)
        },
        None => trim(&rest),
    };
    assert(line@.subrange(0, i as int) =~= line@.take(i as int));
    Some((string_from_chars(&key), string_from_chars(&value)))
}

/// How the state of the active opmode is shown: not started and initialized alike as
/// initialized, stopped and emergency stopped alike as stopped.
#[derive(Debug, Clone, Copy, PartialEq, Eq, Structural)]
pub enum OpModeStatusShown {
    Initialized,
    Running,
    Stopped,
    Unknown,
}

/// The status shown for an opmode state.
pub open spec fn spec_status_shown(state: RobotOpmodeState) -> OpModeStatusShown {
    match state {
        RobotOpmodeState::Initialized | RobotOpmodeState::NotStarted => OpModeStatusShown::Initialized,
        RobotOpmodeState::Running => OpModeStatusShown::Running,
        RobotOpmodeState::Stopped | RobotOpmodeState::EmergencyStopped => OpModeStatusShown::Stopped,
        RobotOpmodeState::Unknown => OpModeStatusShown::Unknown,
    }
}

/// The text of a shown status.
pub open spec fn spec_status_label(s: OpModeStatusShown) -> Seq<char> {
    match s {
        OpModeStatusShown::Initialized => "Initialized"@,
        OpModeStatusShown::Running => "Running"@,
        OpModeStatusShown::Stopped => "Stopped"@,
        OpModeStatusShown::Unknown => "Unknown"@,
    }
}

/// The status shown for an opmode state.
pub fn status_shown(state: RobotOpmodeState) -> (s: OpModeStatusShown)
    ensures
        s == spec_status_shown(state),
{
    match state {
        RobotOpmodeState::Initialized | RobotOpmodeState::NotStarted => OpModeStatusShown::Initialized,
        RobotOpmodeState::Running => OpModeStatusShown::Running,
        RobotOpmodeState::Stopped | RobotOpmodeState::EmergencyStopped => OpModeStatusShown::Stopped,
        RobotOpmodeState::Unknown => OpModeStatusShown::Unknown,
    }
}

impl OpModeStatusShown {
    /// The text the status is shown with.
    pub fn label(&self) -> (t: &'static str)
        ensures
            t@ == spec_status_label(*self),
    {
        match self {
            OpModeStatusShown::Initialized => "Initialized",
            OpModeStatusShown::Running => "Running",
            OpModeStatusShown::Stopped => "Stopped",
            OpModeStatusShown::Unknown => "Unknown",
        }
    }
}

} // verus!
