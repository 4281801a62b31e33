use ftctui::ftc_proto::hardware::device::{DeviceFlavor, HardwareDeviceType};
use ftctui::ftc_proto::hardware::document::{
    try_parse_xml_document, try_parse_xml_document_checked, write_xml_document, xml_document_items,
};
use ftctui::ftc_proto::hardware::lynx::{LynxModule, LynxUSBDevice, ServoHub};
use ftctui::ftc_proto::hardware::robot::{
    ConfigurationController, ConfigurationDevice, EthernetOverUsbConfiguration, Robot, Webcam,
};
use ftctui::ftc_proto::hardware::{FromXMLTag, MakeOwnedXMLTagAttributes, XmlAttribute, XmlItem};

fn device_type(flavor: DeviceFlavor, tag: &str, aliases: &[&str]) -> HardwareDeviceType {
    HardwareDeviceType {
        flavor,
        xml_tag: String::from(tag),
        name: String::from(tag),
        built_in: true,
        is_deprecated: false,
        is_external_libraries: false,
        is_on_bot_java: false,
        description: String::new(),
        xml_tag_aliases: aliases.iter().map(|a| String::from(*a)).collect(),
        motor_extras: None,
        servo_extras: None,
    }
}

fn types() -> Vec<HardwareDeviceType> {
    vec![
        device_type(DeviceFlavor::Motor, "RevRobotics40HDHexMotor", &["RevRoboticsHDHexMotor"]),
        device_type(DeviceFlavor::Servo, "Servo", &[]),
        device_type(DeviceFlavor::I2C, "RevColorSensorV3", &[]),
        device_type(DeviceFlavor::DigitalIO, "RevTouchSensor", &[]),
        device_type(DeviceFlavor::BuiltIn, "Webcam", &[]),
    ]
}

fn device(tag: &str, name: &str, port: Option<u32>, bus: Option<u32>, flavor: DeviceFlavor) -> ConfigurationDevice {
    ConfigurationDevice {
        xml_tag_name: String::from(tag),
        name: Some(String::from(name)),
        port,
        bus,
        device_type: flavor,
    }
}

fn controller(tag: &str, name: &str, port: Option<u32>, serial: Option<&str>) -> ConfigurationController {
    ConfigurationController {
        device_meta: device(tag, name, port, None, DeviceFlavor::BuiltIn),
        serial_number: serial.map(String::from),
    }
}

const DOCUMENT: &str = r#"<?xml version='1.0' encoding='UTF-8' standalone='yes' ?>
<Robot type="FirstInspires-FTC">
    <LynxUsbDevice name="Control Hub Portal" serialNumber="(embedded)" parentModuleAddress="173">
        <LynxModule name="Control Hub" port="173">
            <RevRoboticsHDHexMotor name="left" port="0" />
            <Servo name="claw" port="1" />
            <RevColorSensorV3 name="color" port="0" bus="1" />
            <Mystery name="x" port="3" />
            <RevTouchSensor name="touch" port="zero" />
        </LynxModule>
        <ServoHub name="Servo Hub" port="2">
            <Servo name="s1" port="0" />
            <RevRoboticsHDHexMotor name="not a servo" port="1" />
        </ServoHub>
    </LynxUsbDevice>
    <Webcam name="Webcam 1" serialNumber="ABC" autoOpen="true" />
    <EthernetOverUsbConfiguration name="eth" ipAddress="192.168.1.2" />
</Robot>
"#;

fn expected_robot() -> Robot {
    Robot {
        robot_type: Some(String::from("FirstInspires-FTC")),
        lynx_usb_device: Some(LynxUSBDevice {
            controller_meta: controller("LynxUsbDevice", "Control Hub Portal", None, Some("(embedded)")),
            parent_module_address: 173,
            lynx_modules: vec![LynxModule {
                controller_meta: controller("LynxModule", "Control Hub", Some(173), None),
                servos: vec![device("Servo", "claw", Some(1), None, DeviceFlavor::Servo)],
                motors: vec![device("RevRoboticsHDHexMotor", "left", Some(0), None, DeviceFlavor::Motor)],
                i2c_devices: vec![device("RevColorSensorV3", "color", Some(0), Some(1), DeviceFlavor::I2C)],
                digital_devices: vec![],
                pwm_outputs: vec![],
                analog_inputs: vec![],
            }],
            servo_hubs: vec![ServoHub {
                controller_meta: controller("ServoHub", "Servo Hub", Some(2), None),
                servos: vec![device("Servo", "s1", Some(0), None, DeviceFlavor::Servo)],
            }],
        }),
        webcam: Some(Webcam {
            controller_meta: controller("Webcam", "Webcam 1", None, Some("ABC")),
            auto_open: true,
        }),
        ethernet_over_usb_device: Some(EthernetOverUsbConfiguration {
            controller_meta: controller("EthernetOverUsbConfiguration", "eth", None, None),
            ip_address: String::from("192.168.1.2"),
        }),
    }
}

#[test]
fn parses_a_configuration() {
    let robot = try_parse_xml_document(String::from(DOCUMENT), &types()).unwrap();
    assert_eq!(robot, expected_robot());
}

#[test]
fn writing_then_reading_gives_the_configuration_back() {
    let robot = expected_robot();
    let text = write_xml_document(&robot).unwrap();
    assert!(text.starts_with("<?xml version=\"1.0\" encoding=\"UTF-8\" standalone=\"yes\"?>"));
    assert!(text.contains("<LynxUsbDevice name=\"Control Hub Portal\" serialNumber=\"(embedded)\" parentModuleAddress=\"173\">"));
    assert!(text.contains("<RevColorSensorV3 name=\"color\" port=\"0\" bus=\"1\" />"));
    assert!(text.contains("<Webcam name=\"Webcam 1\" serialNumber=\"ABC\" autoOpen=\"true\" />"));
    let back = try_parse_xml_document(text, &types()).unwrap();
    assert_eq!(back, robot);
}

#[test]
fn written_tags_in_order() {
    let items = xml_document_items(&expected_robot());
    let names: Vec<String> = items
        .iter()
        .map(|i| match i {
            XmlItem::Declaration { .. } => String::from("?"),
            XmlItem::Start { name, .. } => format!("+{}", name),
            XmlItem::End { name } => format!("-{}", name),
            XmlItem::Other => String::from("."),
        })
        .collect();
    assert_eq!(
        names,
        vec![
            "?", "+Robot", "+LynxUsbDevice", "+LynxModule", "+Servo", "-Servo",
            "+RevRoboticsHDHexMotor", "-RevRoboticsHDHexMotor", "+RevColorSensorV3",
            "-RevColorSensorV3", "-LynxModule", "+ServoHub", "+Servo", "-Servo", "-ServoHub",
            "-LynxUsbDevice", "+Webcam", "-Webcam", "+EthernetOverUsbConfiguration",
            "-EthernetOverUsbConfiguration", "-Robot",
        ]
    );
}

#[test]
fn a_usb_device_without_its_address_rejects_the_document() {
    let doc = r#"<Robot><LynxUsbDevice name="p"></LynxUsbDevice></Robot>"#;
    assert_eq!(try_parse_xml_document(String::from(doc), &types()), None);
    let doc = r#"<Robot><LynxUsbDevice parentModuleAddress="-1"></LynxUsbDevice></Robot>"#;
    assert_eq!(try_parse_xml_document(String::from(doc), &types()), None);
}

#[test]
fn a_hub_with_a_bad_port_rejects_the_document() {
    let doc = r#"<Robot><LynxUsbDevice parentModuleAddress="1"><LynxModule port="x"/></LynxUsbDevice></Robot>"#;
    assert_eq!(try_parse_xml_document(String::from(doc), &types()), None);
}

#[test]
fn malformed_text_is_rejected() {
    let doc = r#"<Robot><LynxUsbDevice parentModuleAddress="1"></Robot>"#;
    assert_eq!(try_parse_xml_document(String::from(doc), &types()), None);
    assert_eq!(try_parse_xml_document(String::from("not xml at all <"), &types()), None);
}

#[test]
fn a_bad_webcam_is_ignored() {
    let doc = r#"<Robot><Webcam autoOpen="yes"/></Robot>"#;
    let robot = try_parse_xml_document(String::from(doc), &types()).unwrap();
    assert_eq!(robot.webcam, None);
    assert_eq!(robot.robot_type, None);
}

#[test]
fn a_hub_before_any_usb_device_cannot_be_read() {
    let doc = r#"<Robot><LynxModule port="1"/></Robot>"#;
    assert_eq!(try_parse_xml_document_checked(String::from(doc), &types()), None);
    assert_eq!(try_parse_xml_document(String::from(doc), &types()), None);
    assert_eq!(
        try_parse_xml_document_checked(String::from(DOCUMENT), &types()),
        Some(Some(expected_robot()))
    );
}

#[test]
fn a_robot_without_usb_device_cannot_be_written() {
    // Writing needs a USB device; a document with only a robot tag reads as an empty robot.
    let robot = try_parse_xml_document(String::from("<Robot/>"), &types()).unwrap();
    assert!(robot.lynx_usb_device.is_none());
}

#[test]
fn device_tags() {
    let tag = XmlItem::Start {
        name: String::from("RevRoboticsHDHexMotor"),
        attributes: vec![
            XmlAttribute { name: String::from("port"), value: String::from("2") },
            XmlAttribute { name: String::from("port"), value: String::from("3") },
        ],
    };
    let d = ConfigurationDevice::from_xml_tag(&tag, &types()).unwrap();
    assert_eq!(d.port, Some(3));
    assert_eq!(d.device_type, DeviceFlavor::Motor);
    assert_eq!(d.name, None);
    let end = XmlItem::End { name: String::from("Servo") };
    assert_eq!(ConfigurationDevice::from_xml_tag(&end, &types()), None);
}

#[test]
fn controller_tags_and_attributes() {
    let tag = XmlItem::Start {
        name: String::from("Anything"),
        attributes: vec![
            XmlAttribute { name: String::from("serialNumber"), value: String::from("S") },
            XmlAttribute { name: String::from("bus"), value: String::from("4") },
        ],
    };
    let c = ConfigurationController::from_xml_tag(&tag).unwrap();
    assert_eq!(c, ConfigurationController {
        device_meta: ConfigurationDevice {
            xml_tag_name: String::from("Anything"),
            name: None,
            port: None,
            bus: Some(4),
            device_type: DeviceFlavor::BuiltIn,
        },
        serial_number: Some(String::from("S")),
    });
    let attrs = c.make_owned_attributes();
    assert_eq!(attrs, vec![
        XmlAttribute { name: String::from("bus"), value: String::from("4") },
        XmlAttribute { name: String::from("serialNumber"), value: String::from("S") },
    ]);
}

#[test]
fn all_devices_in_order() {
    let mut m = expected_robot().lynx_usb_device.unwrap().lynx_modules.remove(0);
    let all = m.all_devices();
    let names: Vec<&str> = all.iter().map(|d| d.name.as_deref().unwrap()).collect();
    assert_eq!(names, vec!["claw", "left", "color"]);
    assert!(m.servos.is_empty() && m.motors.is_empty() && m.i2c_devices.is_empty());
}

#[test]
fn the_sample_control_hub_document_reads_and_writes() {
    let doc = r#"<?xml version='1.0' encoding='UTF-8' standalone='yes' ?>
<Robot type="FirstInspires-FTC">
    <LynxUsbDevice name="Control Hub Portal" serialNumber="(embedded)" parentModuleAddress="173">
        <LynxModule name="Control Hub" port="173">
            <RevRoboticsCoreHexMotor name="backSideways" port="0" />
            <RevRoboticsCoreHexMotor name="leftForward" port="1" />
            <RevRoboticsCoreHexMotor name="frontSideways" port="2" />
            <RevRoboticsCoreHexMotor name="rightForward" port="3" />
            <ControlHubImuBHI260AP name="imu" port="0" bus="0" />
        </LynxModule>
    </LynxUsbDevice>
</Robot>"#;
    let robot = try_parse_xml_document(String::from(doc), &Vec::new()).unwrap();
    let text = write_xml_document(&robot).unwrap();
    assert_eq!(try_parse_xml_document(text, &Vec::new()), Some(robot));
}

#[test]
fn writing_a_robot_with_a_usb_device_succeeds() {
    assert!(write_xml_document(&expected_robot()).is_some());
}
