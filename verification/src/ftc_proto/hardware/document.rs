//! Parsing and writing of the XML document.
//!
//! Reading walks the document's tags in order. A `Robot` tag starts the robot over; a
//! `LynxUsbDevice`, `Webcam` or `EthernetOverUsbConfiguration` tag sets that part of it; a
//! `LynxModule` or `ServoHub` tag adds a hub to the USB device and opens it, until its
//! closing tag; any other tag inside an open hub is a device, sorted into the hub's lists
//! by the flavor of its device type.

use vstd::prelude::*;

use crate::ftc_proto::hardware::device::{
    device_types_view, DeviceFlavor, HardwareDeviceType, HardwareDeviceTypeView,
};
use crate::ftc_proto::hardware::lynx::{
    hubs_view, modules_view, opt_hub_view, opt_module_view, opt_usb_view, spec_all_devices,
    spec_hub_from_tag, spec_module_from_tag, spec_usb_device_from_tag, usb_device_attributes,
    LynxModule, LynxModuleView, LynxUSBDevice, LynxUSBDeviceView, ServoHub, ServoHubView,
};
use crate::ftc_proto::hardware::robot::{
    controller_attributes, device_attributes, devices_view, ethernet_attributes,
    opt_ethernet_view, opt_robot_view, opt_webcam_view, robot_attributes, spec_device_from_tag,
    spec_ethernet_from_tag, spec_robot_from_tag, spec_webcam_from_tag, webcam_attributes,
    ConfigurationDevice, ConfigurationDeviceView, EthernetOverUsbConfiguration,
    EthernetOverUsbConfigurationView, Robot, RobotView, Webcam, WebcamView,
};
use crate::ftc_proto::hardware::xml_io::{
    emit_nesting, emit_xml_items, emits_cleanly, read_xml_items, xml_emitter_output,
    xml_reader_items,
};
use crate::ftc_proto::hardware::{
    attributes_view, items_view, FromXMLTag, MakeOwnedXMLTagAttributes, MakeXMLTag, XmlAttributeView,
    XmlItem, XmlItemView,
};
use crate::ftc_proto::traits::string_from_utf8;
use crate::text::{opt_chars, str_eq};
use vstd::utf8::{decode_utf8, valid_utf8};

verus! {

// ---------------------------------------------------------------------------------------
// Reading
// ---------------------------------------------------------------------------------------

/// Where a reading of the document stands between two tags.
pub struct DocumentParse {
    pub robot: Robot,
    /// How many `LynxModule` tags have been read
    pub num_lynx_modules: usize,
    /// How many `ServoHub` tags have been read
    pub num_servo_hubs: usize,
    /// The module whose tag is open, by the number of modules read before it
    pub in_lynx_module: Option<usize>,
    /// The servo hub whose tag is open, by the number of hubs read before it
    pub in_servo_hub: Option<usize>,
}

/// The mathematical value of a [DocumentParse].
pub struct DocumentParseView {
    pub robot: RobotView,
    pub num_lynx_modules: nat,
    pub num_servo_hubs: nat,
    pub in_lynx_module: Option<nat>,
    pub in_servo_hub: Option<nat>,
}

/// The view of an optional index.
pub open spec fn opt_index_view(o: Option<usize>) -> Option<nat> {
    match o {
        Some(i) => Some(i as nat),
        None => None,
    }
}

impl View for DocumentParse {
    type V = DocumentParseView;

    open spec fn view(&self) -> DocumentParseView {
        DocumentParseView {
            robot: self.robot@,
            num_lynx_modules: self.num_lynx_modules as nat,
            num_servo_hubs: self.num_servo_hubs as nat,
            in_lynx_module: opt_index_view(self.in_lynx_module),
            in_servo_hub: opt_index_view(self.in_servo_hub),
        }
    }
}

/// What reading one tag does: the reading goes on from a new state, the document is
/// rejected, or the reading cannot go on (the tag needs a USB device or a hub that is not
/// there).
pub enum ParseStep {
    Continue(DocumentParseView),
    Reject,
    Stuck,
}

/// The state before any tag: an empty robot, no hub read or open.
pub open spec fn initial_parse() -> DocumentParseView {
    DocumentParseView {
        robot: RobotView {
            robot_type: None,
            lynx_usb_device: None,
            webcam: None,
            ethernet_over_usb_device: None,
        },
        num_lynx_modules: 0,
        num_servo_hubs: 0,
        in_lynx_module: None,
        in_servo_hub: None,
    }
}

/// The state with the robot replaced.
pub open spec fn with_robot(s: DocumentParseView, r: RobotView) -> DocumentParseView {
    DocumentParseView { robot: r, ..s }
}

/// The state with the USB device replaced.
pub open spec fn with_usb(s: DocumentParseView, u: LynxUSBDeviceView) -> DocumentParseView {
    with_robot(s, RobotView { lynx_usb_device: Some(u), ..s.robot })
}

/// The list of a module that a device of the given flavor goes into, if any: motors,
/// servos, I2C devices, analog inputs (analog sensors), digital devices, PWM outputs
/// (analog outputs).
pub open spec fn module_takes(flavor: DeviceFlavor) -> bool {
    match flavor {
        DeviceFlavor::Motor | DeviceFlavor::Servo | DeviceFlavor::I2C
        | DeviceFlavor::AnalogSensor | DeviceFlavor::DigitalIO
        | DeviceFlavor::AnalogOutput => true,
        _ => false,
    }
}

/// A module with a device added to the list its flavor belongs in.
pub open spec fn module_with_device(m: LynxModuleView, d: ConfigurationDeviceView) -> LynxModuleView {
    match d.device_type {
        DeviceFlavor::Motor => LynxModuleView { motors: m.motors.push(d), ..m },
        DeviceFlavor::Servo => LynxModuleView { servos: m.servos.push(d), ..m },
        DeviceFlavor::I2C => LynxModuleView { i2c_devices: m.i2c_devices.push(d), ..m },
        DeviceFlavor::AnalogSensor => LynxModuleView { analog_inputs: m.analog_inputs.push(d), ..m },
        DeviceFlavor::DigitalIO => LynxModuleView {
            digital_devices: m.digital_devices.push(d),
            ..m
        },
        DeviceFlavor::AnalogOutput => LynxModuleView { pwm_outputs: m.pwm_outputs.push(d), ..m },
        _ => m,
    }
}

/// Reading a device tag inside an open hub: inside a servo hub only servos are kept, inside
/// a module the flavors that [module_takes]; a tag that is no known device is skipped.
pub open spec fn device_step(
    s: DocumentParseView,
    item: XmlItemView,
    types: Seq<HardwareDeviceTypeView>,
) -> ParseStep {
    match s.in_servo_hub {
        Some(k) => match spec_device_from_tag(item, types) {
            Some(d) => if d.device_type == DeviceFlavor::Servo {
                match s.robot.lynx_usb_device {
                    Some(u) => if k < u.servo_hubs.len() {
                        let h = u.servo_hubs[k as int];
                        ParseStep::Continue(
                            with_usb(
                                s,
                                LynxUSBDeviceView {
                                    servo_hubs: u.servo_hubs.update(
                                        k as int,
                                        ServoHubView { servos: h.servos.push(d), ..h },
                                    ),
                                    ..u
                                },
                            ),
                        )
                    } else {
                        ParseStep::Stuck
                    },
                    None => ParseStep::Stuck,
                }
            } else {
                ParseStep::Continue(s)
            },
            None => ParseStep::Continue(s),
        },
        None => match s.in_lynx_module {
            Some(k) => match spec_device_from_tag(item, types) {
                Some(d) => if module_takes(d.device_type) {
                    match s.robot.lynx_usb_device {
                        Some(u) => if k < u.lynx_modules.len() {
                            ParseStep::Continue(
                                with_usb(
                                    s,
                                    LynxUSBDeviceView {
                                        lynx_modules: u.lynx_modules.update(
                                            k as int,
                                            module_with_device(u.lynx_modules[k as int], d),
                                        ),
                                        ..u
                                    },
                                ),
                            )
                        } else {
                            ParseStep::Stuck
                        },
                        None => ParseStep::Stuck,
                    }
                } else {
                    ParseStep::Continue(s)
                },
                None => ParseStep::Continue(s),
            },
            None => ParseStep::Continue(s),
        },
    }
}

/// Reading one tag of the document.
pub open spec fn parse_step(
    s: DocumentParseView,
    item: XmlItemView,
    types: Seq<HardwareDeviceTypeView>,
) -> ParseStep {
    match item {
        XmlItemView::Start { name, .. } => if name == "Robot"@ {
            match spec_robot_from_tag(item) {
                Some(r) => ParseStep::Continue(with_robot(s, r)),
                None => ParseStep::Reject,
            }
        } else if name == "EthernetOverUsbConfiguration"@ {
            match spec_ethernet_from_tag(item) {
                Some(e) => ParseStep::Continue(
                    with_robot(s, RobotView { ethernet_over_usb_device: Some(e), ..s.robot }),
                ),
                None => ParseStep::Continue(s),
            }
        } else if name == "Webcam"@ {
            match spec_webcam_from_tag(item) {
                Some(w) => ParseStep::Continue(
                    with_robot(s, RobotView { webcam: Some(w), ..s.robot }),
                ),
                None => ParseStep::Continue(s),
            }
        } else if name == "LynxUsbDevice"@ {
            match spec_usb_device_from_tag(item) {
                Some(u) => ParseStep::Continue(with_usb(s, u)),
                None => ParseStep::Reject,
            }
        } else if name == "LynxModule"@ {
            match spec_module_from_tag(item) {
                Some(m) => match s.robot.lynx_usb_device {
                    Some(u) => ParseStep::Continue(
                        DocumentParseView {
                            num_lynx_modules: s.num_lynx_modules + 1,
                            in_lynx_module: Some(s.num_lynx_modules),
                            ..with_usb(
                                s,
                                LynxUSBDeviceView { lynx_modules: u.lynx_modules.push(m), ..u },
                            )
                        },
                    ),
                    None => ParseStep::Stuck,
                },
                None => ParseStep::Reject,
            }
        } else if name == "ServoHub"@ {
            match spec_hub_from_tag(item) {
                Some(h) => match s.robot.lynx_usb_device {
                    Some(u) => ParseStep::Continue(
                        DocumentParseView {
                            num_servo_hubs: s.num_servo_hubs + 1,
                            in_servo_hub: Some(s.num_servo_hubs),
                            ..with_usb(
                                s,
                                LynxUSBDeviceView { servo_hubs: u.servo_hubs.push(h), ..u },
                            )
                        },
                    ),
                    None => ParseStep::Stuck,
                },
                None => ParseStep::Reject,
            }
        } else {
            device_step(s, item, types)
        },
        XmlItemView::End { name } => if name == "LynxModule"@ {
            ParseStep::Continue(DocumentParseView { in_lynx_module: None, ..s })
        } else if name == "ServoHub"@ {
            ParseStep::Continue(DocumentParseView { in_servo_hub: None, ..s })
        } else {
            ParseStep::Continue(s)
        },
        XmlItemView::Declaration { .. } | XmlItemView::Other => ParseStep::Continue(s),
    }
}

/// Reading the tags in order, from the initial state; it ends at the first tag that
/// rejects the document or cannot be read on.
pub open spec fn parse_items(items: Seq<XmlItemView>, types: Seq<HardwareDeviceTypeView>) -> ParseStep
    decreases items.len(),
{
    if items.len() == 0 {
        ParseStep::Continue(initial_parse())
    } else {
        match parse_items(items.drop_last(), types) {
            ParseStep::Continue(s) => parse_step(s, items.last(), types),
            other => other,
        }
    }
}

/// Whether reading these tags comes to a tag that cannot be read on: a hub before any USB
/// device, or a device for a hub that a later USB device or robot tag has replaced.
pub open spec fn parse_gets_stuck(items: Seq<XmlItemView>, types: Seq<HardwareDeviceTypeView>) -> bool {
    parse_items(items, types) is Stuck
}

/// The robot a list of tags describes: `None` if a tag rejects it or the text they come
/// from has an error after them.
pub open spec fn spec_robot_from_items(
    items: Seq<XmlItemView>,
    read_failed: bool,
    types: Seq<HardwareDeviceTypeView>,
) -> Option<RobotView> {
    match parse_items(items, types) {
        ParseStep::Continue(s) => if read_failed {
            None
        } else {
            Some(s.robot)
        },
        _ => None,
    }
}

/// A step that ends the reading keeps it ended.
proof fn lemma_parse_items_ended(
    items: Seq<XmlItemView>,
    types: Seq<HardwareDeviceTypeView>,
    k: int,
)
    requires
        0 <= k <= items.len(),
        !(parse_items(items.take(k), types) is Continue),
    ensures
        parse_items(items, types) == parse_items(items.take(k), types),
    decreases items.len() - k,
{
    if k < items.len() {
        assert(items.take(k + 1).drop_last() =~= items.take(k));
        lemma_parse_items_ended(items, types, k + 1);
    } else {
        assert(items.take(k) =~= items);
    }
}

/// Whether the reading can go on, and why not.
pub enum StepOutcome {
    Continue,
    Reject,
    Stuck,
}

/// Adds a device to the list of a module that its flavor belongs in.
fn add_to_module(m: &mut LynxModule, d: ConfigurationDevice)
    requires
        module_takes(d.device_type),
    ensures
        final(m)@ == module_with_device(old(m)@, d@),
{
    let ghost dv = d@;
    match d.device_type {
        DeviceFlavor::Motor => m.motors.push(d),
        DeviceFlavor::Servo => m.servos.push(d),
        DeviceFlavor::I2C => m.i2c_devices.push(d),
        DeviceFlavor::AnalogSensor => m.analog_inputs.push(d),
        DeviceFlavor::DigitalIO => m.digital_devices.push(d),
        _ => m.pwm_outputs.push(d),
    }
    assert(final(m)@ =~= module_with_device(old(m)@, dv)) by {
        assert(devices_view(m.motors@) =~= if dv.device_type == DeviceFlavor::Motor {
            devices_view(old(m).motors@).push(dv)
        } else {
            devices_view(old(m).motors@)
        });
        assert(devices_view(m.servos@) =~= if dv.device_type == DeviceFlavor::Servo {
            devices_view(old(m).servos@).push(dv)
        } else {
            devices_view(old(m).servos@)
        });
        assert(devices_view(m.i2c_devices@) =~= if dv.device_type == DeviceFlavor::I2C {
            devices_view(old(m).i2c_devices@).push(dv)
        } else {
            devices_view(old(m).i2c_devices@)
        });
        assert(devices_view(m.analog_inputs@) =~= if dv.device_type == DeviceFlavor::AnalogSensor {
            devices_view(old(m).analog_inputs@).push(dv)
        } else {
            devices_view(old(m).analog_inputs@)
        });
        assert(devices_view(m.digital_devices@) =~= if dv.device_type == DeviceFlavor::DigitalIO {
            devices_view(old(m).digital_devices@).push(dv)
        } else {
            devices_view(old(m).digital_devices@)
        });
        assert(devices_view(m.pwm_outputs@) =~= if dv.device_type == DeviceFlavor::AnalogOutput {
            devices_view(old(m).pwm_outputs@).push(dv)
        } else {
            devices_view(old(m).pwm_outputs@)
        });
    }
}

/// Adds a device to the `k`th module of a USB device.
fn add_to_module_at(u: &mut LynxUSBDevice, k: usize, d: ConfigurationDevice)
    requires
        module_takes(d.device_type),
        k < old(u).lynx_modules@.len(),
    ensures
        final(u)@ == (LynxUSBDeviceView {
            lynx_modules: old(u)@.lynx_modules.update(
                k as int,
                module_with_device(old(u)@.lynx_modules[k as int], d@),
            ),
            ..old(u)@
        }),
{
    let ghost dv = d@;
    let ghost before = u.lynx_modules@;
    let mut m = u.lynx_modules.remove(k);
    add_to_module(&mut m, d);
    let ghost mv = m@;
    u.lynx_modules.insert(k, m);
    assert(modules_view(u.lynx_modules@) =~= modules_view(before).update(k as int, mv));
}

/// Adds a servo to the `k`th servo hub of a USB device.
fn add_to_hub_at(u: &mut LynxUSBDevice, k: usize, d: ConfigurationDevice)
    requires
        k < old(u).servo_hubs@.len(),
    ensures
        final(u)@ == (LynxUSBDeviceView {
            servo_hubs: old(u)@.servo_hubs.update(
                k as int,
                ServoHubView {
                    servos: old(u)@.servo_hubs[k as int].servos.push(d@),
                    ..old(u)@.servo_hubs[k as int]
                },
            ),
            ..old(u)@
        }),
{
    let ghost dv = d@;
    let ghost before = u.servo_hubs@;
    let mut h = u.servo_hubs.remove(k);
    let ghost hv = h@;
    h.servos.push(d);
    assert(devices_view(h.servos@) =~= hv.servos.push(dv));
    let ghost hv2 = h@;
    u.servo_hubs.insert(k, h);
    assert(hubs_view(u.servo_hubs@) =~= hubs_view(before).update(k as int, hv2));
}

/// Reads one device tag inside an open hub ([device_step]).
fn device_step_exec(
    state: &mut DocumentParse,
    item: &XmlItem,
    device_types: &Vec<HardwareDeviceType>,
) -> (outcome: StepOutcome)
    ensures
        match outcome {
            StepOutcome::Continue => device_step(old(state)@, item@, device_types_view(device_types@))
                == ParseStep::Continue(final(state)@),
            StepOutcome::Stuck => device_step(
                old(state)@,
                item@,
                device_types_view(device_types@),
            ) is Stuck,
            StepOutcome::Reject => false,
        },
{
    if let Some(k) = state.in_servo_hub {
        match ConfigurationDevice::from_xml_tag(item, device_types) {
            Some(d) => {
                if d.device_type == DeviceFlavor::Servo {
                    match state.robot.lynx_usb_device.take() {
                        Some(mut u) => {
                            if k < u.servo_hubs.len() {
                                add_to_hub_at(&mut u, k, d);
                                state.robot.lynx_usb_device = Some(u);
                                StepOutcome::Continue
                            } else {
                                StepOutcome::Stuck
                            }
                        },
                        None => StepOutcome::Stuck,
                    }
                } else {
                    StepOutcome::Continue
                }
            },
            None => StepOutcome::Continue,
        }
    } else if let Some(k) = state.in_lynx_module {
        match ConfigurationDevice::from_xml_tag(item, device_types) {
            Some(d) => {
                let takes = match d.device_type {
                    DeviceFlavor::Motor | DeviceFlavor::Servo | DeviceFlavor::I2C
                    | DeviceFlavor::AnalogSensor | DeviceFlavor::DigitalIO
                    | DeviceFlavor::AnalogOutput => true,
                    _ => false,
                };
                if takes {
                    match state.robot.lynx_usb_device.take() {
                        Some(mut u) => {
                            if k < u.lynx_modules.len() {
                                add_to_module_at(&mut u, k, d);
                                state.robot.lynx_usb_device = Some(u);
                                StepOutcome::Continue
                            } else {
                                StepOutcome::Stuck
                            }
                        },
                        None => StepOutcome::Stuck,
                    }
                } else {
                    StepOutcome::Continue
                }
            },
            None => StepOutcome::Continue,
        }
    } else {
        StepOutcome::Continue
    }
}

/// Reads one tag of the document ([parse_step]).
pub fn parse_step_exec(
    state: &mut DocumentParse,
    item: &XmlItem,
    device_types: &Vec<HardwareDeviceType>,
) -> (outcome: StepOutcome)
    requires
        old(state).num_lynx_modules < usize::MAX,
        old(state).num_servo_hubs < usize::MAX,
    ensures
        match outcome {
            StepOutcome::Continue => parse_step(old(state)@, item@, device_types_view(device_types@))
                == ParseStep::Continue(final(state)@),
            StepOutcome::Reject => parse_step(
                old(state)@,
                item@,
                device_types_view(device_types@),
            ) is Reject,
            StepOutcome::Stuck => parse_step(
                old(state)@,
                item@,
                device_types_view(device_types@),
            ) is Stuck,
        },
{
    match item {
        XmlItem::Start { name, .. } => {
            if str_eq(name.as_str(), "Robot") {
                match Robot::from_xml_tag(item) {
                    Some(r) => {
                        state.robot = r;
                        StepOutcome::Continue
                    },
                    None => StepOutcome::Reject,
                }
            } else if str_eq(name.as_str(), "EthernetOverUsbConfiguration") {
                match EthernetOverUsbConfiguration::from_xml_tag(item) {
                    Some(e) => {
                        state.robot.ethernet_over_usb_device = Some(e);
                    },
                    None => {},
                }
                StepOutcome::Continue
            } else if str_eq(name.as_str(), "Webcam") {
                match Webcam::from_xml_tag(item) {
                    Some(w) => {
                        state.robot.webcam = Some(w);
                    },
                    None => {},
                }
                StepOutcome::Continue
            } else if str_eq(name.as_str(), "LynxUsbDevice") {
                match LynxUSBDevice::from_xml_tag(item) {
                    Some(u) => {
                        state.robot.lynx_usb_device = Some(u);
                        StepOutcome::Continue
                    },
                    None => StepOutcome::Reject,
                }
            } else if str_eq(name.as_str(), "LynxModule") {
                match LynxModule::from_xml_tag(item) {
                    Some(m) => match state.robot.lynx_usb_device.take() {
                        Some(mut u) => {
                            let ghost mv = m@;
                            let ghost before = u.lynx_modules@;
                            u.lynx_modules.push(m);
                            assert(modules_view(u.lynx_modules@) =~= modules_view(before).push(
                                mv,
                            ));
                            state.robot.lynx_usb_device = Some(u);
                            state.in_lynx_module = Some(state.num_lynx_modules);
                            state.num_lynx_modules = state.num_lynx_modules + 1;
                            StepOutcome::Continue
                        },
                        None => StepOutcome::Stuck,
                    },
                    None => StepOutcome::Reject,
                }
            } else if str_eq(name.as_str(), "ServoHub") {
                match ServoHub::from_xml_tag(item) {
                    Some(h) => match state.robot.lynx_usb_device.take() {
                        Some(mut u) => {
                            let ghost hv = h@;
                            let ghost before = u.servo_hubs@;
                            u.servo_hubs.push(h);
                            assert(hubs_view(u.servo_hubs@) =~= hubs_view(before).push(hv));
                            state.robot.lynx_usb_device = Some(u);
                            state.in_servo_hub = Some(state.num_servo_hubs);
                            state.num_servo_hubs = state.num_servo_hubs + 1;
                            StepOutcome::Continue
                        },
                        None => StepOutcome::Stuck,
                    },
                    None => StepOutcome::Reject,
                }
            } else {
                device_step_exec(state, item, device_types)
            }
        },
        XmlItem::End { name } => {
            if str_eq(name.as_str(), "LynxModule") {
                state.in_lynx_module = None;
            } else if str_eq(name.as_str(), "ServoHub") {
                state.in_servo_hub = None;
            }
            StepOutcome::Continue
        },
        XmlItem::Declaration { .. } | XmlItem::Other => StepOutcome::Continue,
    }
}

/// Reads a robot from the tags of a document ([spec_robot_from_items]); `read_failed`
/// says whether the text had an error after these tags. The result is `None` where the
/// reading gets stuck ([parse_gets_stuck]), `Some` of the robot or of `None` otherwise.
pub fn robot_from_xml_items(
    items: &Vec<XmlItem>,
    read_failed: bool,
    device_types: &Vec<HardwareDeviceType>,
) -> (r: Option<Option<Robot>>)
    ensures
        r is None <==> parse_gets_stuck(items_view(items@), device_types_view(device_types@)),
        r matches Some(o) ==> opt_robot_view(o) == spec_robot_from_items(
            items_view(items@),
            read_failed,
            device_types_view(device_types@),
        ),
{
    let ghost iv = items_view(items@);
    let ghost tv = device_types_view(device_types@);
    let mut state = DocumentParse {
        robot: Robot {
            webcam: None,
            lynx_usb_device: None,
            ethernet_over_usb_device: None,
            robot_type: None,
        },
        num_lynx_modules: 0,
        num_servo_hubs: 0,
        in_lynx_module: None,
        in_servo_hub: None,
    };
    assert(iv.take(0) =~= Seq::<XmlItemView>::empty());
    let mut i: usize = 0;
    while i < items.len()
        invariant
            i <= items@.len(),
            iv == items_view(items@),
            tv == device_types_view(device_types@),
            parse_items(iv.take(i as int), tv) == ParseStep::Continue(state@),
            state.num_lynx_modules <= i,
            state.num_servo_hubs <= i,
        decreases items@.len() - i,
    {
        assert(iv.take(i + 1).drop_last() =~= iv.take(i as int));
        assert(iv.take(i + 1).last() == items@[i as int]@);
        match parse_step_exec(&mut state, &items[i], device_types) {
            StepOutcome::Continue => {},
            StepOutcome::Reject => {
                proof {
                    lemma_parse_items_ended(iv, tv, i + 1);
                }
                return Some(None);
            },
            StepOutcome::Stuck => {
                proof {
                    lemma_parse_items_ended(iv, tv, i + 1);
                }
                return None;
            },
        }
        i += 1;
    }
    assert(iv.take(items@.len() as int) =~= iv);
    if read_failed {
        Some(None)
    } else {
        Some(Some(state.robot))
    }
}

/// Tries to parse an xml robot configuration: reads its tags with `xml-rs` and the robot
/// from them. `None` where the text has an error, a tag rejects it (a `Robot`,
/// `LynxUsbDevice`, `LynxModule` or `ServoHub` tag whose attributes do not read) or the
/// reading gets stuck ([parse_gets_stuck]).
pub fn try_parse_xml_document(xml: String, device_types: &Vec<HardwareDeviceType>) -> (r: Option<
    Robot,
>)
    ensures
        opt_robot_view(r) == spec_robot_from_items(
            xml_reader_items(xml@).0,
            xml_reader_items(xml@).1,
            device_types_view(device_types@),
        ),
{
    let (items, read_failed) = read_xml_items(xml.as_str());
    match robot_from_xml_items(&items, read_failed, device_types) {
        Some(r) => r,
        None => None,
    }
}

/// [try_parse_xml_document], telling apart the texts on which the reading gets stuck
/// ([parse_gets_stuck]): `None` for those, else `Some` of what that function gives.
pub fn try_parse_xml_document_checked(xml: String, device_types: &Vec<HardwareDeviceType>) -> (r:
    Option<Option<Robot>>)
    ensures
        r is None <==> parse_gets_stuck(
            xml_reader_items(xml@).0,
            device_types_view(device_types@),
        ),
        r matches Some(o) ==> opt_robot_view(o) == spec_robot_from_items(
            xml_reader_items(xml@).0,
            xml_reader_items(xml@).1,
            device_types_view(device_types@),
        ),
{
    let (items, read_failed) = read_xml_items(xml.as_str());
    match robot_from_xml_items(&items, read_failed, device_types) {
        Some(_) => Some(try_parse_xml_document(xml, device_types)),
        None => None,
    }
}

// ---------------------------------------------------------------------------------------
// Writing
// ---------------------------------------------------------------------------------------

/// An element with no children: its opening tag, then its closing tag.
pub open spec fn tag_events(name: Seq<char>, attributes: Seq<XmlAttributeView>) -> Seq<
    XmlItemView,
> {
    seq![XmlItemView::Start { name, attributes }, XmlItemView::End { name }]
}

/// The tags of a device: an empty element named by its tag.
pub open spec fn device_events(d: ConfigurationDeviceView) -> Seq<XmlItemView> {
    tag_events(d.xml_tag_name, device_attributes(d))
}

/// The tags of devices, one after another.
pub open spec fn devices_events(ds: Seq<ConfigurationDeviceView>) -> Seq<XmlItemView>
    decreases ds.len(),
{
    if ds.len() == 0 {
        Seq::empty()
    } else {
        devices_events(ds.drop_last()) + device_events(ds.last())
    }
}

/// The tags of a module: a `LynxModule` element holding all its devices
/// ([spec_all_devices]).
pub open spec fn module_events(m: LynxModuleView) -> Seq<XmlItemView> {
    seq![
        XmlItemView::Start {
            name: "LynxModule"@,
            attributes: controller_attributes(m.controller_meta),
        },
    ] + devices_events(spec_all_devices(m)) + seq![XmlItemView::End { name: "LynxModule"@ }]
}

/// The tags of modules, one after another.
pub open spec fn modules_events(ms: Seq<LynxModuleView>) -> Seq<XmlItemView>
    decreases ms.len(),
{
    if ms.len() == 0 {
        Seq::empty()
    } else {
        modules_events(ms.drop_last()) + module_events(ms.last())
    }
}

/// The tags of a servo hub: a `ServoHub` element holding its servos.
pub open spec fn hub_events(h: ServoHubView) -> Seq<XmlItemView> {
    seq![
        XmlItemView::Start {
            name: "ServoHub"@,
            attributes: controller_attributes(h.controller_meta),
        },
    ] + devices_events(h.servos) + seq![XmlItemView::End { name: "ServoHub"@ }]
}

/// The tags of servo hubs, one after another.
pub open spec fn hubs_events(hs: Seq<ServoHubView>) -> Seq<XmlItemView>
    decreases hs.len(),
{
    if hs.len() == 0 {
        Seq::empty()
    } else {
        hubs_events(hs.drop_last()) + hub_events(hs.last())
    }
}

/// The tags of the webcam, if there is one.
pub open spec fn webcam_events(w: Option<WebcamView>) -> Seq<XmlItemView> {
    match w {
        Some(w) => tag_events("Webcam"@, webcam_attributes(w)),
        None => Seq::empty(),
    }
}

/// The tags of the ethernet over USB configuration, if there is one.
pub open spec fn ethernet_events(e: Option<EthernetOverUsbConfigurationView>) -> Seq<XmlItemView> {
    match e {
        Some(e) => tag_events("EthernetOverUsbConfiguration"@, ethernet_attributes(e)),
        None => Seq::empty(),
    }
}

/// The declaration a written document starts with.
pub open spec fn document_declaration() -> XmlItemView {
    XmlItemView::Declaration { encoding: "UTF-8"@, standalone: true }
}

/// The tags a robot with a USB device is written as: the declaration, then the `Robot`
/// element holding the `LynxUsbDevice` element (its modules, then its servo hubs), then the
/// webcam and the ethernet configuration, those the robot has.
pub open spec fn document_events(r: RobotView) -> Seq<XmlItemView>
    recommends
        r.lynx_usb_device is Some,
{
    let u = r.lynx_usb_device->0;
    seq![
        document_declaration(),
        XmlItemView::Start { name: "Robot"@, attributes: robot_attributes(r) },
        XmlItemView::Start { name: "LynxUsbDevice"@, attributes: usb_device_attributes(u) },
    ] + modules_events(u.lynx_modules) + hubs_events(u.servo_hubs) + seq![
        XmlItemView::End { name: "LynxUsbDevice"@ },
    ] + webcam_events(r.webcam) + ethernet_events(r.ethernet_over_usb_device) + seq![
        XmlItemView::End { name: "Robot"@ },
    ]
}

/// The tags of two lists of devices are those of the one, then those of the other.
pub proof fn lemma_devices_events_append(a: Seq<ConfigurationDeviceView>, b: Seq<ConfigurationDeviceView>)
    ensures
        devices_events(a + b) == devices_events(a) + devices_events(b),
    decreases b.len(),
{
    if b.len() == 0 {
        assert(a + b =~= a);
        assert(devices_events(a) + devices_events(b) =~= devices_events(a));
    } else {
        lemma_devices_events_append(a, b.drop_last());
        assert((a + b).drop_last() =~= a + b.drop_last());
        assert((a + b).last() == b.last());
        assert(devices_events(a + b) =~= devices_events(a) + devices_events(b));
    }
}

/// The views of a list with one more item.
proof fn lemma_items_view_push(s: Seq<XmlItem>, x: XmlItem)
    ensures
        items_view(s.push(x)) == items_view(s).push(x@),
{
    assert(items_view(s.push(x)) =~= items_view(s).push(x@));
}

/// Appends one item.
fn push_item(out: &mut Vec<XmlItem>, x: XmlItem)
    ensures
        items_view(final(out)@) == items_view(old(out)@).push(x@),
{
    let ghost xv = x@;
    proof {
        lemma_items_view_push(out@, x);
    }
    out.push(x);
}

/// Appends the tags of devices.
fn push_device_items(out: &mut Vec<XmlItem>, ds: &Vec<ConfigurationDevice>)
    ensures
        items_view(final(out)@) == items_view(old(out)@) + devices_events(devices_view(ds@)),
{
    let ghost start = items_view(out@);
    let ghost dv = devices_view(ds@);
    let mut i: usize = 0;
    assert(dv.take(0) =~= Seq::<ConfigurationDeviceView>::empty());
    assert(items_view(out@) =~= start + devices_events(dv.take(0)));
    while i < ds.len()
        invariant
            i <= ds@.len(),
            dv == devices_view(ds@),
            items_view(out@) == start + devices_events(dv.take(i as int)),
        decreases ds@.len() - i,
    {
        let d = &ds[i];
        let ghost before = items_view(out@);
        let attributes = d.make_owned_attributes();
        push_item(out, XmlItem::Start { name: d.xml_tag_name.clone(), attributes });
        push_item(out, XmlItem::End { name: d.xml_tag_name.clone() });
        assert(dv.take(i + 1).drop_last() =~= dv.take(i as int));
        assert(dv.take(i + 1).last() == d@);
        assert(items_view(out@) =~= before + device_events(d@));
        assert(items_view(out@) =~= start + devices_events(dv.take(i + 1)));
        i += 1;
    }
    assert(dv.take(ds@.len() as int) =~= dv);
}

/// Appends the tags of a module.
fn push_module_items(out: &mut Vec<XmlItem>, m: &LynxModule)
    ensures
        items_view(final(out)@) == items_view(old(out)@) + module_events(m@),
{
    let ghost start = items_view(out@);
    let attributes = m.make_owned_attributes();
    push_item(out, XmlItem::Start { name: String::from_str("LynxModule"), attributes });
    let ghost opened = items_view(out@);
    push_device_items(out, &m.servos);
    push_device_items(out, &m.motors);
    push_device_items(out, &m.i2c_devices);
    push_device_items(out, &m.digital_devices);
    push_device_items(out, &m.pwm_outputs);
    push_device_items(out, &m.analog_inputs);
    let ghost filled = items_view(out@);
    push_item(out, XmlItem::End { name: String::from_str("LynxModule") });
    proof {
        let v = m@;
        lemma_devices_events_append(v.servos, v.motors);
        lemma_devices_events_append(v.servos + v.motors, v.i2c_devices);
        lemma_devices_events_append(v.servos + v.motors + v.i2c_devices, v.digital_devices);
        lemma_devices_events_append(
            v.servos + v.motors + v.i2c_devices + v.digital_devices,
            v.pwm_outputs,
        );
        lemma_devices_events_append(
            v.servos + v.motors + v.i2c_devices + v.digital_devices + v.pwm_outputs,
            v.analog_inputs,
        );
        assert(filled =~= opened + devices_events(spec_all_devices(v)));
        assert(items_view(out@) =~= start + module_events(v));
    }
}

/// Appends the tags of a servo hub.
fn push_hub_items(out: &mut Vec<XmlItem>, h: &ServoHub)
    ensures
        items_view(final(out)@) == items_view(old(out)@) + hub_events(h@),
{
    let ghost start = items_view(out@);
    let attributes = h.make_owned_attributes();
    push_item(out, XmlItem::Start { name: String::from_str("ServoHub"), attributes });
    push_device_items(out, &h.servos);
    push_item(out, XmlItem::End { name: String::from_str("ServoHub") });
    assert(items_view(out@) =~= start + hub_events(h@));
}

/// The tags a robot with a USB device is written as ([document_events]).
pub fn xml_document_items(robot: &Robot) -> (items: Vec<XmlItem>)
    requires
        robot.lynx_usb_device is Some,
    ensures
        items_view(items@) == document_events(robot@),
{
    let mut out: Vec<XmlItem> = Vec::new();
    push_item(
        &mut out,
        XmlItem::Declaration { encoding: String::from_str("UTF-8"), standalone: true },
    );
    push_item(&mut out, robot.opening_event());
    let lynx_usb_device = match &robot.lynx_usb_device {
        Some(u) => u,
        None => {
            return out;
        },
    };
    let attributes = lynx_usb_device.make_owned_attributes();
    push_item(&mut out, XmlItem::Start { name: String::from_str("LynxUsbDevice"), attributes });
    let ghost head = items_view(out@);
    let ghost u = lynx_usb_device@;
    let mut i: usize = 0;
    assert(u.lynx_modules.take(0) =~= Seq::<LynxModuleView>::empty());
    assert(items_view(out@) =~= head + modules_events(u.lynx_modules.take(0)));
    while i < lynx_usb_device.lynx_modules.len()
        invariant
            i <= lynx_usb_device.lynx_modules@.len(),
            u == lynx_usb_device@,
            items_view(out@) == head + modules_events(u.lynx_modules.take(i as int)),
        decreases lynx_usb_device.lynx_modules@.len() - i,
    {
        let ghost before = items_view(out@);
        push_module_items(&mut out, &lynx_usb_device.lynx_modules[i]);
        assert(u.lynx_modules.take(i + 1).drop_last() =~= u.lynx_modules.take(i as int));
        assert(u.lynx_modules.take(i + 1).last() == lynx_usb_device.lynx_modules@[i as int]@);
        assert(items_view(out@) =~= head + modules_events(u.lynx_modules.take(i + 1)));
        i += 1;
    }
    assert(u.lynx_modules.take(i as int) =~= u.lynx_modules);
    let ghost mid = items_view(out@);
    let mut j: usize = 0;
    assert(u.servo_hubs.take(0) =~= Seq::<ServoHubView>::empty());
    assert(items_view(out@) =~= mid + hubs_events(u.servo_hubs.take(0)));
    while j < lynx_usb_device.servo_hubs.len()
        invariant
            j <= lynx_usb_device.servo_hubs@.len(),
            u == lynx_usb_device@,
            items_view(out@) == mid + hubs_events(u.servo_hubs.take(j as int)),
        decreases lynx_usb_device.servo_hubs@.len() - j,
    {
        push_hub_items(&mut out, &lynx_usb_device.servo_hubs[j]);
        assert(u.servo_hubs.take(j + 1).drop_last() =~= u.servo_hubs.take(j as int));
        assert(u.servo_hubs.take(j + 1).last() == lynx_usb_device.servo_hubs@[j as int]@);
        assert(items_view(out@) =~= mid + hubs_events(u.servo_hubs.take(j + 1)));
        j += 1;
    }
    assert(u.servo_hubs.take(j as int) =~= u.servo_hubs);
    push_item(&mut out, XmlItem::End { name: String::from_str("LynxUsbDevice") });
    let ghost tail = items_view(out@);
    if let Some(webcam) = &robot.webcam {
        let attributes = webcam.make_owned_attributes();
        push_item(&mut out, XmlItem::Start { name: String::from_str("Webcam"), attributes });
        push_item(&mut out, XmlItem::End { name: String::from_str("Webcam") });
    }
    assert(items_view(out@) =~= tail + webcam_events(robot@.webcam));
    let ghost tail2 = items_view(out@);
    if let Some(ethernet_over_usb) = &robot.ethernet_over_usb_device {
        let attributes = ethernet_over_usb.make_owned_attributes();
        push_item(
            &mut out,
            XmlItem::Start { name: String::from_str("EthernetOverUsbConfiguration"), attributes },
        );
        push_item(&mut out, XmlItem::End { name: String::from_str("EthernetOverUsbConfiguration") });
    }
    assert(items_view(out@) =~= tail2 + ethernet_events(robot@.ethernet_over_usb_device));
    push_item(&mut out, robot.closing_event());
    assert(items_view(out@) =~= document_events(robot@));
    out
}

/// Whether a list of items holds only declarations and tags, the items that are written.
pub open spec fn only_written_items(s: Seq<XmlItemView>) -> bool {
    forall|i: int| 0 <= i < s.len() ==> !(#[trigger] s[i] is Other)
}

proof fn lemma_written_concat(a: Seq<XmlItemView>, b: Seq<XmlItemView>)
    requires
        only_written_items(a),
        only_written_items(b),
    ensures
        only_written_items(a + b),
{
    assert forall|i: int| 0 <= i < (a + b).len() implies !(#[trigger] (a + b)[i] is Other) by {
        if i >= a.len() {
            assert((a + b)[i] == b[i - a.len()]);
        } else {
            assert((a + b)[i] == a[i]);
        }
    }
}

proof fn lemma_devices_written(ds: Seq<ConfigurationDeviceView>)
    ensures
        only_written_items(devices_events(ds)),
    decreases ds.len(),
{
    if ds.len() > 0 {
        lemma_devices_written(ds.drop_last());
        lemma_written_concat(devices_events(ds.drop_last()), device_events(ds.last()));
    }
}

proof fn lemma_modules_written(ms: Seq<LynxModuleView>)
    ensures
        only_written_items(modules_events(ms)),
    decreases ms.len(),
{
    if ms.len() > 0 {
        let m = ms.last();
        lemma_modules_written(ms.drop_last());
        lemma_devices_written(spec_all_devices(m));
        let start = seq![
            XmlItemView::Start {
                name: "LynxModule"@,
                attributes: controller_attributes(m.controller_meta),
            },
        ];
        lemma_written_concat(start, devices_events(spec_all_devices(m)));
        lemma_written_concat(
            start + devices_events(spec_all_devices(m)),
            seq![XmlItemView::End { name: "LynxModule"@ }],
        );
        lemma_written_concat(modules_events(ms.drop_last()), module_events(m));
    }
}

proof fn lemma_hubs_written(hs: Seq<ServoHubView>)
    ensures
        only_written_items(hubs_events(hs)),
    decreases hs.len(),
{
    if hs.len() > 0 {
        let h = hs.last();
        lemma_hubs_written(hs.drop_last());
        lemma_devices_written(h.servos);
        let start = seq![
            XmlItemView::Start { name: "ServoHub"@, attributes: controller_attributes(h.controller_meta) },
        ];
        lemma_written_concat(start, devices_events(h.servos));
        lemma_written_concat(
            start + devices_events(h.servos),
            seq![XmlItemView::End { name: "ServoHub"@ }],
        );
        lemma_written_concat(hubs_events(hs.drop_last()), hub_events(h));
    }
}

/// A written document holds only declarations and tags.
proof fn lemma_document_written(r: RobotView)
    requires
        r.lynx_usb_device is Some,
    ensures
        only_written_items(document_events(r)),
{
    let u = r.lynx_usb_device->0;
    let head = seq![
        document_declaration(),
        XmlItemView::Start { name: "Robot"@, attributes: robot_attributes(r) },
        XmlItemView::Start { name: "LynxUsbDevice"@, attributes: usb_device_attributes(u) },
    ];
    lemma_modules_written(u.lynx_modules);
    lemma_hubs_written(u.servo_hubs);
    lemma_written_concat(head, modules_events(u.lynx_modules));
    let a = head + modules_events(u.lynx_modules);
    lemma_written_concat(a, hubs_events(u.servo_hubs));
    let b = a + hubs_events(u.servo_hubs);
    lemma_written_concat(b, seq![XmlItemView::End { name: "LynxUsbDevice"@ }]);
    let c = b + seq![XmlItemView::End { name: "LynxUsbDevice"@ }];
    lemma_written_concat(c, webcam_events(r.webcam));
    let d = c + webcam_events(r.webcam);
    lemma_written_concat(d, ethernet_events(r.ethernet_over_usb_device));
    let e = d + ethernet_events(r.ethernet_over_usb_device);
    lemma_written_concat(e, seq![XmlItemView::End { name: "Robot"@ }]);
}

/// Writing two lists of events one after the other is writing the first, then the second
/// from where the first left the writer.
proof fn lemma_emit_concat(
    a: Seq<XmlItemView>,
    b: Seq<XmlItemView>,
    started: bool,
    open: Seq<Seq<char>>,
)
    ensures
        emit_nesting(a + b, started, open) == match emit_nesting(a, started, open) {
            Some((s, o)) => emit_nesting(b, s, o),
            None => None,
        },
    decreases a.len(),
{
    if a.len() == 0 {
        assert(a + b =~= b);
    } else {
        assert((a + b)[0] == a[0]);
        assert((a + b).drop_first() =~= a.drop_first() + b);
        match a[0] {
            XmlItemView::Declaration { .. } => lemma_emit_concat(a.drop_first(), b, true, open),
            XmlItemView::Start { name, .. } => lemma_emit_concat(
                a.drop_first(),
                b,
                true,
                open.push(name),
            ),
            XmlItemView::End { name } => if open.len() > 0 && open.last() == name {
                lemma_emit_concat(a.drop_first(), b, started, open.drop_last());
            },
            XmlItemView::Other => lemma_emit_concat(a.drop_first(), b, started, open),
        }
    }
}

/// An element opened and closed again leaves a started writer as it was.
proof fn lemma_emit_element(
    name: Seq<char>,
    attributes: Seq<XmlAttributeView>,
    inner: Seq<XmlItemView>,
    open: Seq<Seq<char>>,
)
    requires
        emit_nesting(inner, true, open.push(name)) == Some((true, open.push(name))),
    ensures
        emit_nesting(
            seq![XmlItemView::Start { name, attributes }] + inner + seq![XmlItemView::End { name }],
            true,
            open,
        ) == Some((true, open)),
{
    let start = seq![XmlItemView::Start { name, attributes }];
    let end = seq![XmlItemView::End { name }];
    reveal_with_fuel(emit_nesting, 2);
    assert(start.drop_first() =~= Seq::<XmlItemView>::empty());
    assert(start[0] == XmlItemView::Start { name, attributes });
    assert(emit_nesting(start, true, open) == Some((true, open.push(name))));
    lemma_emit_concat(start, inner, true, open);
    lemma_emit_concat(start + inner, end, true, open);
    assert(end.drop_first() =~= Seq::<XmlItemView>::empty());
    assert(end[0] == XmlItemView::End { name });
    assert(open.push(name).drop_last() =~= open);
    assert(open.push(name).last() == name);
    assert(emit_nesting(end, true, open.push(name)) == Some((true, open)));
}

proof fn lemma_devices_emit(ds: Seq<ConfigurationDeviceView>, open: Seq<Seq<char>>)
    ensures
        emit_nesting(devices_events(ds), true, open) == Some((true, open)),
    decreases ds.len(),
{
    if ds.len() > 0 {
        let d = ds.last();
        lemma_devices_emit(ds.drop_last(), open);
        assert(emit_nesting(Seq::empty(), true, open.push(d.xml_tag_name)) == Some(
            (true, open.push(d.xml_tag_name)),
        ));
        lemma_emit_element(d.xml_tag_name, device_attributes(d), Seq::empty(), open);
        assert(device_events(d) =~= seq![
            XmlItemView::Start { name: d.xml_tag_name, attributes: device_attributes(d) },
        ] + Seq::empty() + seq![XmlItemView::End { name: d.xml_tag_name }]);
        lemma_emit_concat(devices_events(ds.drop_last()), device_events(d), true, open);
    }
}

proof fn lemma_modules_emit(ms: Seq<LynxModuleView>, open: Seq<Seq<char>>)
    ensures
        emit_nesting(modules_events(ms), true, open) == Some((true, open)),
    decreases ms.len(),
{
    if ms.len() > 0 {
        let m = ms.last();
        lemma_modules_emit(ms.drop_last(), open);
        lemma_devices_emit(spec_all_devices(m), open.push("LynxModule"@));
        lemma_emit_element(
            "LynxModule"@,
            controller_attributes(m.controller_meta),
            devices_events(spec_all_devices(m)),
            open,
        );
        lemma_emit_concat(modules_events(ms.drop_last()), module_events(m), true, open);
    }
}

proof fn lemma_hubs_emit(hs: Seq<ServoHubView>, open: Seq<Seq<char>>)
    ensures
        emit_nesting(hubs_events(hs), true, open) == Some((true, open)),
    decreases hs.len(),
{
    if hs.len() > 0 {
        let h = hs.last();
        lemma_hubs_emit(hs.drop_last(), open);
        lemma_devices_emit(h.servos, open.push("ServoHub"@));
        lemma_emit_element(
            "ServoHub"@,
            controller_attributes(h.controller_meta),
            devices_events(h.servos),
            open,
        );
        lemma_emit_concat(hubs_events(hs.drop_last()), hub_events(h), true, open);
    }
}

proof fn lemma_optional_element_emit(
    e: Seq<XmlItemView>,
    name: Seq<char>,
    attributes: Seq<XmlAttributeView>,
    open: Seq<Seq<char>>,
)
    requires
        e == Seq::<XmlItemView>::empty() || e == tag_events(name, attributes),
    ensures
        emit_nesting(e, true, open) == Some((true, open)),
{
    if e.len() > 0 {
        assert(emit_nesting(Seq::empty(), true, open.push(name)) == Some((true, open.push(name))));
        lemma_emit_element(name, attributes, Seq::empty(), open);
        assert(tag_events(name, attributes) =~= seq![XmlItemView::Start { name, attributes }]
            + Seq::empty() + seq![XmlItemView::End { name }]);
    }
}

/// A written document is written without an error: its declaration comes first and every
/// element is closed by a tag of its own name.
proof fn lemma_document_emits_cleanly(r: RobotView)
    requires
        r.lynx_usb_device is Some,
    ensures
        emits_cleanly(document_events(r)),
{
    let u = r.lynx_usb_device->0;
    let decl = seq![document_declaration()];
    let robot_start = seq![XmlItemView::Start { name: "Robot"@, attributes: robot_attributes(r) }];
    let robot_end = seq![XmlItemView::End { name: "Robot"@ }];
    let usb_inner = modules_events(u.lynx_modules) + hubs_events(u.servo_hubs);
    let robot_inner = (seq![
        XmlItemView::Start { name: "LynxUsbDevice"@, attributes: usb_device_attributes(u) },
    ] + usb_inner + seq![XmlItemView::End { name: "LynxUsbDevice"@ }]) + webcam_events(r.webcam)
        + ethernet_events(r.ethernet_over_usb_device);
    let robot_open = Seq::<Seq<char>>::empty().push("Robot"@);
    let usb_open = robot_open.push("LynxUsbDevice"@);
    lemma_modules_emit(u.lynx_modules, usb_open);
    lemma_hubs_emit(u.servo_hubs, usb_open);
    lemma_emit_concat(modules_events(u.lynx_modules), hubs_events(u.servo_hubs), true, usb_open);
    lemma_emit_element("LynxUsbDevice"@, usb_device_attributes(u), usb_inner, robot_open);
    let usb = seq![
        XmlItemView::Start { name: "LynxUsbDevice"@, attributes: usb_device_attributes(u) },
    ] + usb_inner + seq![XmlItemView::End { name: "LynxUsbDevice"@ }];
    match r.webcam {
        Some(w) => lemma_optional_element_emit(webcam_events(r.webcam), "Webcam"@, webcam_attributes(w), robot_open),
        None => lemma_optional_element_emit(webcam_events(r.webcam), "Webcam"@, Seq::empty(), robot_open),
    }
    match r.ethernet_over_usb_device {
        Some(e) => lemma_optional_element_emit(
            ethernet_events(r.ethernet_over_usb_device),
            "EthernetOverUsbConfiguration"@,
            ethernet_attributes(e),
            robot_open,
        ),
        None => lemma_optional_element_emit(
            ethernet_events(r.ethernet_over_usb_device),
            "EthernetOverUsbConfiguration"@,
            Seq::empty(),
            robot_open,
        ),
    }
    lemma_emit_concat(usb, webcam_events(r.webcam), true, robot_open);
    lemma_emit_concat(usb + webcam_events(r.webcam), ethernet_events(r.ethernet_over_usb_device), true, robot_open);
    assert(robot_open =~= Seq::<Seq<char>>::empty().push("Robot"@));
    lemma_emit_element("Robot"@, robot_attributes(r), robot_inner, Seq::empty());
    assert(decl.drop_first() =~= Seq::<XmlItemView>::empty());
    assert(decl[0] == document_declaration());
    assert(emit_nesting(decl, false, Seq::empty()) == Some((true, Seq::<Seq<char>>::empty()))) by {
        reveal_with_fuel(emit_nesting, 2);
    }
    let body = robot_start + robot_inner + robot_end;
    lemma_emit_concat(decl, body, false, Seq::empty());
    assert(document_events(r) =~= decl + body);
}

/// The text of written bytes: `None` where the writer failed or its bytes are not UTF-8.
pub open spec fn written_text(bytes: Option<Seq<u8>>) -> Option<Seq<char>> {
    match bytes {
        Some(b) => if valid_utf8(b) {
            Some(decode_utf8(b))
        } else {
            None
        },
        None => None,
    }
}

/// Tries to write the robot configuration to an XML string: the tags of
/// [document_events], written by `xml-rs` with indentation.
pub fn write_xml_document(robot: &Robot) -> (r: Option<String>)
    requires
        robot.lynx_usb_device is Some,
    ensures
        opt_chars(r) == written_text(xml_emitter_output(document_events(robot@))),
        r is Some,
{
    let items = xml_document_items(robot);
    proof {
        lemma_document_written(robot@);
        lemma_document_emits_cleanly(robot@);
        assert forall|i: int| 0 <= i < items@.len() implies !(#[trigger] items@[i] is Other) by {
            assert(items_view(items@)[i] == items@[i]@);
        }
    }
    match emit_xml_items(&items) {
        Some(bytes) => string_from_utf8(bytes),
        None => None,
    }
}

} // verus!
