//! Contains Lynx USB Device, LynxModule and ServoHub types
//! for the robot hardware configuration

use vstd::prelude::*;

use crate::ftc_proto::hardware::robot::{
    controller_attributes, devices_view, is_start_named, item_attributes, scan_text,
    spec_controller_from_tag, start_named, attribute_text, ConfigurationController,
    ConfigurationControllerView, ConfigurationDevice, ConfigurationDeviceView,
};
use crate::ftc_proto::hardware::{
    attribute, attributes_view, FromXMLTag, MakeOwnedXMLTagAttributes, XmlAttribute,
    XmlAttributeView, XmlItem, XmlItemView,
};
use crate::text::{chars_of, decimal_chars, decimal_string, parse_u32, spec_parse_unsigned};

verus! {

/// Our Control Hub Portal, parent of [LynxModule] (Control and Expansion hub) and [ServoHub]
#[derive(Debug, Clone, PartialEq, Eq)]
pub struct LynxUSBDevice {
    pub controller_meta: ConfigurationController,
    pub parent_module_address: u32,
    pub lynx_modules: Vec<LynxModule>,
    pub servo_hubs: Vec<ServoHub>,
}

/// The mathematical value of a [LynxUSBDevice].
pub struct LynxUSBDeviceView {
    pub controller_meta: ConfigurationControllerView,
    pub parent_module_address: u32,
    pub lynx_modules: Seq<LynxModuleView>,
    pub servo_hubs: Seq<ServoHubView>,
}

/// The views of a list of modules.
pub open spec fn modules_view(ms: Seq<LynxModule>) -> Seq<LynxModuleView> {
    ms.map_values(|m: LynxModule| m@)
}

/// The views of a list of servo hubs.
pub open spec fn hubs_view(hs: Seq<ServoHub>) -> Seq<ServoHubView> {
    hs.map_values(|h: ServoHub| h@)
}

impl View for LynxUSBDevice {
    type V = LynxUSBDeviceView;

    open spec fn view(&self) -> LynxUSBDeviceView {
        LynxUSBDeviceView {
            controller_meta: self.controller_meta@,
            parent_module_address: self.parent_module_address,
            lynx_modules: modules_view(self.lynx_modules@),
            servo_hubs: hubs_view(self.servo_hubs@),
        }
    }
}

/// The attributes a USB device is written with: those of its controller, then
/// `parentModuleAddress`.
pub open spec fn usb_device_attributes(u: LynxUSBDeviceView) -> Seq<XmlAttributeView> {
    controller_attributes(u.controller_meta).push(
        XmlAttributeView {
            name: "parentModuleAddress"@,
            value: decimal_chars(u.parent_module_address as nat),
        },
    )
}

impl MakeOwnedXMLTagAttributes for LynxUSBDevice {
    fn make_owned_attributes(&self) -> (attributes: Vec<XmlAttribute>)
        ensures
            attributes_view(attributes@) == usb_device_attributes(self@),
    {
        let mut attributes = self.controller_meta.make_owned_attributes();
        attributes.push(attribute("parentModuleAddress", decimal_string(self.parent_module_address)));
        assert(attributes_view(attributes@) =~= usb_device_attributes(self@));
        attributes
    }
}

/// The USB device a `LynxUsbDevice` opening tag describes: its controller must read and
/// its last `parentModuleAddress` attribute must be a `u32`; it has no modules or hubs yet.
pub open spec fn spec_usb_device_from_tag(item: XmlItemView) -> Option<LynxUSBDeviceView> {
    match spec_controller_from_tag(item) {
        Some(c) => if is_start_named(item, "LynxUsbDevice"@) {
            match scan_text(item_attributes(item), "parentModuleAddress"@) {
                Some(text) => match spec_parse_unsigned(text, u32::MAX as nat) {
                    Some(a) => Some(
                        LynxUSBDeviceView {
                            controller_meta: c,
                            parent_module_address: a as u32,
                            lynx_modules: Seq::empty(),
                            servo_hubs: Seq::empty(),
                        },
                    ),
                    None => None,
                },
                None => None,
            }
        } else {
            None
        },
        None => None,
    }
}

/// The view of an optional USB device.
pub open spec fn opt_usb_view(o: Option<LynxUSBDevice>) -> Option<LynxUSBDeviceView> {
    match o {
        Some(u) => Some(u@),
        None => None,
    }
}

impl FromXMLTag for LynxUSBDevice {
    fn from_xml_tag(event: &XmlItem) -> (r: Option<Self>)
        ensures
            opt_usb_view(r) == spec_usb_device_from_tag(event@),
    {
        let controller_meta = match ConfigurationController::from_xml_tag(event) {
            Some(c) => c,
            None => {
                return None;
            },
        };
        if !start_named(event, "LynxUsbDevice") {
            return None;
        }
        match event {
            XmlItem::Start { attributes, .. } => match attribute_text(
                attributes,
                "parentModuleAddress",
            ) {
                Some(text) => match parse_u32(&chars_of(text.as_str())) {
                    Some(parent_module_address) => {
                        let r = LynxUSBDevice {
                            controller_meta,
                            parent_module_address,
                            lynx_modules: Vec::new(),
                            servo_hubs: Vec::new(),
                        };
                        assert(r@.lynx_modules =~= Seq::<LynxModuleView>::empty());
                        assert(r@.servo_hubs =~= Seq::<ServoHubView>::empty());
                        Some(r)
                    },
                    None => None,
                },
                None => None,
            },
            _ => None,
        }
    }
}

/// Our tag which is actually the parent of our motors, servos, ...
///
/// Used for Control and Expansion hubs
#[derive(Debug, Clone, PartialEq, Eq)]
pub struct LynxModule {
    pub controller_meta: ConfigurationController,
    pub servos: Vec<ConfigurationDevice>,
    pub motors: Vec<ConfigurationDevice>,
    pub i2c_devices: Vec<ConfigurationDevice>,
    pub digital_devices: Vec<ConfigurationDevice>,
    pub pwm_outputs: Vec<ConfigurationDevice>,
    pub analog_inputs: Vec<ConfigurationDevice>,
}

/// The mathematical value of a [LynxModule].
pub struct LynxModuleView {
    pub controller_meta: ConfigurationControllerView,
    pub servos: Seq<ConfigurationDeviceView>,
    pub motors: Seq<ConfigurationDeviceView>,
    pub i2c_devices: Seq<ConfigurationDeviceView>,
    pub digital_devices: Seq<ConfigurationDeviceView>,
    pub pwm_outputs: Seq<ConfigurationDeviceView>,
    pub analog_inputs: Seq<ConfigurationDeviceView>,
}

impl View for LynxModule {
    type V = LynxModuleView;

    open spec fn view(&self) -> LynxModuleView {
        LynxModuleView {
            controller_meta: self.controller_meta@,
            servos: devices_view(self.servos@),
            motors: devices_view(self.motors@),
            i2c_devices: devices_view(self.i2c_devices@),
            digital_devices: devices_view(self.digital_devices@),
            pwm_outputs: devices_view(self.pwm_outputs@),
            analog_inputs: devices_view(self.analog_inputs@),
        }
    }
}

/// All devices of a module: servos, motors, I2C devices, digital devices, PWM outputs and
/// analog inputs, in that order.
pub open spec fn spec_all_devices(m: LynxModuleView) -> Seq<ConfigurationDeviceView> {
    m.servos + m.motors + m.i2c_devices + m.digital_devices + m.pwm_outputs + m.analog_inputs
}

impl LynxModule {
    /// Returns a list of all devices (concatenation of servos, motors, i2c_devices, ...)
    ///
    /// Leaves the devices in self empty
    pub fn all_devices(&mut self) -> (devices: Vec<ConfigurationDevice>)
        ensures
            devices_view(devices@) == spec_all_devices(old(self)@),
            final(self).controller_meta == old(self).controller_meta,
            final(self).servos@.len() == 0,
            final(self).motors@.len() == 0,
            final(self).i2c_devices@.len() == 0,
            final(self).digital_devices@.len() == 0,
            final(self).pwm_outputs@.len() == 0,
            final(self).analog_inputs@.len() == 0,
    {
        let mut devices = Vec::new();
        devices.append(&mut self.servos);
        devices.append(&mut self.motors);
        devices.append(&mut self.i2c_devices);
        devices.append(&mut self.digital_devices);
        devices.append(&mut self.pwm_outputs);
        devices.append(&mut self.analog_inputs);
        proof {
            let o = old(self);
            assert(devices@ =~= o.servos@ + o.motors@ + o.i2c_devices@ + o.digital_devices@
                + o.pwm_outputs@ + o.analog_inputs@);
            assert(devices_view(devices@) =~= spec_all_devices(o@));
        }
        devices
    }
}

impl MakeOwnedXMLTagAttributes for LynxModule {
    fn make_owned_attributes(&self) -> (attributes: Vec<XmlAttribute>)
        ensures
            attributes_view(attributes@) == controller_attributes(self@.controller_meta),
    {
        self.controller_meta.make_owned_attributes()
    }
}

/// The module a `LynxModule` opening tag describes: its controller must read; it has no
/// devices yet.
pub open spec fn spec_module_from_tag(item: XmlItemView) -> Option<LynxModuleView> {
    match spec_controller_from_tag(item) {
        Some(c) => if is_start_named(item, "LynxModule"@) {
            Some(
                LynxModuleView {
                    controller_meta: c,
                    servos: Seq::empty(),
                    motors: Seq::empty(),
                    i2c_devices: Seq::empty(),
                    digital_devices: Seq::empty(),
                    pwm_outputs: Seq::empty(),
                    analog_inputs: Seq::empty(),
                },
            )
        } else {
            None
        },
        None => None,
    }
}

/// The view of an optional module.
pub open spec fn opt_module_view(o: Option<LynxModule>) -> Option<LynxModuleView> {
    match o {
        Some(m) => Some(m@),
        None => None,
    }
}

impl FromXMLTag for LynxModule {
    fn from_xml_tag(event: &XmlItem) -> (r: Option<Self>)
        ensures
            opt_module_view(r) == spec_module_from_tag(event@),
    {
        let controller_meta = match ConfigurationController::from_xml_tag(event) {
            Some(c) => c,
            None => {
                return None;
            },
        };
        if !start_named(event, "LynxModule") {
            return None;
        }
        let m = LynxModule {
            controller_meta,
            analog_inputs: Vec::new(),
            pwm_outputs: Vec::new(),
            digital_devices: Vec::new(),
            i2c_devices: Vec::new(),
            motors: Vec::new(),
            servos: Vec::new(),
        };
        assert(m@.servos =~= Seq::<ConfigurationDeviceView>::empty());
        assert(m@.motors =~= Seq::<ConfigurationDeviceView>::empty());
        assert(m@.i2c_devices =~= Seq::<ConfigurationDeviceView>::empty());
        assert(m@.digital_devices =~= Seq::<ConfigurationDeviceView>::empty());
        assert(m@.pwm_outputs =~= Seq::<ConfigurationDeviceView>::empty());
        assert(m@.analog_inputs =~= Seq::<ConfigurationDeviceView>::empty());
        Some(m)
    }
}

/// External REV servo hub,
/// see REV-11-1855
#[derive(Debug, Clone, PartialEq, Eq)]
pub struct ServoHub {
    pub controller_meta: ConfigurationController,
    pub servos: Vec<ConfigurationDevice>,
}

/// The mathematical value of a [ServoHub].
pub struct ServoHubView {
    pub controller_meta: ConfigurationControllerView,
    pub servos: Seq<ConfigurationDeviceView>,
}

impl View for ServoHub {
    type V = ServoHubView;

    open spec fn view(&self) -> ServoHubView {
        ServoHubView { controller_meta: self.controller_meta@, servos: devices_view(self.servos@) }
    }
}

impl MakeOwnedXMLTagAttributes for ServoHub {
    fn make_owned_attributes(&self) -> (attributes: Vec<XmlAttribute>)
        ensures
            attributes_view(attributes@) == controller_attributes(self@.controller_meta),
    {
        self.controller_meta.make_owned_attributes()
    }
}

/// The hub a `ServoHub` opening tag describes: its controller must read; it has no
/// servos yet.
pub open spec fn spec_hub_from_tag(item: XmlItemView) -> Option<ServoHubView> {
    match spec_controller_from_tag(item) {
        Some(c) => if is_start_named(item, "ServoHub"@) {
            Some(ServoHubView { controller_meta: c, servos: Seq::empty() })
        } else {
            None
        },
        None => None,
    }
}

/// The view of an optional hub.
pub open spec fn opt_hub_view(o: Option<ServoHub>) -> Option<ServoHubView> {
    match o {
        Some(h) => Some(h@),
        None => None,
    }
}

impl FromXMLTag for ServoHub {
    fn from_xml_tag(event: &XmlItem) -> (r: Option<Self>)
        ensures
            opt_hub_view(r) == spec_hub_from_tag(event@),
    {
        let controller_meta = match ConfigurationController::from_xml_tag(event) {
            Some(c) => c,
            None => {
                return None;
            },
        };
        if !start_named(event, "ServoHub") {
            return None;
        }
        let h = ServoHub { controller_meta, servos: Vec::new() };
        assert(h@.servos =~= Seq::<ConfigurationDeviceView>::empty());
        Some(h)
    }
}

} // verus!
