//! Contains the root XML tags for the robot hardware configuration, and the devices and
//! controllers that the other tags are made of.

use vstd::prelude::*;

use crate::ftc_proto::hardware::device::{
    device_types_view, DeviceFlavor, HardwareDeviceType, HardwareDeviceTypeView,
};
use crate::ftc_proto::hardware::lynx::{LynxUSBDevice, LynxUSBDeviceView};
use crate::ftc_proto::hardware::{
    attribute, attributes_view, FromXMLTag, MakeOwnedXMLTagAttributes, MakeXMLTag,
    MakeXMLTagAttributes, XmlAttribute, XmlAttributeView, XmlItem, XmlItemView,
};
use crate::text::{
    bool_chars, bool_string, contains_string, decimal_chars, decimal_string, opt_chars,
    parse_bool, parse_u32, spec_parse_bool, spec_parse_unsigned, str_eq,
};

verus! {

/// Possible XML tags used in the XML document.
///
/// Note that some devices (vendor specific) are also sent over by the server.
#[derive(Debug, Clone, PartialEq, Eq)]
pub enum ConfigurationXMLTag {
    Accelerometer,
    AdafruitColorSensor,
    ColorSensor,
    Compass,
    EthernetOverUSBDevice,
    Gyroscope,
    IRSeeker,
    IRSeekerV3,
    LightSensor,
    LynxColorSensor,
    LynxModule,
    LynxUSBDevice,
    Nothing,
    PulseWidthDevice,
    Robot,
    ServoHub,
    UltrasonicSensor,
    Unknown,
    Webcam,
    /// Captures other tags, specifically ones provided in the hardware device types
    Other(String),
}

// ---------------------------------------------------------------------------------------
// Reading attributes
// ---------------------------------------------------------------------------------------

/// The value of the last attribute named `key`, if any.
pub open spec fn scan_text(attrs: Seq<XmlAttributeView>, key: Seq<char>) -> Option<Seq<char>>
    decreases attrs.len(),
{
    if attrs.len() == 0 {
        None
    } else if attrs.last().name == key {
        Some(attrs.last().value)
    } else {
        scan_text(attrs.drop_last(), key)
    }
}

/// The attributes named `key` read as `u32`s: `None` if one of them is not a number
/// `str::parse::<u32>` accepts, else the value of the last one, if any.
pub open spec fn scan_u32(attrs: Seq<XmlAttributeView>, key: Seq<char>) -> Option<Option<u32>>
    decreases attrs.len(),
{
    if attrs.len() == 0 {
        Some(None)
    } else {
        match scan_u32(attrs.drop_last(), key) {
            None => None,
            Some(prev) => if attrs.last().name == key {
                match spec_parse_unsigned(attrs.last().value, u32::MAX as nat) {
                    Some(v) => Some(Some(v as u32)),
                    None => None,
                }
            } else {
                Some(prev)
            },
        }
    }
}

/// The attributes named `key` read as `bool`s: `None` if one of them is neither `true` nor
/// `false`, else the value of the last one, if any.
pub open spec fn scan_bool(attrs: Seq<XmlAttributeView>, key: Seq<char>) -> Option<Option<bool>>
    decreases attrs.len(),
{
    if attrs.len() == 0 {
        Some(None)
    } else {
        match scan_bool(attrs.drop_last(), key) {
            None => None,
            Some(prev) => if attrs.last().name == key {
                match spec_parse_bool(attrs.last().value) {
                    Some(v) => Some(Some(v)),
                    None => None,
                }
            } else {
                Some(prev)
            },
        }
    }
}

/// Finds the value of the last attribute named `key`.
pub fn attribute_text(attrs: &Vec<XmlAttribute>, key: &str) -> (r: Option<String>)
    ensures
        opt_chars(r) == scan_text(attributes_view(attrs@), key@),
{
    let ghost av = attributes_view(attrs@);
    let mut found: Option<String> = None;
    let mut i: usize = 0;
    while i < attrs.len()
        invariant
            i <= attrs@.len(),
            av == attributes_view(attrs@),
            opt_chars(found) == scan_text(av.take(i as int), key@),
        decreases attrs@.len() - i,
    {
        assert(av.take(i + 1).drop_last() =~= av.take(i as int));
        if str_eq(attrs[i].name.as_str(), key) {
            found = Some(attrs[i].value.clone());
        }
        i += 1;
    }
    assert(av.take(attrs@.len() as int) =~= av);
    found
}

/// Reads the attributes named `key` as `u32`s (see [scan_u32]).
pub fn attribute_u32(attrs: &Vec<XmlAttribute>, key: &str) -> (r: Option<Option<u32>>)
    ensures
        r == scan_u32(attributes_view(attrs@), key@),
{
    let ghost av = attributes_view(attrs@);
    let mut found: Option<u32> = None;
    let mut i: usize = 0;
    while i < attrs.len()
        invariant
            i <= attrs@.len(),
            av == attributes_view(attrs@),
            scan_u32(av.take(i as int), key@) == Some(found),
        decreases attrs@.len() - i,
    {
        assert(av.take(i + 1).drop_last() =~= av.take(i as int));
        if str_eq(attrs[i].name.as_str(), key) {
            let chars = crate::text::chars_of(attrs[i].value.as_str());
            match parse_u32(&chars) {
                Some(v) => {
                    found = Some(v);
                },
                None => {
                    proof {
                        lemma_scan_u32_stuck(av, key@, i as int + 1);
                    }
                    assert(av.take(attrs@.len() as int) =~= av);
                    return None;
                },
            }
        }
        i += 1;
    }
    assert(av.take(attrs@.len() as int) =~= av);
    Some(found)
}

/// Once an attribute fails to read as a number, so does every longer prefix.
proof fn lemma_scan_u32_stuck(attrs: Seq<XmlAttributeView>, key: Seq<char>, k: int)
    requires
        0 <= k <= attrs.len(),
        scan_u32(attrs.take(k), key) is None,
    ensures
        scan_u32(attrs, key) is None,
    decreases attrs.len() - k,
{
    if k < attrs.len() {
        assert(attrs.take(k + 1).drop_last() =~= attrs.take(k));
        lemma_scan_u32_stuck(attrs, key, k + 1);
    } else {
        assert(attrs.take(k) =~= attrs);
    }
}

/// Once an attribute fails to read as a boolean, so does every longer prefix.
proof fn lemma_scan_bool_stuck(attrs: Seq<XmlAttributeView>, key: Seq<char>, k: int)
    requires
        0 <= k <= attrs.len(),
        scan_bool(attrs.take(k), key) is None,
    ensures
        scan_bool(attrs, key) is None,
    decreases attrs.len() - k,
{
    if k < attrs.len() {
        assert(attrs.take(k + 1).drop_last() =~= attrs.take(k));
        lemma_scan_bool_stuck(attrs, key, k + 1);
    } else {
        assert(attrs.take(k) =~= attrs);
    }
}

/// Reads the attributes named `key` as `bool`s (see [scan_bool]).
pub fn attribute_bool(attrs: &Vec<XmlAttribute>, key: &str) -> (r: Option<Option<bool>>)
    ensures
        r == scan_bool(attributes_view(attrs@), key@),
{
    let ghost av = attributes_view(attrs@);
    let mut found: Option<bool> = None;
    let mut i: usize = 0;
    while i < attrs.len()
        invariant
            i <= attrs@.len(),
            av == attributes_view(attrs@),
            scan_bool(av.take(i as int), key@) == Some(found),
        decreases attrs@.len() - i,
    {
        assert(av.take(i + 1).drop_last() =~= av.take(i as int));
        if str_eq(attrs[i].name.as_str(), key) {
            let chars = crate::text::chars_of(attrs[i].value.as_str());
            match parse_bool(&chars) {
                Some(v) => {
                    found = Some(v);
                },
                None => {
                    proof {
                        lemma_scan_bool_stuck(av, key@, i as int + 1);
                    }
                    return None;
                },
            }
        }
        i += 1;
    }
    assert(av.take(attrs@.len() as int) =~= av);
    Some(found)
}

// ---------------------------------------------------------------------------------------
// Devices and controllers
// ---------------------------------------------------------------------------------------

/// Generic data for almost every device in our configuration
#[derive(Debug, Clone, PartialEq, Eq)]
pub struct ConfigurationDevice {
    /// Always set when deserializing, needs to be set when serializing
    pub xml_tag_name: String,
    pub name: Option<String>,
    pub port: Option<u32>,
    pub bus: Option<u32>,
    /// Not actually de/serialized, but useful to save
    pub device_type: DeviceFlavor,
}

/// The mathematical value of a [ConfigurationDevice].
pub struct ConfigurationDeviceView {
    pub xml_tag_name: Seq<char>,
    pub name: Option<Seq<char>>,
    pub port: Option<u32>,
    pub bus: Option<u32>,
    pub device_type: DeviceFlavor,
}

impl View for ConfigurationDevice {
    type V = ConfigurationDeviceView;

    open spec fn view(&self) -> ConfigurationDeviceView {
        ConfigurationDeviceView {
            xml_tag_name: self.xml_tag_name@,
            name: opt_chars(self.name),
            port: self.port,
            bus: self.bus,
            device_type: self.device_type,
        }
    }
}

/// The views of a list of devices.
pub open spec fn devices_view(ds: Seq<ConfigurationDevice>) -> Seq<ConfigurationDeviceView> {
    ds.map_values(|d: ConfigurationDevice| d@)
}

/// An optional attribute: none, or one with the given name and value.
pub open spec fn optional_attribute(key: Seq<char>, value: Option<Seq<char>>) -> Seq<
    XmlAttributeView,
> {
    match value {
        Some(v) => seq![XmlAttributeView { name: key, value: v }],
        None => Seq::empty(),
    }
}

/// An optional number attribute, written in decimal.
pub open spec fn optional_number_attribute(key: Seq<char>, value: Option<u32>) -> Seq<
    XmlAttributeView,
> {
    match value {
        Some(v) => seq![XmlAttributeView { name: key, value: decimal_chars(v as nat) }],
        None => Seq::empty(),
    }
}

/// The attributes a device is written with: its name, port and bus, those it has.
pub open spec fn device_attributes(d: ConfigurationDeviceView) -> Seq<XmlAttributeView> {
    optional_attribute("name"@, d.name) + optional_number_attribute("port"@, d.port)
        + optional_number_attribute("bus"@, d.bus)
}

impl MakeOwnedXMLTagAttributes for ConfigurationDevice {
    fn make_owned_attributes(&self) -> (attributes: Vec<XmlAttribute>)
        ensures
            attributes_view(attributes@) == device_attributes(self@),
    {
        let mut attributes: Vec<XmlAttribute> = Vec::new();
        if let Some(name) = &self.name {
            attributes.push(attribute("name", name.clone()));
        }
        if let Some(port) = self.port {
            attributes.push(attribute("port", decimal_string(port)));
        }
        if let Some(bus) = self.bus {
            attributes.push(attribute("bus", decimal_string(bus)));
        }
        assert(attributes_view(attributes@) =~= device_attributes(self@));
        attributes
    }
}

/// Whether a device type is written with `tag`, as its own tag or as one of its aliases.
pub open spec fn type_matches(t: HardwareDeviceTypeView, tag: Seq<char>) -> bool {
    t.xml_tag == tag || t.xml_tag_aliases.contains(tag)
}

/// The flavor of the first device type written with `tag`, if any.
pub open spec fn first_matching_flavor(types: Seq<HardwareDeviceTypeView>, tag: Seq<char>) -> Option<
    DeviceFlavor,
>
    decreases types.len(),
{
    if types.len() == 0 {
        None
    } else if type_matches(types[0], tag) {
        Some(types[0].flavor)
    } else {
        first_matching_flavor(types.drop_first(), tag)
    }
}

/// The device an opening tag describes, given the known device types: the tag must be that
/// of a known type (the first such type gives the flavor), and each `port` and `bus`
/// attribute must be a number.
pub open spec fn spec_device_from_tag(item: XmlItemView, types: Seq<HardwareDeviceTypeView>) -> Option<
    ConfigurationDeviceView,
> {
    match item {
        XmlItemView::Start { name, attributes } => match first_matching_flavor(types, name) {
            Some(flavor) => match (scan_u32(attributes, "port"@), scan_u32(attributes, "bus"@)) {
                (Some(port), Some(bus)) => Some(
                    ConfigurationDeviceView {
                        xml_tag_name: name,
                        name: scan_text(attributes, "name"@),
                        port,
                        bus,
                        device_type: flavor,
                    },
                ),
                _ => None,
            },
            None => None,
        },
        _ => None,
    }
}

/// Finds the flavor of the first device type written with `tag`.
pub fn matching_flavor(types: &Vec<HardwareDeviceType>, tag: &String) -> (r: Option<DeviceFlavor>)
    ensures
        r == first_matching_flavor(device_types_view(types@), tag@),
{
    let ghost tv = device_types_view(types@);
    let mut i: usize = 0;
    assert(tv.skip(0) =~= tv);
    while i < types.len()
        invariant
            i <= types@.len(),
            tv == device_types_view(types@),
            first_matching_flavor(tv, tag@) == first_matching_flavor(tv.skip(i as int), tag@),
        decreases types@.len() - i,
    {
        let t = &types[i];
        assert(tv.skip(i as int)[0] == t@);
        assert(tv.skip(i as int).drop_first() =~= tv.skip(i + 1));
        if t.xml_tag == *tag || contains_string(&t.xml_tag_aliases, tag) {
            return Some(t.flavor);
        }
        i += 1;
    }
    assert(tv.skip(i as int).len() == 0);
    None
}

impl ConfigurationDevice {
    /// Tries to read a device from its opening tag, given the known device types.
    pub fn from_xml_tag(event: &XmlItem, device_types: &Vec<HardwareDeviceType>) -> (r: Option<
        Self,
    >)
        ensures
            r matches Some(d) ==> spec_device_from_tag(event@, device_types_view(device_types@))
                == Some(d@),
            r is None ==> spec_device_from_tag(event@, device_types_view(device_types@)) is None,
    {
        match event {
            XmlItem::Start { name: tag_name, attributes } => {
                match matching_flavor(device_types, tag_name) {
                    Some(flavor) => {
                        let port = attribute_u32(attributes, "port");
                        let bus = attribute_u32(attributes, "bus");
                        match (port, bus) {
                            (Some(port), Some(bus)) => Some(
                                ConfigurationDevice {
                                    xml_tag_name: tag_name.clone(),
                                    name: attribute_text(attributes, "name"),
                                    port,
                                    bus,
                                    device_type: flavor,
                                },
                            ),
                            _ => None,
                        }
                    },
                    None => None,
                }
            },
            _ => None,
        }
    }
}

/// Generic data for almost every device which can have child devices
#[derive(Debug, Clone, PartialEq, Eq)]
pub struct ConfigurationController {
    pub device_meta: ConfigurationDevice,
    pub serial_number: Option<String>,
}

/// The mathematical value of a [ConfigurationController].
pub struct ConfigurationControllerView {
    pub device_meta: ConfigurationDeviceView,
    pub serial_number: Option<Seq<char>>,
}

impl View for ConfigurationController {
    type V = ConfigurationControllerView;

    open spec fn view(&self) -> ConfigurationControllerView {
        ConfigurationControllerView {
            device_meta: self.device_meta@,
            serial_number: opt_chars(self.serial_number),
        }
    }
}

/// The attributes a controller is written with: those of its device, then its serial
/// number if it has one.
pub open spec fn controller_attributes(c: ConfigurationControllerView) -> Seq<XmlAttributeView> {
    device_attributes(c.device_meta) + optional_attribute("serialNumber"@, c.serial_number)
}

impl MakeOwnedXMLTagAttributes for ConfigurationController {
    fn make_owned_attributes(&self) -> (attributes: Vec<XmlAttribute>)
        ensures
            attributes_view(attributes@) == controller_attributes(self@),
    {
        let mut attributes = self.device_meta.make_owned_attributes();
        if let Some(serial_number) = &self.serial_number {
            attributes.push(attribute("serialNumber", serial_number.clone()));
        }
        assert(attributes_view(attributes@) =~= controller_attributes(self@));
        attributes
    }
}

/// The controller an opening tag describes: any tag name, with each `port` and `bus`
/// attribute a number; its device flavor is `BuiltIn`.
pub open spec fn spec_controller_from_tag(item: XmlItemView) -> Option<ConfigurationControllerView> {
    match item {
        XmlItemView::Start { name, attributes } => match (
            scan_u32(attributes, "port"@),
            scan_u32(attributes, "bus"@),
        ) {
            (Some(port), Some(bus)) => Some(
                ConfigurationControllerView {
                    device_meta: ConfigurationDeviceView {
                        xml_tag_name: name,
                        name: scan_text(attributes, "name"@),
                        port,
                        bus,
                        device_type: DeviceFlavor::BuiltIn,
                    },
                    serial_number: scan_text(attributes, "serialNumber"@),
                },
            ),
            _ => None,
        },
        _ => None,
    }
}

/// The view of an optional controller.
pub open spec fn opt_controller_view(o: Option<ConfigurationController>) -> Option<
    ConfigurationControllerView,
> {
    match o {
        Some(c) => Some(c@),
        None => None,
    }
}

impl FromXMLTag for ConfigurationController {
    fn from_xml_tag(event: &XmlItem) -> (r: Option<Self>)
        ensures
            opt_controller_view(r) == spec_controller_from_tag(event@),
    {
        match event {
            XmlItem::Start { name: tag_name, attributes } => {
                let port = attribute_u32(attributes, "port");
                let bus = attribute_u32(attributes, "bus");
                match (port, bus) {
                    (Some(port), Some(bus)) => Some(
                        ConfigurationController {
                            device_meta: ConfigurationDevice {
                                xml_tag_name: tag_name.clone(),
                                name: attribute_text(attributes, "name"),
                                port,
                                bus,
                                device_type: DeviceFlavor::BuiltIn,
                            },
                            serial_number: attribute_text(attributes, "serialNumber"),
                        },
                    ),
                    _ => None,
                }
            },
            _ => None,
        }
    }
}

/// Whether an item is an opening tag with the given name.
pub open spec fn is_start_named(item: XmlItemView, tag: Seq<char>) -> bool {
    item matches XmlItemView::Start { name, .. } && name == tag
}

/// The attributes of an opening tag (none for other items).
pub open spec fn item_attributes(item: XmlItemView) -> Seq<XmlAttributeView> {
    match item {
        XmlItemView::Start { attributes, .. } => attributes,
        _ => Seq::empty(),
    }
}

/// Whether an item is an opening tag with the given name.
pub fn start_named(event: &XmlItem, tag: &str) -> (r: bool)
    ensures
        r == is_start_named(event@, tag@),
{
    match event {
        XmlItem::Start { name, .. } => str_eq(name.as_str(), tag),
        _ => false,
    }
}

// ---------------------------------------------------------------------------------------
// Webcam and ethernet over USB
// ---------------------------------------------------------------------------------------

/// A configuration for a webcam, a child of [Robot]
#[derive(Debug, Clone, PartialEq, Eq)]
pub struct Webcam {
    pub controller_meta: ConfigurationController,
    /// False by default
    pub auto_open: bool,
}

/// The mathematical value of a [Webcam].
pub struct WebcamView {
    pub controller_meta: ConfigurationControllerView,
    pub auto_open: bool,
}

impl View for Webcam {
    type V = WebcamView;

    open spec fn view(&self) -> WebcamView {
        WebcamView { controller_meta: self.controller_meta@, auto_open: self.auto_open }
    }
}

/// The attributes a webcam is written with: those of its controller, then `autoOpen`.
pub open spec fn webcam_attributes(w: WebcamView) -> Seq<XmlAttributeView> {
    controller_attributes(w.controller_meta).push(
        XmlAttributeView { name: "autoOpen"@, value: bool_chars(w.auto_open) },
    )
}

impl MakeOwnedXMLTagAttributes for Webcam {
    fn make_owned_attributes(&self) -> (attributes: Vec<XmlAttribute>)
        ensures
            attributes_view(attributes@) == webcam_attributes(self@),
    {
        let mut attributes = self.controller_meta.make_owned_attributes();
        attributes.push(attribute("autoOpen", bool_string(self.auto_open)));
        assert(attributes_view(attributes@) =~= webcam_attributes(self@));
        attributes
    }
}

/// The webcam a `Webcam` opening tag describes: its controller must read, and each
/// `autoOpen` attribute must be `true` or `false` (the last one counts; false without one).
pub open spec fn spec_webcam_from_tag(item: XmlItemView) -> Option<WebcamView> {
    match spec_controller_from_tag(item) {
        Some(c) => if is_start_named(item, "Webcam"@) {
            match scan_bool(item_attributes(item), "autoOpen"@) {
                Some(a) => Some(
                    WebcamView {
                        controller_meta: c,
                        auto_open: match a {
                            Some(b) => b,
                            None => false,
                        },
                    },
                ),
                None => None,
            }
        } else {
            None
        },
        None => None,
    }
}

/// The view of an optional webcam.
pub open spec fn opt_webcam_view(o: Option<Webcam>) -> Option<WebcamView> {
    match o {
        Some(w) => Some(w@),
        None => None,
    }
}

impl FromXMLTag for Webcam {
    fn from_xml_tag(event: &XmlItem) -> (r: Option<Self>)
        ensures
            opt_webcam_view(r) == spec_webcam_from_tag(event@),
    {
        let controller_meta = match ConfigurationController::from_xml_tag(event) {
            Some(c) => c,
            None => {
                return None;
            },
        };
        if !start_named(event, "Webcam") {
            return None;
        }
        match event {
            XmlItem::Start { attributes, .. } => match attribute_bool(attributes, "autoOpen") {
                Some(a) => Some(
                    Webcam {
                        controller_meta,
                        auto_open: match a {
                            Some(b) => b,
                            None => false,
                        },
                    },
                ),
                None => None,
            },
            _ => None,
        }
    }
}

/// A configuration for ethernet over usb, a child of [Robot]
///
/// The IP address is held as the text the document gives; the network types of the
/// standard library, which check and normalise it, stay with the program around this
/// library.
#[derive(Debug, Clone, PartialEq, Eq)]
pub struct EthernetOverUsbConfiguration {
    pub controller_meta: ConfigurationController,
    pub ip_address: String,
}

/// The mathematical value of an [EthernetOverUsbConfiguration].
pub struct EthernetOverUsbConfigurationView {
    pub controller_meta: ConfigurationControllerView,
    pub ip_address: Seq<char>,
}

impl View for EthernetOverUsbConfiguration {
    type V = EthernetOverUsbConfigurationView;

    open spec fn view(&self) -> EthernetOverUsbConfigurationView {
        EthernetOverUsbConfigurationView {
            controller_meta: self.controller_meta@,
            ip_address: self.ip_address@,
        }
    }
}

/// The attributes an ethernet configuration is written with: those of its controller, then
/// `ipAddress`.
pub open spec fn ethernet_attributes(e: EthernetOverUsbConfigurationView) -> Seq<
    XmlAttributeView,
> {
    controller_attributes(e.controller_meta).push(
        XmlAttributeView { name: "ipAddress"@, value: e.ip_address },
    )
}

impl MakeOwnedXMLTagAttributes for EthernetOverUsbConfiguration {
    fn make_owned_attributes(&self) -> (attributes: Vec<XmlAttribute>)
        ensures
            attributes_view(attributes@) == ethernet_attributes(self@),
    {
        let mut attributes = self.controller_meta.make_owned_attributes();
        attributes.push(attribute("ipAddress", self.ip_address.clone()));
        assert(attributes_view(attributes@) =~= ethernet_attributes(self@));
        attributes
    }
}

/// The configuration an `EthernetOverUsbConfiguration` opening tag describes: its
/// controller must read and it must have an `ipAddress` attribute (the last one counts).
pub open spec fn spec_ethernet_from_tag(item: XmlItemView) -> Option<
    EthernetOverUsbConfigurationView,
> {
    match spec_controller_from_tag(item) {
        Some(c) => if is_start_named(item, "EthernetOverUsbConfiguration"@) {
            match scan_text(item_attributes(item), "ipAddress"@) {
                Some(ip) => Some(
                    EthernetOverUsbConfigurationView { controller_meta: c, ip_address: ip },
                ),
                None => None,
            }
        } else {
            None
        },
        None => None,
    }
}

/// The view of an optional ethernet configuration.
pub open spec fn opt_ethernet_view(o: Option<EthernetOverUsbConfiguration>) -> Option<
    EthernetOverUsbConfigurationView,
> {
    match o {
        Some(e) => Some(e@),
        None => None,
    }
}

impl FromXMLTag for EthernetOverUsbConfiguration {
    fn from_xml_tag(event: &XmlItem) -> (r: Option<Self>)
        ensures
            opt_ethernet_view(r) == spec_ethernet_from_tag(event@),
    {
        let controller_meta = match ConfigurationController::from_xml_tag(event) {
            Some(c) => c,
            None => {
                return None;
            },
        };
        if !start_named(event, "EthernetOverUsbConfiguration") {
            return None;
        }
        match event {
            XmlItem::Start { attributes, .. } => match attribute_text(attributes, "ipAddress") {
                Some(ip_address) => Some(EthernetOverUsbConfiguration { controller_meta, ip_address }),
                None => None,
            },
            _ => None,
        }
    }
}

// ---------------------------------------------------------------------------------------
// The robot
// ---------------------------------------------------------------------------------------

/// The XML robot tag, the root tag of our configuration
#[derive(Debug, Clone, PartialEq, Eq)]
pub struct Robot {
    /// The tag's `type` attribute: optional, sometimes set to "FirstInspires-FTC"
    pub robot_type: Option<String>,
    /// Parent of our Control and Expansion hub objects
    pub lynx_usb_device: Option<LynxUSBDevice>,
    pub webcam: Option<Webcam>,
    pub ethernet_over_usb_device: Option<EthernetOverUsbConfiguration>,
}

/// The mathematical value of a [Robot].
pub struct RobotView {
    pub robot_type: Option<Seq<char>>,
    pub lynx_usb_device: Option<LynxUSBDeviceView>,
    pub webcam: Option<WebcamView>,
    pub ethernet_over_usb_device: Option<EthernetOverUsbConfigurationView>,
}

impl View for Robot {
    type V = RobotView;

    open spec fn view(&self) -> RobotView {
        RobotView {
            robot_type: opt_chars(self.robot_type),
            lynx_usb_device: match self.lynx_usb_device {
                Some(l) => Some(l@),
                None => None,
            },
            webcam: opt_webcam_view(self.webcam),
            ethernet_over_usb_device: opt_ethernet_view(self.ethernet_over_usb_device),
        }
    }
}

/// The attributes of the robot tag: its type, if it has one.
pub open spec fn robot_attributes(r: RobotView) -> Seq<XmlAttributeView> {
    optional_attribute("type"@, r.robot_type)
}

impl MakeXMLTagAttributes for Robot {
    fn make_attributes(&self) -> (attributes: Vec<XmlAttribute>)
        ensures
            attributes_view(attributes@) == robot_attributes(self@),
    {
        let mut attributes: Vec<XmlAttribute> = Vec::new();
        if let Some(robot_type) = &self.robot_type {
            attributes.push(attribute("type", robot_type.clone()));
        }
        assert(attributes_view(attributes@) =~= robot_attributes(self@));
        attributes
    }
}

impl MakeXMLTag for Robot {
    fn opening_event(&self) -> (e: XmlItem)
        ensures
            e@ == (XmlItemView::Start { name: "Robot"@, attributes: robot_attributes(self@) }),
    {
        let attributes = self.make_attributes();
        XmlItem::Start { name: String::from_str("Robot"), attributes }
    }

    fn closing_event(&self) -> (e: XmlItem)
        ensures
            e@ == (XmlItemView::End { name: "Robot"@ }),
    {
        XmlItem::End { name: String::from_str("Robot") }
    }
}

/// The robot a `Robot` opening tag describes: its type (the last `type` attribute), and
/// nothing under it yet.
pub open spec fn spec_robot_from_tag(item: XmlItemView) -> Option<RobotView> {
    if is_start_named(item, "Robot"@) {
        Some(
            RobotView {
                robot_type: scan_text(item_attributes(item), "type"@),
                lynx_usb_device: None,
                webcam: None,
                ethernet_over_usb_device: None,
            },
        )
    } else {
        None
    }
}

/// The view of an optional robot.
pub open spec fn opt_robot_view(o: Option<Robot>) -> Option<RobotView> {
    match o {
        Some(r) => Some(r@),
        None => None,
    }
}

impl FromXMLTag for Robot {
    fn from_xml_tag(event: &XmlItem) -> (r: Option<Self>)
        ensures
            opt_robot_view(r) == spec_robot_from_tag(event@),
    {
        if !start_named(event, "Robot") {
            return None;
        }
        match event {
            XmlItem::Start { attributes, .. } => Some(
                Robot {
                    robot_type: attribute_text(attributes, "type"),
                    lynx_usb_device: None,
                    webcam: None,
                    ethernet_over_usb_device: None,
                },
            ),
            _ => None,
        }
    }
}

} // verus!
