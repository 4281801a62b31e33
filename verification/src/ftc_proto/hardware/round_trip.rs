//! Reading back what was written: the tags a robot configuration is written as read back
//! as that configuration.

use vstd::prelude::*;

use crate::ftc_proto::hardware::device::{DeviceFlavor, HardwareDeviceTypeView};
use crate::ftc_proto::hardware::document::{
    device_events, devices_events, document_events, ethernet_events, hub_events, hubs_events,
    lemma_devices_events_append, module_events, module_takes, module_with_device,
    modules_events, parse_items, parse_step, spec_robot_from_items, webcam_events, with_robot,
    with_usb, DocumentParseView, ParseStep, document_declaration, initial_parse,
};
use crate::ftc_proto::hardware::lynx::{
    spec_all_devices,
    spec_hub_from_tag, spec_module_from_tag, spec_usb_device_from_tag, usb_device_attributes,
    LynxModuleView, LynxUSBDeviceView, ServoHubView,
};
use crate::ftc_proto::hardware::robot::{
    controller_attributes, device_attributes, ethernet_attributes, optional_attribute,
    optional_number_attribute, robot_attributes, scan_bool, scan_text, scan_u32,
    spec_controller_from_tag, spec_device_from_tag, spec_ethernet_from_tag, first_matching_flavor, spec_robot_from_tag, spec_webcam_from_tag,
    webcam_attributes, ConfigurationControllerView, ConfigurationDeviceView,
    EthernetOverUsbConfigurationView, RobotView, WebcamView,
};
use crate::ftc_proto::hardware::{XmlAttributeView, XmlItemView};
use crate::text::{bool_chars, decimal_chars, lemma_parse_decimal_u32, spec_parse_bool};

verus! {

// ---------------------------------------------------------------------------------------
// Reading back attributes
// ---------------------------------------------------------------------------------------

/// Whether no attribute of a list has the given name.
pub open spec fn key_absent(a: Seq<XmlAttributeView>, key: Seq<char>) -> bool {
    forall|i: int| 0 <= i < a.len() ==> (#[trigger] a[i]).name != key
}

/// Scanning attributes of which none has the name finds nothing.
proof fn lemma_scan_absent(a: Seq<XmlAttributeView>, key: Seq<char>)
    requires
        key_absent(a, key),
    ensures
        scan_text(a, key) is None,
        scan_u32(a, key) == Some(None::<u32>),
        scan_bool(a, key) == Some(None::<bool>),
    decreases a.len(),
{
    if a.len() > 0 {
        assert(a.last() == a[a.len() - 1]);
        assert(key_absent(a.drop_last(), key)) by {
            assert forall|i: int| 0 <= i < a.drop_last().len() implies (#[trigger] a.drop_last()[
                i
            ]).name != key by {
                assert(a.drop_last()[i] == a[i]);
            }
        }
        lemma_scan_absent(a.drop_last(), key);
    }
}

/// Appending attributes that do not have the name changes nothing scanning finds.
proof fn lemma_scan_append_absent(a: Seq<XmlAttributeView>, b: Seq<XmlAttributeView>, key: Seq<char>)
    requires
        key_absent(b, key),
    ensures
        scan_text(a + b, key) == scan_text(a, key),
        scan_u32(a + b, key) == scan_u32(a, key),
        scan_bool(a + b, key) == scan_bool(a, key),
    decreases b.len(),
{
    if b.len() == 0 {
        assert(a + b =~= a);
    } else {
        assert(b.last() == b[b.len() - 1]);
        assert(key_absent(b.drop_last(), key)) by {
            assert forall|i: int| 0 <= i < b.drop_last().len() implies (#[trigger] b.drop_last()[
                i
            ]).name != key by {
                assert(b.drop_last()[i] == b[i]);
            }
        }
        lemma_scan_append_absent(a, b.drop_last(), key);
        assert((a + b).drop_last() =~= a + b.drop_last());
        assert((a + b).last() == b.last());
    }
}

/// The names the configuration types write attributes with are all different.
proof fn lemma_attribute_names_differ()
    ensures
        "name"@ != "port"@,
        "name"@ != "bus"@,
        "port"@ != "bus"@,
        "name"@ != "serialNumber"@,
        "port"@ != "serialNumber"@,
        "bus"@ != "serialNumber"@,
        "name"@ != "autoOpen"@,
        "port"@ != "autoOpen"@,
        "bus"@ != "autoOpen"@,
        "serialNumber"@ != "autoOpen"@,
        "name"@ != "ipAddress"@,
        "port"@ != "ipAddress"@,
        "bus"@ != "ipAddress"@,
        "serialNumber"@ != "ipAddress"@,
        "name"@ != "parentModuleAddress"@,
        "port"@ != "parentModuleAddress"@,
        "bus"@ != "parentModuleAddress"@,
        "serialNumber"@ != "parentModuleAddress"@,
{
    reveal_strlit("name");
    reveal_strlit("port");
    reveal_strlit("bus");
    reveal_strlit("serialNumber");
    reveal_strlit("autoOpen");
    reveal_strlit("ipAddress");
    reveal_strlit("parentModuleAddress");
    assert("name"@[0] != "port"@[0]);
    assert("name"@[0] != "bus"@[0]);
    assert("port"@[0] != "bus"@[0]);
    assert("name"@.len() != "serialNumber"@.len());
    assert("port"@.len() != "serialNumber"@.len());
    assert("bus"@.len() != "serialNumber"@.len());
    assert("name"@.len() != "autoOpen"@.len());
    assert("port"@.len() != "autoOpen"@.len());
    assert("bus"@.len() != "autoOpen"@.len());
    assert("serialNumber"@.len() != "autoOpen"@.len());
    assert("name"@.len() != "ipAddress"@.len());
    assert("port"@.len() != "ipAddress"@.len());
    assert("bus"@.len() != "ipAddress"@.len());
    assert("serialNumber"@[0] != "ipAddress"@[0]);
    assert("name"@.len() != "parentModuleAddress"@.len());
    assert("port"@.len() != "parentModuleAddress"@.len());
    assert("bus"@.len() != "parentModuleAddress"@.len());
    assert("serialNumber"@.len() != "parentModuleAddress"@.len());
}

/// An optional attribute has the name it was given, if it is there.
proof fn lemma_optional_key(key: Seq<char>, value: Option<Seq<char>>, other: Seq<char>)
    requires
        key != other,
    ensures
        key_absent(optional_attribute(key, value), other),
{
}

/// An optional number attribute has the name it was given, if it is there.
proof fn lemma_optional_number_key(key: Seq<char>, value: Option<u32>, other: Seq<char>)
    requires
        key != other,
    ensures
        key_absent(optional_number_attribute(key, value), other),
{
}

/// Key absence is kept by concatenation.
proof fn lemma_absent_concat(a: Seq<XmlAttributeView>, b: Seq<XmlAttributeView>, key: Seq<char>)
    requires
        key_absent(a, key),
        key_absent(b, key),
    ensures
        key_absent(a + b, key),
{
    assert forall|i: int| 0 <= i < (a + b).len() implies (#[trigger] (a + b)[i]).name != key by {
        if i < a.len() {
            assert((a + b)[i] == a[i]);
        } else {
            assert((a + b)[i] == b[i - a.len()]);
        }
    }
}

/// The attributes a device is written with read back as its name, port and bus, and have
/// none of the other names.
pub proof fn lemma_device_attributes_read_back(d: ConfigurationDeviceView)
    ensures
        scan_text(device_attributes(d), "name"@) == d.name,
        scan_u32(device_attributes(d), "port"@) == Some(d.port),
        scan_u32(device_attributes(d), "bus"@) == Some(d.bus),
        key_absent(device_attributes(d), "serialNumber"@),
        key_absent(device_attributes(d), "autoOpen"@),
        key_absent(device_attributes(d), "ipAddress"@),
        key_absent(device_attributes(d), "parentModuleAddress"@),
{
    lemma_attribute_names_differ();
    let n = optional_attribute("name"@, d.name);
    let p = optional_number_attribute("port"@, d.port);
    let b = optional_number_attribute("bus"@, d.bus);
    // name
    lemma_optional_number_key("port"@, d.port, "name"@);
    lemma_optional_number_key("bus"@, d.bus, "name"@);
    lemma_absent_concat(p, b, "name"@);
    assert(n + p + b =~= n + (p + b));
    lemma_scan_append_absent(n, p + b, "name"@);
    assert(scan_text(n, "name"@) == d.name) by {
        if d.name is Some {
            assert(n.drop_last() =~= Seq::<XmlAttributeView>::empty());
        }
    }
    // port
    lemma_optional_number_key("bus"@, d.bus, "port"@);
    lemma_scan_append_absent(n + p, b, "port"@);
    lemma_optional_key("name"@, d.name, "port"@);
    lemma_scan_absent(n, "port"@);
    if let Some(v) = d.port {
        lemma_parse_decimal_u32(v);
        assert((n + p).drop_last() =~= n);
        assert((n + p).last() == p[0]);
    } else {
        assert(n + p =~= n);
    }
    // bus
    lemma_optional_key("name"@, d.name, "bus"@);
    lemma_optional_number_key("port"@, d.port, "bus"@);
    lemma_absent_concat(n, p, "bus"@);
    lemma_scan_absent(n + p, "bus"@);
    if let Some(v) = d.bus {
        lemma_parse_decimal_u32(v);
        assert((n + p + b).drop_last() =~= n + p);
        assert((n + p + b).last() == b[0]);
    } else {
        assert(n + p + b =~= n + p);
    }
    // other names
    let others = seq!["serialNumber"@, "autoOpen"@, "ipAddress"@, "parentModuleAddress"@];
    assert forall|k: int| 0 <= k < 4 implies key_absent(n + p + b, #[trigger] others[k]) by {
        lemma_optional_key("name"@, d.name, others[k]);
        lemma_optional_number_key("port"@, d.port, others[k]);
        lemma_optional_number_key("bus"@, d.bus, others[k]);
        lemma_absent_concat(n, p, others[k]);
        lemma_absent_concat(n + p, b, others[k]);
    }
    assert(key_absent(n + p + b, others[0]));
    assert(key_absent(n + p + b, others[1]));
    assert(key_absent(n + p + b, others[2]));
    assert(key_absent(n + p + b, others[3]));
}

/// Whether a controller is read back from a tag with the given name: it was read from such
/// a tag (the tag name is kept as its own) and, as every controller read, is `BuiltIn`.
pub open spec fn controller_reads_back(c: ConfigurationControllerView, tag: Seq<char>) -> bool {
    c.device_meta.xml_tag_name == tag && c.device_meta.device_type == DeviceFlavor::BuiltIn
}

/// A controller's attributes, with others after them that it does not write, read back as
/// the controller.
proof fn lemma_controller_read_back(
    c: ConfigurationControllerView,
    tag: Seq<char>,
    extra: Seq<XmlAttributeView>,
)
    requires
        controller_reads_back(c, tag),
        key_absent(extra, "name"@),
        key_absent(extra, "port"@),
        key_absent(extra, "bus"@),
        key_absent(extra, "serialNumber"@),
    ensures
        spec_controller_from_tag(
            XmlItemView::Start { name: tag, attributes: controller_attributes(c) + extra },
        ) == Some(c),
        scan_text(controller_attributes(c), "autoOpen"@) is None,
        scan_bool(controller_attributes(c), "autoOpen"@) == Some(None::<bool>),
        key_absent(controller_attributes(c), "autoOpen"@),
        key_absent(controller_attributes(c), "ipAddress"@),
        key_absent(controller_attributes(c), "parentModuleAddress"@),
{
    lemma_attribute_names_differ();
    let d = c.device_meta;
    let da = device_attributes(d);
    let sa = optional_attribute("serialNumber"@, c.serial_number);
    let a = da + sa + extra;
    lemma_device_attributes_read_back(d);
    lemma_optional_key("serialNumber"@, c.serial_number, "name"@);
    lemma_optional_key("serialNumber"@, c.serial_number, "port"@);
    lemma_optional_key("serialNumber"@, c.serial_number, "bus"@);
    lemma_absent_concat(sa, extra, "name"@);
    lemma_absent_concat(sa, extra, "port"@);
    lemma_absent_concat(sa, extra, "bus"@);
    assert(a =~= da + (sa + extra));
    lemma_scan_append_absent(da, sa + extra, "name"@);
    lemma_scan_append_absent(da, sa + extra, "port"@);
    lemma_scan_append_absent(da, sa + extra, "bus"@);
    lemma_scan_append_absent(da + sa, extra, "serialNumber"@);
    lemma_scan_absent(da, "serialNumber"@);
    if c.serial_number is Some {
        assert((da + sa).drop_last() =~= da);
        assert((da + sa).last() == sa[0]);
    } else {
        assert(da + sa =~= da);
    }
    assert(controller_attributes(c) == da + sa);
    lemma_optional_key("serialNumber"@, c.serial_number, "autoOpen"@);
    lemma_optional_key("serialNumber"@, c.serial_number, "ipAddress"@);
    lemma_optional_key("serialNumber"@, c.serial_number, "parentModuleAddress"@);
    lemma_absent_concat(da, sa, "autoOpen"@);
    lemma_absent_concat(da, sa, "ipAddress"@);
    lemma_absent_concat(da, sa, "parentModuleAddress"@);
    lemma_scan_absent(da + sa, "autoOpen"@);
}

/// An attribute list ending in one attribute read by its name gives that attribute.
proof fn lemma_scan_last(a: Seq<XmlAttributeView>, x: XmlAttributeView)
    ensures
        scan_text(a.push(x), x.name) == Some(x.value),
{
}

/// The tag a USB device is written with reads back as the device, with no modules or hubs.
pub proof fn lemma_usb_device_read_back(u: LynxUSBDeviceView)
    requires
        controller_reads_back(u.controller_meta, "LynxUsbDevice"@),
    ensures
        spec_usb_device_from_tag(
            XmlItemView::Start { name: "LynxUsbDevice"@, attributes: usb_device_attributes(u) },
        ) == Some(LynxUSBDeviceView { lynx_modules: Seq::empty(), servo_hubs: Seq::empty(), ..u }),
{
    lemma_attribute_names_differ();
    let x = XmlAttributeView {
        name: "parentModuleAddress"@,
        value: decimal_chars(u.parent_module_address as nat),
    };
    let extra = seq![x];
    lemma_controller_read_back(u.controller_meta, "LynxUsbDevice"@, extra);
    assert(controller_attributes(u.controller_meta) + extra =~= usb_device_attributes(u));
    lemma_scan_last(controller_attributes(u.controller_meta), x);
    lemma_parse_decimal_u32(u.parent_module_address);
}

/// The tag a webcam is written with reads back as the webcam.
pub proof fn lemma_webcam_read_back(w: WebcamView)
    requires
        controller_reads_back(w.controller_meta, "Webcam"@),
    ensures
        spec_webcam_from_tag(
            XmlItemView::Start { name: "Webcam"@, attributes: webcam_attributes(w) },
        ) == Some(w),
{
    lemma_attribute_names_differ();
    let x = XmlAttributeView { name: "autoOpen"@, value: bool_chars(w.auto_open) };
    let extra = seq![x];
    lemma_controller_read_back(w.controller_meta, "Webcam"@, extra);
    let ca = controller_attributes(w.controller_meta);
    assert(ca + extra =~= webcam_attributes(w));
    assert(webcam_attributes(w).drop_last() =~= ca);
    assert(webcam_attributes(w).last() == x);
    assert(spec_parse_bool(bool_chars(w.auto_open)) == Some(w.auto_open));
    assert(scan_bool(webcam_attributes(w), "autoOpen"@) == Some(Some(w.auto_open)));
}

/// The tag an ethernet configuration is written with reads back as the configuration.
pub proof fn lemma_ethernet_read_back(e: EthernetOverUsbConfigurationView)
    requires
        controller_reads_back(e.controller_meta, "EthernetOverUsbConfiguration"@),
    ensures
        spec_ethernet_from_tag(
            XmlItemView::Start {
                name: "EthernetOverUsbConfiguration"@,
                attributes: ethernet_attributes(e),
            },
        ) == Some(e),
{
    lemma_attribute_names_differ();
    let x = XmlAttributeView { name: "ipAddress"@, value: e.ip_address };
    let extra = seq![x];
    lemma_controller_read_back(e.controller_meta, "EthernetOverUsbConfiguration"@, extra);
    assert(controller_attributes(e.controller_meta) + extra =~= ethernet_attributes(e));
    lemma_scan_last(controller_attributes(e.controller_meta), x);
}

/// The tag a module is written with reads back as the module, with no devices.
pub proof fn lemma_module_read_back(m: LynxModuleView)
    requires
        controller_reads_back(m.controller_meta, "LynxModule"@),
    ensures
        spec_module_from_tag(
            XmlItemView::Start {
                name: "LynxModule"@,
                attributes: controller_attributes(m.controller_meta),
            },
        ) == Some(
            LynxModuleView {
                controller_meta: m.controller_meta,
                servos: Seq::empty(),
                motors: Seq::empty(),
                i2c_devices: Seq::empty(),
                digital_devices: Seq::empty(),
                pwm_outputs: Seq::empty(),
                analog_inputs: Seq::empty(),
            },
        ),
{
    let empty = Seq::<XmlAttributeView>::empty();
    lemma_controller_read_back(m.controller_meta, "LynxModule"@, empty);
    assert(controller_attributes(m.controller_meta) + empty =~= controller_attributes(
        m.controller_meta,
    ));
}

/// The tag a servo hub is written with reads back as the hub, with no servos.
pub proof fn lemma_hub_read_back(h: ServoHubView)
    requires
        controller_reads_back(h.controller_meta, "ServoHub"@),
    ensures
        spec_hub_from_tag(
            XmlItemView::Start {
                name: "ServoHub"@,
                attributes: controller_attributes(h.controller_meta),
            },
        ) == Some(ServoHubView { controller_meta: h.controller_meta, servos: Seq::empty() }),
{
    let empty = Seq::<XmlAttributeView>::empty();
    lemma_controller_read_back(h.controller_meta, "ServoHub"@, empty);
    assert(controller_attributes(h.controller_meta) + empty =~= controller_attributes(
        h.controller_meta,
    ));
}

/// The robot tag reads back as the robot's type.
pub proof fn lemma_robot_tag_read_back(r: RobotView)
    ensures
        spec_robot_from_tag(XmlItemView::Start { name: "Robot"@, attributes: robot_attributes(r) })
            == Some(
            RobotView {
                robot_type: r.robot_type,
                lynx_usb_device: None,
                webcam: None,
                ethernet_over_usb_device: None,
            },
        ),
{
    if r.robot_type is Some {
        assert(robot_attributes(r).drop_last() =~= Seq::<XmlAttributeView>::empty());
    }
}

// ---------------------------------------------------------------------------------------
// Reading back devices
// ---------------------------------------------------------------------------------------

/// The tag names that stand for the structure of the document rather than a device.
pub open spec fn is_structure_tag(tag: Seq<char>) -> bool {
    tag == "Robot"@ || tag == "EthernetOverUsbConfiguration"@ || tag == "Webcam"@ || tag
        == "LynxUsbDevice"@ || tag == "LynxModule"@ || tag == "ServoHub"@
}

/// The structure tags are all different.
proof fn lemma_structure_names_differ()
    ensures
        "Robot"@ != "EthernetOverUsbConfiguration"@,
        "Robot"@ != "Webcam"@,
        "Robot"@ != "LynxUsbDevice"@,
        "Robot"@ != "LynxModule"@,
        "Robot"@ != "ServoHub"@,
        "EthernetOverUsbConfiguration"@ != "Webcam"@,
        "EthernetOverUsbConfiguration"@ != "LynxUsbDevice"@,
        "EthernetOverUsbConfiguration"@ != "LynxModule"@,
        "EthernetOverUsbConfiguration"@ != "ServoHub"@,
        "Webcam"@ != "LynxUsbDevice"@,
        "Webcam"@ != "LynxModule"@,
        "Webcam"@ != "ServoHub"@,
        "LynxUsbDevice"@ != "LynxModule"@,
        "LynxUsbDevice"@ != "ServoHub"@,
        "LynxModule"@ != "ServoHub"@,
{
    reveal_strlit("Robot");
    reveal_strlit("EthernetOverUsbConfiguration");
    reveal_strlit("Webcam");
    reveal_strlit("LynxUsbDevice");
    reveal_strlit("LynxModule");
    reveal_strlit("ServoHub");
    assert("Robot"@.len() != "EthernetOverUsbConfiguration"@.len());
    assert("Robot"@.len() != "Webcam"@.len());
    assert("Robot"@.len() != "LynxUsbDevice"@.len());
    assert("Robot"@.len() != "LynxModule"@.len());
    assert("Robot"@.len() != "ServoHub"@.len());
    assert("EthernetOverUsbConfiguration"@.len() != "Webcam"@.len());
    assert("EthernetOverUsbConfiguration"@.len() != "LynxUsbDevice"@.len());
    assert("EthernetOverUsbConfiguration"@.len() != "LynxModule"@.len());
    assert("EthernetOverUsbConfiguration"@.len() != "ServoHub"@.len());
    assert("Webcam"@.len() != "LynxUsbDevice"@.len());
    assert("Webcam"@.len() != "LynxModule"@.len());
    assert("Webcam"@.len() != "ServoHub"@.len());
    assert("LynxUsbDevice"@.len() != "LynxModule"@.len());
    assert("LynxUsbDevice"@.len() != "ServoHub"@.len());
    assert("LynxModule"@.len() != "ServoHub"@.len());
}

/// Whether a device is read back from its tag: the first known type written with its tag
/// has its flavor, and the tag is not one of the structure's.
pub open spec fn device_reads_back(d: ConfigurationDeviceView, types: Seq<HardwareDeviceTypeView>) -> bool {
    first_matching_flavor(types, d.xml_tag_name) == Some(d.device_type) && !is_structure_tag(
        d.xml_tag_name,
    )
}

/// The tag a device is written with reads back as the device.
pub proof fn lemma_device_read_back(d: ConfigurationDeviceView, types: Seq<HardwareDeviceTypeView>)
    requires
        first_matching_flavor(types, d.xml_tag_name) == Some(d.device_type),
    ensures
        spec_device_from_tag(
            XmlItemView::Start { name: d.xml_tag_name, attributes: device_attributes(d) },
            types,
        ) == Some(d),
{
    lemma_device_attributes_read_back(d);
}

/// Reading tags from a given state.
pub open spec fn parse_from(
    s: DocumentParseView,
    items: Seq<XmlItemView>,
    types: Seq<HardwareDeviceTypeView>,
) -> ParseStep
    decreases items.len(),
{
    if items.len() == 0 {
        ParseStep::Continue(s)
    } else {
        match parse_from(s, items.drop_last(), types) {
            ParseStep::Continue(t) => parse_step(t, items.last(), types),
            other => other,
        }
    }
}

/// Reading a document is reading from the initial state.
proof fn lemma_parse_items_from(items: Seq<XmlItemView>, types: Seq<HardwareDeviceTypeView>)
    ensures
        parse_items(items, types) == parse_from(initial_parse(), items, types),
    decreases items.len(),
{
    if items.len() > 0 {
        lemma_parse_items_from(items.drop_last(), types);
    }
}

/// Reading two runs of tags is reading the first, then the second from where it ended.
proof fn lemma_parse_from_concat(
    s: DocumentParseView,
    a: Seq<XmlItemView>,
    b: Seq<XmlItemView>,
    types: Seq<HardwareDeviceTypeView>,
)
    ensures
        parse_from(s, a + b, types) == match parse_from(s, a, types) {
            ParseStep::Continue(t) => parse_from(t, b, types),
            other => other,
        },
    decreases b.len(),
{
    if b.len() == 0 {
        assert(a + b =~= a);
    } else {
        lemma_parse_from_concat(s, a, b.drop_last(), types);
        assert((a + b).drop_last() =~= a + b.drop_last());
        assert((a + b).last() == b.last());
    }
}

/// Reading one element with no children.
proof fn lemma_parse_from_pair(
    s: DocumentParseView,
    x: XmlItemView,
    y: XmlItemView,
    types: Seq<HardwareDeviceTypeView>,
)
    ensures
        parse_from(s, seq![x, y], types) == match parse_step(s, x, types) {
            ParseStep::Continue(t) => parse_step(t, y, types),
            other => other,
        },
{
    assert(seq![x, y].drop_last() =~= seq![x]);
    assert(seq![x, y].last() == y);
    lemma_parse_from_single(s, x, types);
}

/// Reading one tag.
proof fn lemma_parse_from_single(
    s: DocumentParseView,
    x: XmlItemView,
    types: Seq<HardwareDeviceTypeView>,
)
    ensures
        parse_from(s, seq![x], types) == parse_step(s, x, types),
{
    assert(seq![x].drop_last() =~= Seq::<XmlItemView>::empty());
    assert(parse_from(s, Seq::<XmlItemView>::empty(), types) == ParseStep::Continue(s));
    assert(seq![x].last() == x);
}

/// The list of a module that devices of a flavor go into.
pub open spec fn module_list(m: LynxModuleView, f: DeviceFlavor) -> Seq<ConfigurationDeviceView> {
    match f {
        DeviceFlavor::Motor => m.motors,
        DeviceFlavor::Servo => m.servos,
        DeviceFlavor::I2C => m.i2c_devices,
        DeviceFlavor::AnalogSensor => m.analog_inputs,
        DeviceFlavor::DigitalIO => m.digital_devices,
        DeviceFlavor::AnalogOutput => m.pwm_outputs,
        _ => Seq::empty(),
    }
}

/// A module with the list of a flavor replaced.
pub open spec fn module_with_list(
    m: LynxModuleView,
    f: DeviceFlavor,
    l: Seq<ConfigurationDeviceView>,
) -> LynxModuleView {
    match f {
        DeviceFlavor::Motor => LynxModuleView { motors: l, ..m },
        DeviceFlavor::Servo => LynxModuleView { servos: l, ..m },
        DeviceFlavor::I2C => LynxModuleView { i2c_devices: l, ..m },
        DeviceFlavor::AnalogSensor => LynxModuleView { analog_inputs: l, ..m },
        DeviceFlavor::DigitalIO => LynxModuleView { digital_devices: l, ..m },
        DeviceFlavor::AnalogOutput => LynxModuleView { pwm_outputs: l, ..m },
        _ => m,
    }
}

/// Whether every device of a list has the given flavor and reads back.
pub open spec fn devices_read_back(
    ds: Seq<ConfigurationDeviceView>,
    f: DeviceFlavor,
    types: Seq<HardwareDeviceTypeView>,
) -> bool {
    forall|i: int|
        0 <= i < ds.len() ==> (#[trigger] ds[i]).device_type == f && device_reads_back(ds[i], types)
}

/// The state with the `k`th module replaced.
pub open spec fn with_module(s: DocumentParseView, k: int, m: LynxModuleView) -> DocumentParseView {
    let u = s.robot.lynx_usb_device->0;
    with_usb(s, LynxUSBDeviceView { lynx_modules: u.lynx_modules.update(k, m), ..u })
}

/// The state with the `k`th servo hub replaced.
pub open spec fn with_hub(s: DocumentParseView, k: int, h: ServoHubView) -> DocumentParseView {
    let u = s.robot.lynx_usb_device->0;
    with_usb(s, LynxUSBDeviceView { servo_hubs: u.servo_hubs.update(k, h), ..u })
}

/// Reading the devices of one flavor inside the open `k`th module adds them to its list of
/// that flavor.
proof fn lemma_module_devices(
    s: DocumentParseView,
    k: int,
    ds: Seq<ConfigurationDeviceView>,
    f: DeviceFlavor,
    types: Seq<HardwareDeviceTypeView>,
)
    requires
        s.in_servo_hub is None,
        s.in_lynx_module == Some(k as nat),
        s.robot.lynx_usb_device is Some,
        0 <= k < s.robot.lynx_usb_device->0.lynx_modules.len(),
        module_takes(f),
        devices_read_back(ds, f, types),
    ensures
        parse_from(s, devices_events(ds), types) == ParseStep::Continue(
            with_module(
                s,
                k,
                module_with_list(
                    s.robot.lynx_usb_device->0.lynx_modules[k],
                    f,
                    module_list(s.robot.lynx_usb_device->0.lynx_modules[k], f) + ds,
                ),
            ),
        ),
    decreases ds.len(),
{
    let m = s.robot.lynx_usb_device->0.lynx_modules[k];
    if ds.len() == 0 {
        assert(module_list(m, f) + ds =~= module_list(m, f));
        assert(module_with_list(m, f, module_list(m, f)) == m);
        assert(s.robot.lynx_usb_device->0.lynx_modules.update(k, m) =~= s.robot.lynx_usb_device->0.lynx_modules);
        assert(with_module(s, k, m) == s);
    } else {
        let rest = ds.drop_last();
        let d = ds.last();
        assert(devices_read_back(rest, f, types)) by {
            assert forall|i: int| 0 <= i < rest.len() implies (#[trigger] rest[i]).device_type == f
                && device_reads_back(rest[i], types) by {
                assert(rest[i] == ds[i]);
            }
        }
        assert(d == ds[ds.len() - 1]);
        lemma_module_devices(s, k, rest, f, types);
        lemma_parse_from_concat(s, devices_events(rest), device_events(d), types);
        let m1 = module_with_list(m, f, module_list(m, f) + rest);
        let s1 = with_module(s, k, m1);
        lemma_device_read_back(d, types);
        lemma_parse_from_pair(
            s1,
            XmlItemView::Start { name: d.xml_tag_name, attributes: device_attributes(d) },
            XmlItemView::End { name: d.xml_tag_name },
            types,
        );
        let u1 = s1.robot.lynx_usb_device->0;
        assert(u1.lynx_modules[k] == m1);
        assert(module_with_device(m1, d) == module_with_list(m, f, module_list(m, f) + ds)) by {
            assert((module_list(m, f) + rest).push(d) =~= module_list(m, f) + ds);
        }
        assert(u1.lynx_modules.update(k, module_with_device(m1, d)) =~= s.robot.lynx_usb_device->0.lynx_modules.update(
            k,
            module_with_list(m, f, module_list(m, f) + ds),
        ));
    }
}

/// Reading the servos inside the open `k`th servo hub adds them to it.
proof fn lemma_hub_devices(
    s: DocumentParseView,
    k: int,
    ds: Seq<ConfigurationDeviceView>,
    types: Seq<HardwareDeviceTypeView>,
)
    requires
        s.in_servo_hub == Some(k as nat),
        s.robot.lynx_usb_device is Some,
        0 <= k < s.robot.lynx_usb_device->0.servo_hubs.len(),
        devices_read_back(ds, DeviceFlavor::Servo, types),
    ensures
        parse_from(s, devices_events(ds), types) == ParseStep::Continue(
            with_hub(
                s,
                k,
                ServoHubView {
                    servos: s.robot.lynx_usb_device->0.servo_hubs[k].servos + ds,
                    ..s.robot.lynx_usb_device->0.servo_hubs[k]
                },
            ),
        ),
    decreases ds.len(),
{
    let h = s.robot.lynx_usb_device->0.servo_hubs[k];
    if ds.len() == 0 {
        assert(h.servos + ds =~= h.servos);
        assert(s.robot.lynx_usb_device->0.servo_hubs.update(k, h) =~= s.robot.lynx_usb_device->0.servo_hubs);
    } else {
        let rest = ds.drop_last();
        let d = ds.last();
        assert(devices_read_back(rest, DeviceFlavor::Servo, types)) by {
            assert forall|i: int| 0 <= i < rest.len() implies (#[trigger] rest[i]).device_type
                == DeviceFlavor::Servo && device_reads_back(rest[i], types) by {
                assert(rest[i] == ds[i]);
            }
        }
        assert(d == ds[ds.len() - 1]);
        lemma_hub_devices(s, k, rest, types);
        lemma_parse_from_concat(s, devices_events(rest), device_events(d), types);
        let h1 = ServoHubView { servos: h.servos + rest, ..h };
        let s1 = with_hub(s, k, h1);
        lemma_device_read_back(d, types);
        lemma_parse_from_pair(
            s1,
            XmlItemView::Start { name: d.xml_tag_name, attributes: device_attributes(d) },
            XmlItemView::End { name: d.xml_tag_name },
            types,
        );
        let u1 = s1.robot.lynx_usb_device->0;
        assert(u1.servo_hubs[k] == h1);
        assert((h.servos + rest).push(d) =~= h.servos + ds);
        assert(u1.servo_hubs.update(k, ServoHubView { servos: h1.servos.push(d), ..h1 })
            =~= s.robot.lynx_usb_device->0.servo_hubs.update(
            k,
            ServoHubView { servos: h.servos + ds, ..h },
        ));
    }
}

/// Whether a module reads back: its controller from a `LynxModule` tag, and each of its
/// lists holds devices of its own flavor that read back.
pub open spec fn module_reads_back(m: LynxModuleView, types: Seq<HardwareDeviceTypeView>) -> bool {
    &&& controller_reads_back(m.controller_meta, "LynxModule"@)
    &&& devices_read_back(m.servos, DeviceFlavor::Servo, types)
    &&& devices_read_back(m.motors, DeviceFlavor::Motor, types)
    &&& devices_read_back(m.i2c_devices, DeviceFlavor::I2C, types)
    &&& devices_read_back(m.digital_devices, DeviceFlavor::DigitalIO, types)
    &&& devices_read_back(m.pwm_outputs, DeviceFlavor::AnalogOutput, types)
    &&& devices_read_back(m.analog_inputs, DeviceFlavor::AnalogSensor, types)
}

/// Whether a servo hub reads back: its controller from a `ServoHub` tag, and servos that
/// read back.
pub open spec fn hub_reads_back(h: ServoHubView, types: Seq<HardwareDeviceTypeView>) -> bool {
    &&& controller_reads_back(h.controller_meta, "ServoHub"@)
    &&& devices_read_back(h.servos, DeviceFlavor::Servo, types)
}

/// The state after reading the modules `ms` from `s`: they are added to the USB device's,
/// counted, and none is open.
pub open spec fn after_modules(s: DocumentParseView, ms: Seq<LynxModuleView>) -> DocumentParseView {
    let u = s.robot.lynx_usb_device->0;
    DocumentParseView {
        num_lynx_modules: s.num_lynx_modules + ms.len(),
        in_lynx_module: None,
        ..with_usb(s, LynxUSBDeviceView { lynx_modules: u.lynx_modules + ms, ..u })
    }
}

/// The state after reading the servo hubs `hs` from `s`.
pub open spec fn after_hubs(s: DocumentParseView, hs: Seq<ServoHubView>) -> DocumentParseView {
    let u = s.robot.lynx_usb_device->0;
    DocumentParseView {
        num_servo_hubs: s.num_servo_hubs + hs.len(),
        in_servo_hub: None,
        ..with_usb(s, LynxUSBDeviceView { servo_hubs: u.servo_hubs + hs, ..u })
    }
}

/// Reading one module's element.
proof fn lemma_module(s: DocumentParseView, m: LynxModuleView, types: Seq<HardwareDeviceTypeView>)
    requires
        s.in_servo_hub is None,
        s.in_lynx_module is None,
        s.robot.lynx_usb_device is Some,
        s.num_lynx_modules == s.robot.lynx_usb_device->0.lynx_modules.len(),
        module_reads_back(m, types),
    ensures
        parse_from(s, module_events(m), types) == ParseStep::Continue(after_modules(s, seq![m])),
{
    let u = s.robot.lynx_usb_device->0;
    let k = u.lynx_modules.len() as int;
    let start = XmlItemView::Start {
        name: "LynxModule"@,
        attributes: controller_attributes(m.controller_meta),
    };
    let end = XmlItemView::End { name: "LynxModule"@ };
    lemma_module_read_back(m);
    lemma_structure_names_differ();
    let m0 = LynxModuleView {
        controller_meta: m.controller_meta,
        servos: Seq::empty(),
        motors: Seq::empty(),
        i2c_devices: Seq::empty(),
        digital_devices: Seq::empty(),
        pwm_outputs: Seq::empty(),
        analog_inputs: Seq::empty(),
    };
    lemma_parse_from_single(s, start, types);
    let s0 = DocumentParseView {
        num_lynx_modules: s.num_lynx_modules + 1,
        in_lynx_module: Some(s.num_lynx_modules),
        ..with_usb(s, LynxUSBDeviceView { lynx_modules: u.lynx_modules.push(m0), ..u })
    };
    assert(parse_from(s, seq![start], types) == ParseStep::Continue(s0));
    // The six lists, one after another.
    let a1 = m.servos;
    let a2 = m.motors;
    let a3 = m.i2c_devices;
    let a4 = m.digital_devices;
    let a5 = m.pwm_outputs;
    let a6 = m.analog_inputs;
    lemma_module_devices(s0, k, a1, DeviceFlavor::Servo, types);
    let m1 = LynxModuleView { servos: Seq::empty() + a1, ..m0 };
    let s1 = with_module(s0, k, m1);
    lemma_module_devices(s1, k, a2, DeviceFlavor::Motor, types);
    let m2 = LynxModuleView { motors: Seq::empty() + a2, ..m1 };
    let s2 = with_module(s1, k, m2);
    lemma_module_devices(s2, k, a3, DeviceFlavor::I2C, types);
    let m3 = LynxModuleView { i2c_devices: Seq::empty() + a3, ..m2 };
    let s3 = with_module(s2, k, m3);
    lemma_module_devices(s3, k, a4, DeviceFlavor::DigitalIO, types);
    let m4 = LynxModuleView { digital_devices: Seq::empty() + a4, ..m3 };
    let s4 = with_module(s3, k, m4);
    lemma_module_devices(s4, k, a5, DeviceFlavor::AnalogOutput, types);
    let m5 = LynxModuleView { pwm_outputs: Seq::empty() + a5, ..m4 };
    let s5 = with_module(s4, k, m5);
    lemma_module_devices(s5, k, a6, DeviceFlavor::AnalogSensor, types);
    let m6 = LynxModuleView { analog_inputs: Seq::empty() + a6, ..m5 };
    let s6 = with_module(s5, k, m6);
    assert(m6 == m) by {
        assert(Seq::<ConfigurationDeviceView>::empty() + a1 =~= a1);
        assert(Seq::<ConfigurationDeviceView>::empty() + a2 =~= a2);
        assert(Seq::<ConfigurationDeviceView>::empty() + a3 =~= a3);
        assert(Seq::<ConfigurationDeviceView>::empty() + a4 =~= a4);
        assert(Seq::<ConfigurationDeviceView>::empty() + a5 =~= a5);
        assert(Seq::<ConfigurationDeviceView>::empty() + a6 =~= a6);
    }
    // Joining the runs of tags.
    lemma_devices_events_append(a1, a2);
    lemma_devices_events_append(a1 + a2, a3);
    lemma_devices_events_append(a1 + a2 + a3, a4);
    lemma_devices_events_append(a1 + a2 + a3 + a4, a5);
    lemma_devices_events_append(a1 + a2 + a3 + a4 + a5, a6);
    let e1 = devices_events(a1);
    let e2 = devices_events(a2);
    let e3 = devices_events(a3);
    let e4 = devices_events(a4);
    let e5 = devices_events(a5);
    let e6 = devices_events(a6);
    lemma_parse_from_concat(s0, e1, e2, types);
    lemma_parse_from_concat(s0, e1 + e2, e3, types);
    lemma_parse_from_concat(s0, e1 + e2 + e3, e4, types);
    lemma_parse_from_concat(s0, e1 + e2 + e3 + e4, e5, types);
    lemma_parse_from_concat(s0, e1 + e2 + e3 + e4 + e5, e6, types);
    assert(devices_events(spec_all_devices(m)) == e1 + e2 + e3 + e4 + e5 + e6);
    assert(parse_from(s0, devices_events(spec_all_devices(m)), types) == ParseStep::Continue(s6));
    // The closing tag.
    lemma_parse_from_single(s6, end, types);
    lemma_parse_from_concat(s, seq![start], devices_events(spec_all_devices(m)), types);
    lemma_parse_from_concat(s, seq![start] + devices_events(spec_all_devices(m)), seq![end], types);
    assert(s6.robot.lynx_usb_device->0.lynx_modules =~= u.lynx_modules + seq![m]);
    assert(DocumentParseView { in_lynx_module: None, ..s6 } == after_modules(s, seq![m]));
}

/// Reading one servo hub's element.
proof fn lemma_hub(s: DocumentParseView, h: ServoHubView, types: Seq<HardwareDeviceTypeView>)
    requires
        s.in_servo_hub is None,
        s.in_lynx_module is None,
        s.robot.lynx_usb_device is Some,
        s.num_servo_hubs == s.robot.lynx_usb_device->0.servo_hubs.len(),
        hub_reads_back(h, types),
    ensures
        parse_from(s, hub_events(h), types) == ParseStep::Continue(after_hubs(s, seq![h])),
{
    let u = s.robot.lynx_usb_device->0;
    let k = u.servo_hubs.len() as int;
    let start = XmlItemView::Start {
        name: "ServoHub"@,
        attributes: controller_attributes(h.controller_meta),
    };
    let end = XmlItemView::End { name: "ServoHub"@ };
    lemma_hub_read_back(h);
    lemma_structure_names_differ();
    let h0 = ServoHubView { controller_meta: h.controller_meta, servos: Seq::empty() };
    lemma_parse_from_single(s, start, types);
    let s0 = DocumentParseView {
        num_servo_hubs: s.num_servo_hubs + 1,
        in_servo_hub: Some(s.num_servo_hubs),
        ..with_usb(s, LynxUSBDeviceView { servo_hubs: u.servo_hubs.push(h0), ..u })
    };
    assert(parse_from(s, seq![start], types) == ParseStep::Continue(s0));
    lemma_hub_devices(s0, k, h.servos, types);
    let h1 = ServoHubView { servos: Seq::empty() + h.servos, ..h0 };
    assert(h1 == h) by {
        assert(Seq::<ConfigurationDeviceView>::empty() + h.servos =~= h.servos);
    }
    let s1 = with_hub(s0, k, h1);
    lemma_parse_from_single(s1, end, types);
    lemma_parse_from_concat(s, seq![start], devices_events(h.servos), types);
    lemma_parse_from_concat(s, seq![start] + devices_events(h.servos), seq![end], types);
    assert(s1.robot.lynx_usb_device->0.servo_hubs =~= u.servo_hubs + seq![h]);
    assert(DocumentParseView { in_servo_hub: None, ..s1 } == after_hubs(s, seq![h]));
}

/// Reading the elements of modules one after another.
proof fn lemma_modules(s: DocumentParseView, ms: Seq<LynxModuleView>, types: Seq<HardwareDeviceTypeView>)
    requires
        s.in_servo_hub is None,
        s.in_lynx_module is None,
        s.robot.lynx_usb_device is Some,
        s.num_lynx_modules == s.robot.lynx_usb_device->0.lynx_modules.len(),
        forall|i: int| 0 <= i < ms.len() ==> module_reads_back(#[trigger] ms[i], types),
    ensures
        parse_from(s, modules_events(ms), types) == ParseStep::Continue(after_modules(s, ms)),
    decreases ms.len(),
{
    let u = s.robot.lynx_usb_device->0;
    if ms.len() == 0 {
        assert(u.lynx_modules + ms =~= u.lynx_modules);
        assert(after_modules(s, ms) == s);
    } else {
        let rest = ms.drop_last();
        let m = ms.last();
        assert(m == ms[ms.len() - 1]);
        assert forall|i: int| 0 <= i < rest.len() implies module_reads_back(#[trigger] rest[i], types) by {
            assert(rest[i] == ms[i]);
        }
        lemma_modules(s, rest, types);
        let s1 = after_modules(s, rest);
        lemma_module(s1, m, types);
        lemma_parse_from_concat(s, modules_events(rest), module_events(m), types);
        assert(u.lynx_modules + rest + seq![m] =~= u.lynx_modules + ms);
    }
}

/// Reading the elements of servo hubs one after another.
proof fn lemma_hubs(s: DocumentParseView, hs: Seq<ServoHubView>, types: Seq<HardwareDeviceTypeView>)
    requires
        s.in_servo_hub is None,
        s.in_lynx_module is None,
        s.robot.lynx_usb_device is Some,
        s.num_servo_hubs == s.robot.lynx_usb_device->0.servo_hubs.len(),
        forall|i: int| 0 <= i < hs.len() ==> hub_reads_back(#[trigger] hs[i], types),
    ensures
        parse_from(s, hubs_events(hs), types) == ParseStep::Continue(after_hubs(s, hs)),
    decreases hs.len(),
{
    let u = s.robot.lynx_usb_device->0;
    if hs.len() == 0 {
        assert(u.servo_hubs + hs =~= u.servo_hubs);
        assert(after_hubs(s, hs) == s);
    } else {
        let rest = hs.drop_last();
        let h = hs.last();
        assert(h == hs[hs.len() - 1]);
        assert forall|i: int| 0 <= i < rest.len() implies hub_reads_back(#[trigger] rest[i], types) by {
            assert(rest[i] == hs[i]);
        }
        lemma_hubs(s, rest, types);
        let s1 = after_hubs(s, rest);
        lemma_hub(s1, h, types);
        lemma_parse_from_concat(s, hubs_events(rest), hub_events(h), types);
        assert(u.servo_hubs + rest + seq![h] =~= u.servo_hubs + hs);
    }
}

/// Whether a robot configuration reads back from the document it is written as: it has a
/// USB device (a document cannot be written without one); each controller was read from
/// the tag it is written with; and each device has a known type of its flavor, sits in
/// the list of its flavor, and is not written with a structure tag.
pub open spec fn robot_reads_back(r: RobotView, types: Seq<HardwareDeviceTypeView>) -> bool {
    match r.lynx_usb_device {
        Some(u) => {
            &&& controller_reads_back(u.controller_meta, "LynxUsbDevice"@)
            &&& forall|i: int|
                0 <= i < u.lynx_modules.len() ==> module_reads_back(#[trigger] u.lynx_modules[i], types)
            &&& forall|i: int|
                0 <= i < u.servo_hubs.len() ==> hub_reads_back(#[trigger] u.servo_hubs[i], types)
            &&& match r.webcam {
                Some(w) => controller_reads_back(w.controller_meta, "Webcam"@),
                None => true,
            }
            &&& match r.ethernet_over_usb_device {
                Some(e) => controller_reads_back(e.controller_meta, "EthernetOverUsbConfiguration"@),
                None => true,
            }
        },
        None => false,
    }
}

/// Reading the webcam's tags, if any, sets it.
proof fn lemma_webcam_events(s: DocumentParseView, w: Option<WebcamView>, types: Seq<HardwareDeviceTypeView>)
    requires
        match w {
            Some(w) => controller_reads_back(w.controller_meta, "Webcam"@),
            None => true,
        },
    ensures
        parse_from(s, webcam_events(w), types) == ParseStep::Continue(
            match w {
                Some(w) => with_robot(s, RobotView { webcam: Some(w), ..s.robot }),
                None => s,
            },
        ),
{
    lemma_structure_names_differ();
    match w {
        Some(w) => {
            lemma_webcam_read_back(w);
            lemma_parse_from_pair(
                s,
                XmlItemView::Start { name: "Webcam"@, attributes: webcam_attributes(w) },
                XmlItemView::End { name: "Webcam"@ },
                types,
            );
        },
        None => {},
    }
}

/// Reading the ethernet configuration's tags, if any, sets it.
proof fn lemma_ethernet_events(
    s: DocumentParseView,
    e: Option<EthernetOverUsbConfigurationView>,
    types: Seq<HardwareDeviceTypeView>,
)
    requires
        match e {
            Some(e) => controller_reads_back(e.controller_meta, "EthernetOverUsbConfiguration"@),
            None => true,
        },
    ensures
        parse_from(s, ethernet_events(e), types) == ParseStep::Continue(
            match e {
                Some(e) => with_robot(s, RobotView { ethernet_over_usb_device: Some(e), ..s.robot }),
                None => s,
            },
        ),
{
    lemma_structure_names_differ();
    match e {
        Some(e) => {
            lemma_ethernet_read_back(e);
            lemma_parse_from_pair(
                s,
                XmlItemView::Start {
                    name: "EthernetOverUsbConfiguration"@,
                    attributes: ethernet_attributes(e),
                },
                XmlItemView::End { name: "EthernetOverUsbConfiguration"@ },
                types,
            );
        },
        None => {},
    }
}

/// The tags a robot configuration is written as read back as that configuration, where it
/// reads back at all ([robot_reads_back]).
pub proof fn lemma_document_round_trip(r: RobotView, types: Seq<HardwareDeviceTypeView>)
    requires
        robot_reads_back(r, types),
    ensures
        spec_robot_from_items(document_events(r), false, types) == Some(r),
{
    lemma_structure_names_differ();
    let u = r.lynx_usb_device->0;
    let decl = document_declaration();
    let start_robot = XmlItemView::Start { name: "Robot"@, attributes: robot_attributes(r) };
    let start_usb = XmlItemView::Start {
        name: "LynxUsbDevice"@,
        attributes: usb_device_attributes(u),
    };
    let end_usb = XmlItemView::End { name: "LynxUsbDevice"@ };
    let end_robot = XmlItemView::End { name: "Robot"@ };
    let head = seq![decl, start_robot, start_usb];
    let mods = modules_events(u.lynx_modules);
    let hubs = hubs_events(u.servo_hubs);
    let web = webcam_events(r.webcam);
    let eth = ethernet_events(r.ethernet_over_usb_device);
    let items = document_events(r);
    assert(items == head + mods + hubs + seq![end_usb] + web + eth + seq![end_robot]);
    lemma_parse_items_from(items, types);
    // The head: the declaration, the robot and the USB device.
    lemma_robot_tag_read_back(r);
    lemma_usb_device_read_back(u);
    let s0 = initial_parse();
    lemma_parse_from_pair(s0, decl, start_robot, types);
    let r0 = RobotView {
        robot_type: r.robot_type,
        lynx_usb_device: None,
        webcam: None,
        ethernet_over_usb_device: None,
    };
    let s1 = with_robot(s0, r0);
    assert(parse_from(s0, seq![decl, start_robot], types) == ParseStep::Continue(s1));
    let u0 = LynxUSBDeviceView { lynx_modules: Seq::empty(), servo_hubs: Seq::empty(), ..u };
    let s2 = with_usb(s1, u0);
    lemma_parse_from_single(s1, start_usb, types);
    lemma_parse_from_concat(s0, seq![decl, start_robot], seq![start_usb], types);
    assert(seq![decl, start_robot] + seq![start_usb] =~= head);
    assert(parse_from(s0, head, types) == ParseStep::Continue(s2));
    // The modules and the hubs.
    lemma_modules(s2, u.lynx_modules, types);
    let s3 = after_modules(s2, u.lynx_modules);
    lemma_hubs(s3, u.servo_hubs, types);
    let s4 = after_hubs(s3, u.servo_hubs);
    assert(s4.robot.lynx_usb_device == Some(u)) by {
        assert(Seq::<LynxModuleView>::empty() + u.lynx_modules =~= u.lynx_modules);
        assert(Seq::<ServoHubView>::empty() + u.servo_hubs =~= u.servo_hubs);
    }
    // The end of the USB device, the webcam, the ethernet configuration, the end.
    lemma_parse_from_single(s4, end_usb, types);
    lemma_webcam_events(s4, r.webcam, types);
    let s5 = match r.webcam {
        Some(w) => with_robot(s4, RobotView { webcam: Some(w), ..s4.robot }),
        None => s4,
    };
    lemma_ethernet_events(s5, r.ethernet_over_usb_device, types);
    let s6 = match r.ethernet_over_usb_device {
        Some(e) => with_robot(s5, RobotView { ethernet_over_usb_device: Some(e), ..s5.robot }),
        None => s5,
    };
    lemma_parse_from_single(s6, end_robot, types);
    lemma_parse_from_concat(s0, head, mods, types);
    lemma_parse_from_concat(s0, head + mods, hubs, types);
    lemma_parse_from_concat(s0, head + mods + hubs, seq![end_usb], types);
    lemma_parse_from_concat(s0, head + mods + hubs + seq![end_usb], web, types);
    lemma_parse_from_concat(s0, head + mods + hubs + seq![end_usb] + web, eth, types);
    lemma_parse_from_concat(
        s0,
        head + mods + hubs + seq![end_usb] + web + eth,
        seq![end_robot],
        types,
    );
    assert(s6.robot == r);
}

} // verus!
