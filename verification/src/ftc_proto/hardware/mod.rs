//! Top level module for the robot's hardware configuration: the XML document that says
//! which devices hang off which hub.
//!
//! The document is read and written as a list of [XmlItem]s, the start and end tags of its
//! elements; the traits here turn configuration types into and out of such tags.

use vstd::prelude::*;

pub mod device;
pub mod document;
pub mod lynx;
pub mod robot;
pub mod round_trip;
pub mod xml_io;

verus! {

/// An attribute of an XML tag: its (qualified) name and its value.
#[derive(Debug, Clone, PartialEq, Eq)]
pub struct XmlAttribute {
    pub name: String,
    pub value: String,
}

/// The mathematical value of an [XmlAttribute].
pub struct XmlAttributeView {
    pub name: Seq<char>,
    pub value: Seq<char>,
}

impl View for XmlAttribute {
    type V = XmlAttributeView;

    open spec fn view(&self) -> XmlAttributeView {
        XmlAttributeView { name: self.name@, value: self.value@ }
    }
}

/// The views of a list of attributes.
pub open spec fn attributes_view(attributes: Seq<XmlAttribute>) -> Seq<XmlAttributeView> {
    attributes.map_values(|a: XmlAttribute| a@)
}

/// One event of an XML document, as far as the hardware configuration cares.
#[derive(Debug, Clone, PartialEq, Eq)]
pub enum XmlItem {
    /// The XML declaration that opens a written document (version 1.0).
    Declaration { encoding: String, standalone: bool },
    /// An opening tag with its attributes, in document order.
    Start { name: String, attributes: Vec<XmlAttribute> },
    /// A closing tag.
    End { name: String },
    /// Any other event of a document read (text, whitespace, comments, the declaration
    /// or the end of the document), which the configuration does not use.
    Other,
}

/// The mathematical value of an [XmlItem].
pub enum XmlItemView {
    Declaration { encoding: Seq<char>, standalone: bool },
    Start { name: Seq<char>, attributes: Seq<XmlAttributeView> },
    End { name: Seq<char> },
    Other,
}

impl View for XmlItem {
    type V = XmlItemView;

    open spec fn view(&self) -> XmlItemView {
        match self {
            XmlItem::Declaration { encoding, standalone } => XmlItemView::Declaration {
                encoding: encoding@,
                standalone: *standalone,
            },
            XmlItem::Start { name, attributes } => XmlItemView::Start {
                name: name@,
                attributes: attributes_view(attributes@),
            },
            XmlItem::End { name } => XmlItemView::End { name: name@ },
            XmlItem::Other => XmlItemView::Other,
        }
    }
}

/// The views of a list of items.
pub open spec fn items_view(items: Seq<XmlItem>) -> Seq<XmlItemView> {
    items.map_values(|i: XmlItem| i@)
}

/// An attribute with the given name and value.
pub fn attribute(name: &str, value: String) -> (a: XmlAttribute)
    ensures
        a@ == (XmlAttributeView { name: name@, value: value@ }),
{
    XmlAttribute { name: String::from_str(name), value }
}

/// Trait for objects that can be written as XML tags
pub trait MakeXMLTag {
    /// Returns an event to open the tag
    fn opening_event(&self) -> XmlItem;

    /// Returns an event to close the tag
    ///
    /// Technically this doesn't need to be specific for an event, but it
    /// reduces potential problems to have it
    fn closing_event(&self) -> XmlItem;
}

/// Trait for objects that have values that are expressed as XML Attributes
pub trait MakeXMLTagAttributes {
    /// Returns a list of attributes that exist within self
    fn make_attributes(&self) -> Vec<XmlAttribute>;
}

/// Trait for objects that have values that are expressed as owned XML Attributes
pub trait MakeOwnedXMLTagAttributes {
    /// Returns a list of attributes that exist within self
    fn make_owned_attributes(&self) -> Vec<XmlAttribute>;
}

/// Trait for objects that can be potentially created from the xml opening tag event
pub trait FromXMLTag: Sized {
    /// Tries to construct self from the opening tag event
    fn from_xml_tag(event: &XmlItem) -> Option<Self>;
}

} // verus!
