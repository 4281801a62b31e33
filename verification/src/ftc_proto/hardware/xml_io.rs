//! Reading and writing XML text through the `xml-rs` crate, as lists of [XmlItem]s.

use vstd::prelude::*;
use vstd::utf8::valid_utf8;

use std::borrow::Cow::Owned;
use xml::attribute::Attribute;
use xml::common::XmlVersion::Version10;
use xml::name::Name;
use xml::namespace::Namespace;
use xml::reader::EventReader;
use xml::reader::XmlEvent as ReadEvent;
use xml::writer::XmlEvent as WriteEvent;
use xml::EmitterConfig;

use crate::ftc_proto::hardware::{items_view, XmlAttribute, XmlItem, XmlItemView};

verus! {

/// What `xml-rs`'s `EventReader` (default configuration) gives for a document: its events
/// in order up to the first error (opening and closing tags with their names and attribute
/// names as `OwnedName` displays them, that is `{namespace}prefix:local` where those parts
/// are present, and [XmlItemView::Other] for each other event), and whether there was an
/// error.
pub uninterp spec fn xml_reader_items(xml: Seq<char>) -> (Seq<XmlItemView>, bool);

/// What `xml-rs`'s `EventWriter`, made by `EmitterConfig::new().perform_indent(true)`,
/// writes for a list of events: the bytes, or `None` if one of the writes fails.
pub uninterp spec fn xml_emitter_output(items: Seq<XmlItemView>) -> Option<Seq<u8>>;

/// Writing these events with an `EventWriter` that has `started` the document and has the
/// element names `open` (innermost last): whether the document is started afterwards and
/// the names then open, or `None` where a write fails: a declaration once the document has
/// started (a first tag starts it with a declaration of its own), or a closing tag that
/// closes no element or one of another name.
pub open spec fn emit_nesting(items: Seq<XmlItemView>, started: bool, open: Seq<Seq<char>>) -> Option<
    (bool, Seq<Seq<char>>),
>
    decreases items.len(),
{
    if items.len() == 0 {
        Some((started, open))
    } else {
        let rest = items.drop_first();
        match items[0] {
            XmlItemView::Declaration { .. } => if started {
                None
            } else {
                emit_nesting(rest, true, open)
            },
            XmlItemView::Start { name, .. } => emit_nesting(rest, true, open.push(name)),
            XmlItemView::End { name } => if open.len() > 0 && open.last() == name {
                emit_nesting(rest, started, open.drop_last())
            } else {
                None
            },
            XmlItemView::Other => emit_nesting(rest, started, open),
        }
    }
}

/// Whether a fresh writer writes all these events without an error.
pub open spec fn emits_cleanly(items: Seq<XmlItemView>) -> bool {
    emit_nesting(items, false, Seq::empty()) is Some
}

/// Runs `xml::reader::EventReader` over `xml` and turns each of its events into an item:
/// `StartElement` and `EndElement` with each name turned into text by `to_string`, every
/// other event into [XmlItem::Other]. The contract says that the result is
/// [xml_reader_items] of the text; nothing else is claimed of it.
#[verifier::external_body]
pub(crate) fn read_xml_items(xml: &str) -> (r: (Vec<XmlItem>, bool))
    ensures
        (items_view(r.0@), r.1) == xml_reader_items(xml@),
{
    let mut items: Vec<XmlItem> = Vec::new();
    for event in EventReader::new(xml.as_bytes()) {
        match event {
            Ok(ReadEvent::StartElement { name, attributes, .. }) => items.push(XmlItem::Start {
                name: name.to_string(),
                attributes: attributes.into_iter().map(|a| XmlAttribute { name: a.name.to_string(), value: a.value }).collect(),
            }),
            Ok(ReadEvent::EndElement { name }) => items.push(XmlItem::End { name: name.to_string() }),
            Ok(_) => items.push(XmlItem::Other),
            Err(_) => return (items, true),
        }
    }
    (items, false)
}

/// Writes the items with an indenting `xml::writer::EventWriter` into a byte buffer
/// (element names through `Name::from`, attribute names as local names) and returns the
/// bytes. The contract says that the result is [xml_emitter_output] of the items; only
/// declarations and tags are written. Writing into a `Vec` cannot fail, so the writer
/// fails only where its own checks do ([emits_cleanly]); and what it writes is text
/// (`write!` of strings), so the bytes are UTF-8.
#[verifier::external_body]
pub(crate) fn emit_xml_items(items: &Vec<XmlItem>) -> (r: Option<Vec<u8>>)
    requires
        forall|i: int| 0 <= i < items@.len() ==> !(#[trigger] items@[i] is Other),
    ensures
        match r {
            Some(b) => xml_emitter_output(items_view(items@)) == Some(b@),
            None => xml_emitter_output(items_view(items@)) is None,
        },
        emits_cleanly(items_view(items@)) ==> r is Some,
        r matches Some(b) ==> valid_utf8(b@),
{
    let mut writer = EmitterConfig::new().perform_indent(true).create_writer(Vec::new());
    for item in items {
        writer.write(match item {
            XmlItem::Declaration { encoding, standalone } => WriteEvent::StartDocument { version: Version10, encoding: Some(encoding), standalone: Some(*standalone) },
            XmlItem::Start { name, attributes } => WriteEvent::StartElement { name: Name::from(name.as_str()), attributes: Owned(attributes.iter().map(|a| Attribute::new(Name::local(&a.name), &a.value)).collect()), namespace: Owned(Namespace::empty()) },
            XmlItem::End { name } => WriteEvent::EndElement { name: Some(Name::from(name.as_str())) },
            _ => continue,
        }).ok()?;
    }
    Some(writer.into_inner())
}

} // verus!
