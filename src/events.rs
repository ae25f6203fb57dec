use vstd::prelude::*;

use crate::text::pairs_view;

verus! {

/// What the interpreter sees of one XML parse event.
pub ghost enum EventView {
    /// Start of an element: its local name and its attributes
    /// as (local name, value) pairs, in document order.
    Start(Seq<char>, Seq<(Seq<char>, Seq<char>)>),
    /// Character data.
    Text(Seq<char>),
    /// End of the document.
    End,
    /// The tokenizer found the document malformed.
    Malformed,
    /// Any other event.
    Other,
}

impl EventView {
    pub open spec fn is_terminal(self) -> bool {
        self is End || self is Malformed
    }
}

/// One XML parse event, with the parts that the interpreter reads.
#[derive(Debug)]
pub enum XmlItem {
    StartElement { local_name: String, attributes: Vec<(String, String)> },
    Characters(String),
    EndDocument,
    Malformed(xml::reader::Error),
    Other,
}

impl View for XmlItem {
    type V = EventView;

    open spec fn view(&self) -> EventView {
        match self {
            XmlItem::StartElement { local_name, attributes } => EventView::Start(
                local_name@,
                pairs_view(attributes@),
            ),
            XmlItem::Characters(s) => EventView::Text(s@),
            XmlItem::EndDocument => EventView::End,
            XmlItem::Malformed(_) => EventView::Malformed,
            XmlItem::Other => EventView::Other,
        }
    }
}

/// A finite event sequence whose last event, and only that one, ends the
/// document or reports it malformed.
pub open spec fn well_terminated(events: Seq<EventView>) -> bool {
    &&& events.len() > 0
    &&& events.last().is_terminal()
    &&& forall|i: int| 0 <= i < events.len() - 1 ==> !(#[trigger] events[i]).is_terminal()
}

/// The events that xml-rs produces from the document `body`, up to and
/// including the first one that ends the document or reports an error.
pub uninterp spec fn xml_events(body: Seq<u8>) -> Seq<EventView>;

#[verifier::external_type_specification]
#[verifier::external_body]
pub struct ExXmlError(xml::reader::Error);

/// A pull reader of XML events over a response body held in memory.
/// Verus cannot declare `xml::reader::EventReader` itself (its parameter is
/// bound by `std::io::Read`), so the reader is kept opaque here and
/// described through `pending_events`.
#[verifier::external_body]
pub struct BodyReader {
    reader: xml::reader::EventReader<std::io::Cursor<Vec<u8>>>,
}

/// The events that a reader has still to hand out.
pub uninterp spec fn pending_events(r: BodyReader) -> Seq<EventView>;

/// Relies on `xml::reader::EventReader::new` over an in-memory cursor: the
/// reader pulls the events of `body` one at a time, and its stream ends with
/// the first `EndDocument` or error.
#[verifier::external_body]
pub(crate) fn open_events(body: Vec<u8>) -> (r: BodyReader)
    ensures
        pending_events(r) == xml_events(body@),
        well_terminated(pending_events(r)),
{
    BodyReader { reader: xml::reader::EventReader::new(std::io::Cursor::new(body)) }
}

/// Relies on `xml::reader::EventReader::next`: it hands out the next event,
/// and once it has returned `EndDocument` or an error it returns that again.
#[verifier::external_body]
pub(crate) fn next_event(reader: &mut BodyReader) -> (e: XmlItem)
    requires
        pending_events(*old(reader)).len() > 0,
    ensures
        e@ == pending_events(*old(reader))[0],
        pending_events(*final(reader)) == if pending_events(*old(reader)).len() > 1 {
            pending_events(*old(reader)).drop_first()
        } else {
            pending_events(*old(reader))
        },
{
    match reader.reader.next() {
        Ok(xml::reader::XmlEvent::StartElement { name, attributes, .. }) => XmlItem::StartElement {
            local_name: name.local_name,
            attributes: attributes.into_iter().map(|a| (a.name.local_name, a.value)).collect(),
        },
        Ok(xml::reader::XmlEvent::Characters(s)) => XmlItem::Characters(s),
        Ok(xml::reader::XmlEvent::EndDocument) => XmlItem::EndDocument,
        Ok(_) => XmlItem::Other,
        Err(e) => XmlItem::Malformed(e),
    }
}

} // verus!
