use vstd::prelude::*;

use crate::events::{next_event, open_events, pending_events, well_terminated, xml_events, EventView, XmlItem};
use crate::text::{pairs_view, text_eq};
use crate::types::{outcome_of, Outcome, ServiceResponse, VerifyError};

verus! {

/// The reason given when the reply holds neither outcome element.
pub open spec fn no_reply_reason() -> Seq<char> {
    "did not detect authentication reply from CAS server"@
}

/// The value of the first attribute named `code` at index `i` or later.
pub open spec fn code_attr_from(attrs: Seq<(Seq<char>, Seq<char>)>, i: int) -> Option<Seq<char>>
    decreases attrs.len() - i,
{
    if i < 0 || i >= attrs.len() {
        None
    } else if attrs[i].0 == "code"@ {
        Some(attrs[i].1)
    } else {
        code_attr_from(attrs, i + 1)
    }
}

/// The rejection reason of an `authenticationFailure` element: its `code`
/// attribute, else its first attribute, else empty.
pub open spec fn failure_reason(attrs: Seq<(Seq<char>, Seq<char>)>) -> Seq<char> {
    match code_attr_from(attrs, 0) {
        Some(v) => v,
        None => if attrs.len() > 0 {
            attrs[0].1
        } else {
            Seq::empty()
        },
    }
}

/// The interpreter's verdict on `events` from index `i` on, in state
/// `expecting` (an `authenticationSuccess` element has been opened).
pub open spec fn interpret_from(events: Seq<EventView>, i: int, expecting: bool) -> Outcome
    decreases events.len() - i,
{
    if i < 0 || i >= events.len() {
        Outcome::Failure(no_reply_reason())
    } else {
        match events[i] {
            EventView::Start(name, attrs) => if name == "authenticationSuccess"@ {
                interpret_from(events, i + 1, true)
            } else if name == "authenticationFailure"@ {
                Outcome::Failure(failure_reason(attrs))
            } else {
                interpret_from(events, i + 1, expecting)
            },
            EventView::Text(t) => if expecting {
                Outcome::Success(t)
            } else {
                interpret_from(events, i + 1, expecting)
            },
            EventView::End => Outcome::Failure(no_reply_reason()),
            EventView::Malformed => Outcome::Malformed,
            EventView::Other => interpret_from(events, i + 1, expecting),
        }
    }
}

/// The verdict on a whole event sequence, starting idle.
pub open spec fn interpret(events: Seq<EventView>) -> Outcome {
    interpret_from(events, 0, false)
}

/// The start of an `authenticationSuccess` or `authenticationFailure` element.
pub open spec fn is_outcome_start(e: EventView) -> bool {
    e matches EventView::Start(name, _) && (name == "authenticationSuccess"@ || name
        == "authenticationFailure"@)
}

proof fn lemma_idle_without_outcome(events: Seq<EventView>, i: int)
    requires
        0 <= i,
        forall|k: int|
            i <= k < events.len() ==> !(#[trigger] events[k] is Malformed) && !is_outcome_start(
                events[k],
            ),
    ensures
        interpret_from(events, i, false) == Outcome::Failure(no_reply_reason()),
    decreases events.len() - i,
{
    if i < events.len() {
        assert(!(events[i] is Malformed) && !is_outcome_start(events[i]));
        lemma_idle_without_outcome(events, i + 1);
    }
}

/// A reply with no malformation and neither an `authenticationSuccess` nor
/// an `authenticationFailure` element is a failure with the fixed no-reply
/// reason, not an error.
pub proof fn no_outcome_element_gives_no_reply(body: Seq<u8>)
    requires
        forall|k: int|
            0 <= k < xml_events(body).len() ==> !(#[trigger] xml_events(body)[k] is Malformed)
                && !is_outcome_start(xml_events(body)[k]),
    ensures
        interpret(xml_events(body)) == Outcome::Failure(no_reply_reason()),
{
    lemma_idle_without_outcome(xml_events(body), 0);
}

proof fn lemma_idle_until_malformed(events: Seq<EventView>, i: int, j: int)
    requires
        0 <= i <= j < events.len(),
        events[j] is Malformed,
        forall|k: int|
            0 <= k < j ==> !(#[trigger] events[k] is End) && !is_outcome_start(events[k]),
    ensures
        interpret_from(events, i, false) == Outcome::Malformed,
    decreases j - i,
{
    if i < j {
        assert(!(events[i] is End) && !is_outcome_start(events[i]));
        lemma_idle_until_malformed(events, i + 1, j);
    }
}

/// A reply that turns out malformed before any outcome element opens is a
/// parse error.
pub proof fn malformed_before_outcome_is_error(body: Seq<u8>, j: int)
    requires
        0 <= j < xml_events(body).len(),
        xml_events(body)[j] is Malformed,
        forall|k: int|
            0 <= k < j ==> !(#[trigger] xml_events(body)[k] is End) && !is_outcome_start(
                xml_events(body)[k],
            ),
    ensures
        interpret(xml_events(body)) == Outcome::Malformed,
{
    lemma_idle_until_malformed(xml_events(body), 0, j);
}

/// Picks the rejection reason out of a failure element's attributes.
pub fn failure_reason_of(attrs: &Vec<(String, String)>) -> (r: String)
    ensures
        r@ == failure_reason(pairs_view(attrs@)),
{
    let ghost av = pairs_view(attrs@);
    let mut i: usize = 0;
    while i < attrs.len()
        invariant
            i <= attrs.len(),
            av == pairs_view(attrs@),
            code_attr_from(av, 0) == code_attr_from(av, i as int),
        decreases attrs.len() - i,
    {
        if text_eq(attrs[i].0.as_str(), "code") {
            return attrs[i].1.clone();
        }
        i = i + 1;
    }
    if attrs.len() > 0 {
        attrs[0].1.clone()
    } else {
        String::new()
    }
}

/// Interprets the validation server's reply `body`, pulling its XML events
/// one at a time and stopping at the first one that decides the outcome.
pub fn interpret_response(body: Vec<u8>) -> (r: Result<ServiceResponse, VerifyError>)
    ensures
        outcome_of(&r) == Some(interpret(xml_events(body@))),
{
    let ghost events = xml_events(body@);
    let mut reader = open_events(body);
    let mut expecting = false;
    let ghost mut i: int = 0;
    loop
        invariant
            events == xml_events(body@),
            well_terminated(events),
            0 <= i < events.len(),
            pending_events(reader) == events.subrange(i, events.len() as int),
            interpret(events) == interpret_from(events, i, expecting),
        decreases events.len() - i,
    {
        let e = next_event(&mut reader);
        assert(e@ == events[i]);
        match e {
            XmlItem::StartElement { local_name, attributes } => {
                if text_eq(local_name.as_str(), "authenticationSuccess") {
                    expecting = true;
                } else if text_eq(local_name.as_str(), "authenticationFailure") {
                    return Ok(ServiceResponse::Failure(failure_reason_of(&attributes)));
                }
            },
            XmlItem::Characters(s) => {
                if expecting {
                    return Ok(ServiceResponse::Success(s));
                }
            },
            XmlItem::EndDocument => {
                return Ok(ServiceResponse::Failure("did not detect authentication reply from CAS server".to_owned()));
            },
            XmlItem::Malformed(err) => {
                return Err(VerifyError::Xml(err));
            },
            XmlItem::Other => {},
        }
        proof {
            assert(!events[i].is_terminal());
            assert(pending_events(reader) =~= events.subrange(i + 1, events.len() as int));
            i = i + 1;
        }
    }
}

} // verus!
