//! Gesture events from the compositor's event stream, and which of them
//! reach the panels.
//!
//! The listener reads the stream one line at a time. Each line is the reply
//! to the event-stream request, a gesture event, or something else; the
//! decision what to do with it is [`route_line`].

use vstd::prelude::*;
use vstd::string::*;

verus! {

/// The gesture events of the compositor's event stream (other events are
/// not gestures and are not represented). `progress` is in parts per million.
#[derive(Debug, Clone)]
pub enum Event {
    Begin { tag: String, trigger: String, finger_count: u8, is_continuous: bool },
    Progress { tag: String, progress: i64 },
    End { tag: String, completed: bool },
}

/// Messages from the gesture listener to the panels.
#[derive(Debug, Clone)]
pub enum GestureMsg {
    Begin { tag: String, trigger: String, finger_count: u8, is_continuous: bool },
    Progress { tag: String, progress: i64 },
    End { tag: String, completed: bool },
    /// The event stream was lost or failed.
    Disconnected(String),
}

/// One line of the event stream, as the listener recognized it.
pub enum IncomingLine {
    /// Nothing but whitespace.
    Blank,
    /// The successful reply to the event-stream request.
    ReplyOk,
    /// The compositor refused the event-stream request, with this reason.
    ReplyErr(String),
    /// A gesture event.
    Event(Event),
    /// Any other event.
    Other,
}

/// What the listener does with one line.
pub enum LineOutcome {
    /// Read on.
    Skip,
    /// Hand this message to the panels.
    Forward(GestureMsg),
    /// Stop listening, with this error.
    Fail(String),
}

/// The tag an event is for.
pub open spec fn event_tag(e: Event) -> Seq<char> {
    match e {
        Event::Begin { tag, .. } => tag@,
        Event::Progress { tag, .. } => tag@,
        Event::End { tag, .. } => tag@,
    }
}

/// The message an event becomes: the same variant with the same fields.
pub open spec fn spec_event_msg(e: Event) -> GestureMsg {
    match e {
        Event::Begin { tag, trigger, finger_count, is_continuous } => GestureMsg::Begin {
            tag,
            trigger,
            finger_count,
            is_continuous,
        },
        Event::Progress { tag, progress } => GestureMsg::Progress { tag, progress },
        Event::End { tag, completed } => GestureMsg::End { tag, completed },
    }
}

/// Whether `tag` is one of `tags`.
pub open spec fn subscribed(tags: Seq<String>, tag: Seq<char>) -> bool {
    exists|i: int| 0 <= i < tags.len() && #[trigger] tags[i]@ == tag
}

/// The message a gesture event becomes.
pub fn event_to_msg(e: Event) -> (r: GestureMsg)
    ensures
        r == spec_event_msg(e),
{
    match e {
        Event::Begin { tag, trigger, finger_count, is_continuous } => GestureMsg::Begin {
            tag,
            trigger,
            finger_count,
            is_continuous,
        },
        Event::Progress { tag, progress } => GestureMsg::Progress { tag, progress },
        Event::End { tag, completed } => GestureMsg::End { tag, completed },
    }
}

/// Whether `tag` is one of `tags`.
pub fn contains_tag(tags: &Vec<String>, tag: &String) -> (r: bool)
    ensures
        r == subscribed(tags@, tag@),
{
    let n = tags.len();
    for i in 0..n
        invariant
            n == tags@.len(),
            forall|j: int| 0 <= j < i ==> #[trigger] tags@[j]@ != tag@,
    {
        if tags[i] == *tag {
            return true;
        }
    }
    false
}

/// The message for a gesture event if its tag is one the panels listen
/// to; events for other tags are dropped.
pub fn route_event(tags: &Vec<String>, e: Event) -> (r: Option<GestureMsg>)
    ensures
        r == (if subscribed(tags@, event_tag(e)) {
            Some(spec_event_msg(e))
        } else {
            None
        }),
{
    let wanted = match &e {
        Event::Begin { tag, .. } => contains_tag(tags, tag),
        Event::Progress { tag, .. } => contains_tag(tags, tag),
        Event::End { tag, .. } => contains_tag(tags, tag),
    };
    if wanted {
        Some(event_to_msg(e))
    } else {
        None
    }
}

/// Whether `r` is what the listener does with `line`: a refused request
/// ends the stream with `Niri rejected EventStream: <reason>`, a gesture
/// event for a listened-to tag is forwarded as its message, and everything
/// else (blank lines, the successful reply, other events, events for other
/// tags) is skipped.
pub open spec fn routes_line(tags: Seq<String>, line: IncomingLine, r: LineOutcome) -> bool {
    match line {
        IncomingLine::ReplyErr(reason) => r matches LineOutcome::Fail(m) && m@
            == "Niri rejected EventStream: "@ + reason@,
        IncomingLine::Event(e) => if subscribed(tags, event_tag(e)) {
            r == LineOutcome::Forward(spec_event_msg(e))
        } else {
            r is Skip
        },
        _ => r is Skip,
    }
}

/// Decide what to do with one line of the event stream (see [`routes_line`]).
pub fn route_line(tags: &Vec<String>, line: IncomingLine) -> (r: LineOutcome)
    ensures
        routes_line(tags@, line, r),
{
    match line {
        IncomingLine::Blank => LineOutcome::Skip,
        IncomingLine::ReplyOk => LineOutcome::Skip,
        IncomingLine::ReplyErr(reason) => {
            let mut msg = String::from_str("Niri rejected EventStream: ");
            msg.append(reason.as_str());
            LineOutcome::Fail(msg)
        },
        IncomingLine::Event(e) => match route_event(tags, e) {
            Some(m) => LineOutcome::Forward(m),
            None => LineOutcome::Skip,
        },
        IncomingLine::Other => LineOutcome::Skip,
    }
}

} // verus!
