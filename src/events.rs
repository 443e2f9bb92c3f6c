//! Reading the fields that the Markdown timeline shows out of raw timeline
//! events, which arrive as JSON values.
use vstd::prelude::*;

use crate::record::{opt_text, UnifiedRecord};
use crate::render::{markdown, to_markdown, EventLine, LineView};

verus! {

/// `serde_json::Value`, carried through as an opaque value.
#[verifier::external_type_specification]
#[verifier::external_body]
pub struct ExJsonValue(serde_json::Value);

/// The member of a JSON object under a key; `None` for a missing key or a
/// value that is not an object.
pub uninterp spec fn json_member(v: serde_json::Value, key: Seq<char>) -> Option<serde_json::Value>;

/// The text of a JSON string; `None` for any other value.
pub uninterp spec fn json_str(v: serde_json::Value) -> Option<Seq<char>>;

/// Relies on `serde_json::Value::get` with a string key: the member of an
/// object under `key`; `None` for a missing key or a value that is not an
/// object.
#[verifier::external_body]
fn member<'a>(v: &'a serde_json::Value, key: &str) -> (r: Option<&'a serde_json::Value>)
    ensures
        json_member(*v, key@) == match r {
            Some(m) => Some(*m),
            None => None::<serde_json::Value>,
        },
{
    v.get(key)
}

/// Relies on `serde_json::Value::as_str`: the text of a JSON string; `None`
/// for any other value.
#[verifier::external_body]
fn string_text(v: &serde_json::Value) -> (r: Option<String>)
    ensures
        opt_text(r) == json_str(*v),
{
    v.as_str().map(str::to_owned)
}

/// The string stored under `key` of an object, if there is one.
pub open spec fn text_member_of(v: serde_json::Value, key: Seq<char>) -> Option<Seq<char>> {
    match json_member(v, key) {
        Some(m) => json_str(m),
        None => None,
    }
}

/// The login of an event's actor, if it is a string.
pub open spec fn actor_login_of(v: serde_json::Value) -> Option<Seq<char>> {
    match json_member(v, "actor"@) {
        Some(a) => text_member_of(a, "login"@),
        None => None,
    }
}

/// The line an event shows in the timeline: its kind (`event`), the actor's
/// login (`actor.login`) and its time (`created_at`); none for an event
/// whose `event` member is not a string.
pub open spec fn line_of(v: serde_json::Value) -> Option<LineView> {
    match text_member_of(v, "event"@) {
        Some(kind) => Some((kind, actor_login_of(v), text_member_of(v, "created_at"@))),
        None => None,
    }
}

/// The lines of a timeline, in timeline order, leaving out events without a
/// line.
pub open spec fn lines_of(events: Seq<serde_json::Value>) -> Seq<LineView>
    decreases events.len(),
{
    if events.len() == 0 {
        Seq::empty()
    } else {
        match line_of(events.last()) {
            Some(l) => lines_of(events.drop_last()).push(l),
            None => lines_of(events.drop_last()),
        }
    }
}

fn text_member(v: &serde_json::Value, key: &str) -> (r: Option<String>)
    ensures
        opt_text(r) == text_member_of(*v, key@),
{
    match member(v, key) {
        Some(m) => string_text(m),
        None => None,
    }
}

/// The shown fields of one event, or `None` for an event whose kind is not
/// a string.
pub fn event_line(event: &serde_json::Value) -> (r: Option<EventLine>)
    ensures
        line_of(*event) == match r {
            Some(l) => Some(l@),
            None => None::<LineView>,
        },
{
    let kind = match text_member(event, "event") {
        Some(k) => k,
        None => {
            return None;
        },
    };
    let actor = match member(event, "actor") {
        Some(a) => text_member(a, "login"),
        None => None,
    };
    let created_at = text_member(event, "created_at");
    Some(EventLine { kind, actor, created_at })
}

/// The shown events of a timeline, in timeline order; events whose kind is
/// not a string are left out.
pub fn event_lines(events: &Vec<serde_json::Value>) -> (r: Vec<EventLine>)
    ensures
        r@.map_values(|l: EventLine| l@) == lines_of(events@),
{
    let mut lines: Vec<EventLine> = Vec::new();
    let mut i: usize = 0;
    while i < events.len()
        invariant
            i <= events@.len(),
            lines@.map_values(|l: EventLine| l@) == lines_of(events@.subrange(0, i as int)),
        decreases events@.len() - i,
    {
        let ghost before = lines@;
        let next = event_line(&events[i]);
        proof {
            let p = events@.subrange(0, i + 1);
            assert(p.drop_last() =~= events@.subrange(0, i as int));
            assert(p.last() == events@[i as int]);
        }
        match next {
            Some(line) => {
                lines.push(line);
                assert(lines@.map_values(|l: EventLine| l@) =~= before.map_values(
                    |l: EventLine| l@,
                ).push(lines@.last()@));
            },
            None => {},
        }
        i = i + 1;
    }
    assert(events@.subrange(0, i as int) =~= events@);
    lines
}

/// Renders a record as Markdown with the timeline read from raw events.
pub fn timeline_markdown(record: &UnifiedRecord, events: &Vec<serde_json::Value>) -> (r: String)
    ensures
        r@ == markdown(*record, lines_of(events@)),
{
    let lines = event_lines(events);
    to_markdown(record, &lines)
}

proof fn lemma_lines_of_concat(a: Seq<serde_json::Value>, b: Seq<serde_json::Value>)
    ensures
        lines_of(a + b) == lines_of(a) + lines_of(b),
    decreases b.len(),
{
    if b.len() == 0 {
        assert(a + b =~= a);
        assert(lines_of(a) + lines_of(b) =~= lines_of(a));
    } else {
        assert((a + b).drop_last() =~= a + b.drop_last());
        assert((a + b).last() == b.last());
        lemma_lines_of_concat(a, b.drop_last());
        match line_of(b.last()) {
            Some(l) => {
                assert(lines_of(a) + lines_of(b.drop_last()).push(l) =~= (lines_of(a) + lines_of(
                    b.drop_last(),
                )).push(l));
            },
            None => {},
        }
    }
}

/// An event whose kind is not a string changes nothing in the rendering,
/// wherever it stands in the timeline.
pub proof fn law_kindless_event_skipped(
    record: UnifiedRecord,
    before: Seq<serde_json::Value>,
    event: serde_json::Value,
    after: Seq<serde_json::Value>,
)
    requires
        text_member_of(event, "event"@) is None,
    ensures
        markdown(record, lines_of(before + seq![event] + after)) == markdown(
            record,
            lines_of(before + after),
        ),
{
    lemma_lines_of_concat(before + seq![event], after);
    lemma_lines_of_concat(before, seq![event]);
    lemma_lines_of_concat(before, after);
    let one = seq![event];
    assert(one.drop_last() =~= Seq::<serde_json::Value>::empty());
    assert(one.last() == event);
    assert(line_of(event) is None);
    assert(lines_of(Seq::<serde_json::Value>::empty()) =~= Seq::<LineView>::empty());
    assert(lines_of(one) == lines_of(one.drop_last()));
    assert(lines_of(one) =~= Seq::<LineView>::empty());
    assert(lines_of(before) + lines_of(seq![event]) =~= lines_of(before));
}

} // verus!
