//! Markdown rendering of a unified record.
use vstd::prelude::*;
use vstd::string::*;

use crate::batch::{decimal, decimal_string};
use crate::record::{opt_text, UnifiedComment, UnifiedRecord};

verus! {

/// One timeline event, as far as the rendering reads it.
#[derive(Clone, Debug)]
pub struct EventLine {
    /// The event's kind, such as `labeled` or `closed`.
    pub kind: String,
    pub actor: Option<String>,
    pub created_at: Option<String>,
}

/// An event line as plain values: kind, actor's login, time.
pub type LineView = (Seq<char>, Option<Seq<char>>, Option<Seq<char>>);

impl View for EventLine {
    type V = LineView;

    open spec fn view(&self) -> LineView {
        (self.kind@, opt_text(self.actor), opt_text(self.created_at))
    }
}

pub open spec fn text_or(o: Option<Seq<char>>, fallback: Seq<char>) -> Seq<char> {
    match o {
        Some(s) => s,
        None => fallback,
    }
}

/// The section of comment number `n` (counted from one).
pub open spec fn comment_md(n: nat, c: UnifiedComment) -> Seq<char> {
    "### Comment "@ + decimal(n) + " by "@ + c.author@ + "\n"@ + match c.created_at {
        Some(d) => "_"@ + d@ + "_\n"@,
        None => Seq::empty(),
    } + "\n"@ + c.body@ + "\n\n---\n\n"@
}

pub open spec fn comments_md(cs: Seq<UnifiedComment>) -> Seq<char>
    decreases cs.len(),
{
    if cs.len() == 0 {
        Seq::empty()
    } else {
        comments_md(cs.drop_last()) + comment_md(cs.len(), cs.last())
    }
}

/// The timeline line of one event; an unknown actor shows as `unknown`, an
/// unknown time as `-`.
pub open spec fn event_md(e: LineView) -> Seq<char> {
    "- **"@ + e.0 + "** by **"@ + text_or(e.1, "unknown"@) + "** at "@ + text_or(e.2, "-"@)
        + "\n"@
}

pub open spec fn events_md(es: Seq<LineView>) -> Seq<char>
    decreases es.len(),
{
    if es.len() == 0 {
        Seq::empty()
    } else {
        events_md(es.drop_last()) + event_md(es.last())
    }
}

/// The Markdown document of a record and its timeline.
pub open spec fn markdown(r: UnifiedRecord, events: Seq<LineView>) -> Seq<char> {
    "# "@ + r.title@ + "\n\n"@ + "URL: "@ + r.metadata.url@ + "\n\n"@ + "## Body\n\n"@ + r.body@
        + "\n\n"@ + "## Comments\n\n"@ + comments_md(r.comments@) + "## Timeline Events\n\n"@
        + events_md(events)
}

fn comment_section(n: u64, c: &UnifiedComment) -> (r: String)
    ensures
        r@ == comment_md(n as nat, *c),
{
    let head = "### Comment ".to_owned().concat(decimal_string(n).as_str()).concat(" by ").concat(
        c.author.as_str(),
    ).concat("\n");
    let head = match &c.created_at {
        Some(d) => head.concat("_").concat(d.as_str()).concat("_\n"),
        None => head,
    };
    head.concat("\n").concat(c.body.as_str()).concat("\n\n---\n\n")
}

fn event_entry(e: &EventLine) -> (r: String)
    ensures
        r@ == event_md(e@),
{
    let actor: &str = match &e.actor {
        Some(a) => a.as_str(),
        None => "unknown",
    };
    let at: &str = match &e.created_at {
        Some(t) => t.as_str(),
        None => "-",
    };
    "- **".to_owned().concat(e.kind.as_str()).concat("** by **").concat(actor).concat(
        "** at ",
    ).concat(at).concat("\n")
}

/// Renders a record as Markdown: title, URL, body, each comment numbered
/// from one in order, then one line per timeline event.
pub fn to_markdown(record: &UnifiedRecord, events: &Vec<EventLine>) -> (r: String)
    ensures
        r@ == markdown(*record, events@.map_values(|e: EventLine| e@)),
{
    let mut md = "# ".to_owned().concat(record.title.as_str()).concat("\n\n").concat(
        "URL: ",
    ).concat(record.metadata.url.as_str()).concat("\n\n").concat("## Body\n\n").concat(
        record.body.as_str(),
    ).concat("\n\n").concat("## Comments\n\n");
    let ghost start = md@;
    let cs = &record.comments;
    let mut i: usize = 0;
    while i < cs.len()
        invariant
            i <= cs@.len(),
            md@ == start + comments_md(cs@.subrange(0, i as int)),
        decreases cs@.len() - i,
    {
        let sec = comment_section((i + 1) as u64, &cs[i]);
        proof {
            let p = cs@.subrange(0, i + 1);
            assert(p.drop_last() =~= cs@.subrange(0, i as int));
        }
        md = md.concat(sec.as_str());
        i = i + 1;
    }
    assert(cs@.subrange(0, i as int) =~= cs@);
    md = md.concat("## Timeline Events\n\n");
    let ghost mid = md@;
    let mut j: usize = 0;
    while j < events.len()
        invariant
            j <= events@.len(),
            md@ == mid + events_md(events@.subrange(0, j as int).map_values(|e: EventLine| e@)),
        decreases events@.len() - j,
    {
        let line = event_entry(&events[j]);
        proof {
            let p = events@.subrange(0, j + 1).map_values(|e: EventLine| e@);
            assert(p.drop_last() =~= events@.subrange(0, j as int).map_values(|e: EventLine| e@));
            assert(p.last() == events@[j as int]@);
        }
        md = md.concat(line.as_str());
        j = j + 1;
    }
    assert(events@.subrange(0, j as int) =~= events@);
    assert(events@.subrange(0, j as int).map_values(|e: EventLine| e@) =~= events@.map_values(
        |e: EventLine| e@,
    ));
    md
}

} // verus!
