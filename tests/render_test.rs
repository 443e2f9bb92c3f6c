use gh_context::events::{event_line, event_lines, timeline_markdown};
use gh_context::record::{Metadata, UnifiedComment, UnifiedRecord};
use gh_context::render::{to_markdown, EventLine};

fn record() -> UnifiedRecord {
    UnifiedRecord {
        metadata: Metadata {
            repo: "o/r".to_string(),
            number: 3,
            item_type: "issue".to_string(),
            url: "https://github.com/o/r/issues/3".to_string(),
            author: "amy".to_string(),
        },
        title: "Crash".to_string(),
        body: "It fails.".to_string(),
        comments: vec![
            UnifiedComment {
                author: "bo".to_string(),
                body: "Same here".to_string(),
                created_at: Some("2024-05-01".to_string()),
            },
            UnifiedComment { author: "ghost".to_string(), body: "+1".to_string(), created_at: None },
        ],
    }
}

#[test]
fn markdown_has_every_section_in_order() {
    let events = vec![
        EventLine {
            kind: "labeled".to_string(),
            actor: Some("cy".to_string()),
            created_at: Some("2024-05-02".to_string()),
        },
        EventLine { kind: "closed".to_string(), actor: None, created_at: None },
    ];
    let md = to_markdown(&record(), &events);
    let expected = "# Crash\n\nURL: https://github.com/o/r/issues/3\n\n## Body\n\nIt fails.\n\n\
## Comments\n\n### Comment 1 by bo\n_2024-05-01_\n\nSame here\n\n---\n\n\
### Comment 2 by ghost\n\n+1\n\n---\n\n\
## Timeline Events\n\n- **labeled** by **cy** at 2024-05-02\n- **closed** by **unknown** at -\n";
    assert_eq!(md, expected);
}

#[test]
fn markdown_without_comments_or_events() {
    let mut r = record();
    r.comments.clear();
    let md = to_markdown(&r, &Vec::new());
    assert!(md.ends_with("## Comments\n\n## Timeline Events\n\n"));
}

#[test]
fn event_fields_are_read() {
    let v: serde_json::Value = serde_json::from_str(
        "{\"event\":\"closed\",\"actor\":{\"login\":\"dee\"},\"created_at\":\"2024-06-01\"}",
    )
    .unwrap();
    let line = event_line(&v).unwrap();
    assert_eq!(line.kind, "closed");
    assert_eq!(line.actor.as_deref(), Some("dee"));
    assert_eq!(line.created_at.as_deref(), Some("2024-06-01"));
}

#[test]
fn events_without_kind_are_skipped() {
    let events: Vec<serde_json::Value> = serde_json::from_str(
        "[{\"event\":\"labeled\"},{\"actor\":{\"login\":\"x\"}},{\"event\":5},{\"event\":\"closed\",\"actor\":null}]",
    )
    .unwrap();
    let lines = event_lines(&events);
    assert_eq!(lines.len(), 2);
    assert_eq!(lines[0].kind, "labeled");
    assert!(lines[0].actor.is_none());
    assert!(lines[0].created_at.is_none());
    assert_eq!(lines[1].kind, "closed");
    assert!(lines[1].actor.is_none());
}

#[test]
fn timeline_markdown_skips_kindless_events() {
    let with: Vec<serde_json::Value> = serde_json::from_str(
        "[{\"event\":\"closed\",\"actor\":{\"login\":\"x\"},\"created_at\":\"t\"},{\"id\":1},{\"event\":\"reopened\"}]",
    )
    .unwrap();
    let without: Vec<serde_json::Value> = serde_json::from_str(
        "[{\"event\":\"closed\",\"actor\":{\"login\":\"x\"},\"created_at\":\"t\"},{\"event\":\"reopened\"}]",
    )
    .unwrap();
    let a = timeline_markdown(&record(), &with);
    assert_eq!(a, timeline_markdown(&record(), &without));
    assert!(a.ends_with(
        "## Timeline Events\n\n- **closed** by **x** at t\n- **reopened** by **unknown** at -\n"
    ));
}

#[test]
fn event_with_non_string_fields() {
    let v: serde_json::Value =
        serde_json::from_str("{\"event\":\"merged\",\"actor\":{\"login\":7},\"created_at\":null}").unwrap();
    let line = event_line(&v).unwrap();
    assert_eq!(line.kind, "merged");
    assert!(line.actor.is_none());
    assert!(line.created_at.is_none());
    let not_object: serde_json::Value = serde_json::from_str("[1,2]").unwrap();
    assert!(event_line(&not_object).is_none());
}
