use gh_context::args::OutputFormat;
use gh_context::batch::{issue_numbers, plan_bulk_run, BulkRun};
use gh_context::outdir::PathState;
use gh_context::batch::{
    decimal_string, item_file_name, item_stem_name, output_extension, plan_bulk, range_next, work_item, BulkPlan,
};
use gh_context::record::{build_record, unify_comment, GhAuthor, GhComment, GhResponse};
use gh_context::target::{Target, TargetType};

#[test]
fn decimal_string_writes_numbers() {
    assert_eq!(decimal_string(0), "0");
    assert_eq!(decimal_string(7), "7");
    assert_eq!(decimal_string(10), "10");
    assert_eq!(decimal_string(123), "123");
    assert_eq!(decimal_string(u64::MAX), "18446744073709551615");
}

#[test]
fn extensions() {
    assert_eq!(output_extension(&OutputFormat::Json), "json");
    assert_eq!(output_extension(&OutputFormat::Md), "md");
}

#[test]
fn file_names_follow_repo_kind_number() {
    assert_eq!(item_file_name("rust", TargetType::Issue, 42, OutputFormat::Md), "rust-issue-42.md");
    assert_eq!(item_file_name("rust", TargetType::Pr, 7, OutputFormat::Json), "rust-pr-7.json");
}

#[test]
fn empty_listing_is_nothing_found() {
    let plan = plan_bulk("o", "r", &Vec::new(), OutputFormat::Md);
    assert!(matches!(plan, BulkPlan::NothingFound));
}

#[test]
fn bulk_plan_keeps_order_and_repeats() {
    let plan = plan_bulk("o", "r", &vec![5, 3, 5], OutputFormat::Json);
    match plan {
        BulkPlan::Items(items) => {
            let numbers: Vec<u64> = items.iter().map(|w| w.target.number).collect();
            assert_eq!(numbers, vec![5, 3, 5]);
            assert_eq!(items[1].file_name, "r-issue-3.json");
            assert_eq!(items[0].target.owner, "o");
            assert_eq!(items[0].target.kind, TargetType::Issue);
        }
        BulkPlan::NothingFound => panic!("expected items"),
    }
}

#[test]
fn range_walks_closed_interval() {
    let mut seen = Vec::new();
    let mut next = Some(10u64);
    while let Some(n) = next {
        seen.push(n);
        next = range_next(n, 12);
    }
    assert_eq!(seen, vec![10, 11, 12]);
    assert_eq!(range_next(u64::MAX, u64::MAX), None);
}

#[test]
fn work_item_for_pull_request() {
    let w = work_item("o", "r", 9, TargetType::Pr, OutputFormat::Md);
    assert_eq!(w.target.repo, "r");
    assert_eq!(w.file_name, "r-pr-9.md");
}

#[test]
fn record_uses_fallback_authors() {
    let target = Target { owner: "o".to_string(), repo: "r".to_string(), number: 4, kind: TargetType::Pr };
    let resp = GhResponse {
        title: "T".to_string(),
        body: "B".to_string(),
        url: "https://github.com/o/r/pull/4".to_string(),
        number: 4,
        comments: vec![
            GhComment { author: None, body: "first".to_string(), created_at: None },
            GhComment {
                author: Some(GhAuthor { login: "amy".to_string() }),
                body: "second".to_string(),
                created_at: Some("2024-01-01".to_string()),
            },
        ],
        author: None,
    };
    let rec = build_record(&target, &resp);
    assert_eq!(rec.metadata.repo, "o/r");
    assert_eq!(rec.metadata.item_type, "pr");
    assert_eq!(rec.metadata.author, "unknown");
    assert_eq!(rec.metadata.number, 4);
    assert_eq!(rec.title, "T");
    assert_eq!(rec.comments.len(), 2);
    assert_eq!(rec.comments[0].author, "ghost");
    assert_eq!(rec.comments[1].author, "amy");
    assert_eq!(rec.comments[1].created_at.as_deref(), Some("2024-01-01"));
}

#[test]
fn comment_keeps_author() {
    let c = GhComment {
        author: Some(GhAuthor { login: "bo".to_string() }),
        body: "hi".to_string(),
        created_at: None,
    };
    let u = unify_comment(&c);
    assert_eq!(u.author, "bo");
    assert_eq!(u.body, "hi");
    assert!(u.created_at.is_none());
}

#[test]
fn stem_names_single_item_folder() {
    assert_eq!(item_stem_name("rust", TargetType::Pr, 1000), "rust-pr-1000");
}

fn bulk_cli() -> gh_context::args::Cli {
    gh_context::args::Cli {
        input: "o/r".to_string(),
        format: OutputFormat::Md,
        out: None,
        clip: false,
        issue: false,
        pr: false,
        bulk: true,
        state: gh_context::args::IssueState::Open,
        per_page: 30,
        pages: 1,
        from: None,
        to: None,
    }
}

#[test]
fn bulk_run_with_empty_listing_touches_no_directory() {
    let run = plan_bulk_run(&bulk_cli(), "o", "r", &Vec::new(), PathState::PlainFile);
    assert!(matches!(run, Ok(BulkRun::NothingFound)));
}

#[test]
fn bulk_run_resolves_directory_and_items() {
    match plan_bulk_run(&bulk_cli(), "o", "r", &vec![8, 2], PathState::Absent) {
        Ok(BulkRun::Write { dir, items }) => {
            assert_eq!(dir.path, "r-issues");
            assert!(dir.create);
            assert_eq!(items.len(), 2);
            assert_eq!(items[0].file_name, "r-issue-8.md");
            assert_eq!(items[1].target.number, 2);
        }
        _ => panic!("expected a write plan"),
    }
    let err = plan_bulk_run(&bulk_cli(), "o", "r", &vec![8], PathState::PlainFile).unwrap_err();
    assert!(err.message().contains("directory"));
}

#[test]
fn listing_keeps_issues_only_in_order() {
    assert_eq!(issue_numbers(&vec![(4, false), (5, true), (1, false), (4, false)]), vec![4, 1, 4]);
    assert!(issue_numbers(&vec![(9, true)]).is_empty());
}
