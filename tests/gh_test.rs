use gh_context::error::{CliError, FormatProblem};
use gh_context::target::{parse_repo, parse_target, TargetType};

#[test]
fn test_parse_full_url_issue() {
    let input = "https://github.com/rust-lang/rust/issues/123";
    let target = parse_target(input, false, false).unwrap();
    assert_eq!(target.owner, "rust-lang");
    assert_eq!(target.repo, "rust");
    assert_eq!(target.number, 123);
    assert!(matches!(target.kind, TargetType::Issue));
}

#[test]
fn test_conflicting_flags() {
    let input = "rust-lang/rust#123";
    let err = parse_target(input, true, true).unwrap_err();
    assert!(err.message().contains("Cannot specify both --issue and --pr"));
}

#[test]
fn test_parse_full_url_pr() {
    let input = "https://github.com/rust-lang/rust/pull/456";
    let target = parse_target(input, false, false).unwrap();
    assert_eq!(target.owner, "rust-lang");
    assert_eq!(target.repo, "rust");
    assert_eq!(target.number, 456);
    assert!(matches!(target.kind, TargetType::Pr));
}

#[test]
fn test_parse_shorthand_ambiguous() {
    let input = "rust-lang/rust#789";
    let err = parse_target(input, false, false).unwrap_err();
    assert!(err.message().contains("Ambiguous shorthand"));
}

#[test]
fn test_parse_shorthand_forced_issue() {
    let input = "rust-lang/rust#789";
    let target = parse_target(input, true, false).unwrap();
    assert_eq!(target.owner, "rust-lang");
    assert_eq!(target.repo, "rust");
    assert_eq!(target.number, 789);
    assert!(matches!(target.kind, TargetType::Issue));
}

#[test]
fn test_parse_shorthand_forced_pr() {
    let input = "rust-lang/rust#789";
    let target = parse_target(input, false, true).unwrap();
    assert_eq!(target.owner, "rust-lang");
    assert_eq!(target.repo, "rust");
    assert_eq!(target.number, 789);
    assert!(matches!(target.kind, TargetType::Pr));
}

#[test]
fn test_invalid_url() {
    let input = "https://github.com/rust-lang/rust/blob/main/README.md";
    let err = parse_target(input, false, false).unwrap_err();
    assert!(err.message().contains("URL must contain 'issues' or 'pull'"));
}

#[test]
fn test_parse_full_url_with_fragment() {
    let input = "https://github.com/rust-lang/rust/issues/123#issuecomment-456";
    let target = parse_target(input, false, false).unwrap();
    assert_eq!(target.number, 123);
}

#[test]
fn test_parse_full_url_with_query() {
    let input = "https://github.com/rust-lang/rust/pull/789?w=1";
    let target = parse_target(input, false, false).unwrap();
    assert_eq!(target.number, 789);
}

#[test]
fn test_parse_repo_owner_repo() {
    let input = "rust-lang/rust";
    let (owner, repo) = parse_repo(input).unwrap();
    assert_eq!(owner, "rust-lang");
    assert_eq!(repo, "rust");
}

#[test]
fn test_parse_repo_full_url_issues() {
    let input = "https://github.com/rust-lang/rust/issues";
    let (owner, repo) = parse_repo(input).unwrap();
    assert_eq!(owner, "rust-lang");
    assert_eq!(repo, "rust");
}

#[test]
fn test_parse_repo_full_url_issues_with_query() {
    let input = "https://github.com/rust-lang/rust/issues?state=open";
    let (owner, repo) = parse_repo(input).unwrap();
    assert_eq!(owner, "rust-lang");
    assert_eq!(repo, "rust");
}

#[test]
fn test_parse_repo_rejects_pulls_url() {
    let input = "https://github.com/rust-lang/rust/pulls";
    let err = parse_repo(input).unwrap_err();
    assert!(err.message().contains("issues only"));
}

#[test]
fn test_parse_repo_rejects_issue_number() {
    let input = "https://github.com/rust-lang/rust/issues/123";
    let err = parse_repo(input).unwrap_err();
    assert!(err.message().contains("issue number"));
}

#[test]
fn url_with_fragment_keeps_owner_repo_and_kind() {
    let t = parse_target("https://github.com/rust-lang/rust/issues/123#issuecomment-456", false, false)
        .unwrap();
    assert_eq!(t.owner, "rust-lang");
    assert_eq!(t.repo, "rust");
    assert_eq!(t.kind, TargetType::Issue);
}

#[test]
fn url_with_extra_segments_is_accepted() {
    let t = parse_target("https://github.com/o/r/pull/42/files", false, false).unwrap();
    assert_eq!(t.number, 42);
    assert_eq!(t.kind, TargetType::Pr);
}

#[test]
fn url_flags_do_not_change_kind() {
    let t = parse_target("https://github.com/o/r/pull/7", true, false).unwrap();
    assert_eq!(t.kind, TargetType::Pr);
}

#[test]
fn url_too_short_is_refused() {
    let err = parse_target("https://github.com/o/r/issues", false, false).unwrap_err();
    assert_eq!(err, CliError::InvalidFormat(FormatProblem::UrlTooShort));
}

#[test]
fn url_with_bad_number_is_refused() {
    let err = parse_target("https://github.com/o/r/issues/12x", false, false).unwrap_err();
    assert_eq!(err, CliError::InvalidFormat(FormatProblem::UrlNumber));
    let err = parse_target("https://github.com/o/r/issues/", false, false).unwrap_err();
    assert_eq!(err, CliError::InvalidFormat(FormatProblem::UrlNumber));
}

#[test]
fn largest_number_is_read_and_one_more_is_refused() {
    let t = parse_target("o/r#18446744073709551615", true, false).unwrap();
    assert_eq!(t.number, u64::MAX);
    let err = parse_target("o/r#18446744073709551616", true, false).unwrap_err();
    assert_eq!(err, CliError::InvalidFormat(FormatProblem::ShorthandNumber));
}

#[test]
fn conflicting_flags_win_over_any_shape() {
    for input in ["", "garbage", "https://github.com/o/r/issues/1", "o/r#x"] {
        assert_eq!(parse_target(input, true, true).unwrap_err(), CliError::ConflictingFlags);
    }
}

#[test]
fn shorthand_with_bad_repo_part_is_refused() {
    for input in ["o#1", "a/b/c#1", "/r#1", "o/#1"] {
        assert_eq!(
            parse_target(input, true, false).unwrap_err(),
            CliError::InvalidFormat(FormatProblem::ShorthandRepo)
        );
    }
}

#[test]
fn shorthand_with_bad_number_is_refused() {
    assert_eq!(
        parse_target("o/r#", false, true).unwrap_err(),
        CliError::InvalidFormat(FormatProblem::ShorthandNumber)
    );
    assert_eq!(
        parse_target("o/r#-3", false, true).unwrap_err(),
        CliError::InvalidFormat(FormatProblem::ShorthandNumber)
    );
}

#[test]
fn plain_text_is_refused() {
    let err = parse_target("rust-lang/rust", true, false).unwrap_err();
    assert_eq!(err, CliError::InvalidFormat(FormatProblem::Unrecognized));
    assert!(err.message().contains("Must be a GitHub URL or owner/repo#number"));
}

#[test]
fn shorthand_with_non_ascii_names() {
    let t = parse_target("été/dépôt#5", true, false).unwrap();
    assert_eq!(t.owner, "été");
    assert_eq!(t.repo, "dépôt");
    assert_eq!(t.number, 5);
}

#[test]
fn parse_repo_refuses_other_shapes() {
    assert_eq!(
        parse_repo("https://github.com/o/r").unwrap_err(),
        CliError::InvalidFormat(FormatProblem::RepoUrlTooShort)
    );
    for input in ["owner", "a/b/c", "/r", "o/", ""] {
        assert_eq!(
            parse_repo(input).unwrap_err(),
            CliError::InvalidFormat(FormatProblem::RepoShape)
        );
    }
}

#[test]
fn parse_repo_url_with_fragment() {
    let (owner, repo) = parse_repo("https://github.com/o/r/issues#top").unwrap();
    assert_eq!(owner, "o");
    assert_eq!(repo, "r");
}

#[test]
fn url_owner_with_query_marker_is_kept() {
    let t = parse_target("https://github.com/a?b/r/issues/1", false, false).unwrap();
    assert_eq!(t.owner, "a?b");
    assert_eq!(t.repo, "r");
    assert_eq!(t.number, 1);
    assert_eq!(t.kind, TargetType::Issue);
}

#[test]
fn url_kind_with_query_marker_is_refused_as_kind() {
    let err = parse_target("https://github.com/o/r/issues?x/5", false, false).unwrap_err();
    assert_eq!(err, CliError::InvalidFormat(FormatProblem::UrlKind));
    assert!(err.message().contains("URL must contain 'issues' or 'pull'"));
}

#[test]
fn url_number_with_query_then_path_is_read() {
    let t = parse_target("https://github.com/o/r/pull/31?tab=files/x", false, false).unwrap();
    assert_eq!(t.number, 31);
    assert_eq!(t.kind, TargetType::Pr);
}
