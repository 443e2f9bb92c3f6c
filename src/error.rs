//! The ways in which an invocation can be rejected, each with the message
//! shown to the user.
use vstd::prelude::*;

verus! {

/// Which shape rule a reference string broke.
#[derive(Clone, Copy, Debug, PartialEq, Eq, Structural)]
pub enum FormatProblem {
    /// A web URL with fewer than four path segments.
    UrlTooShort,
    /// A web URL whose third segment is neither `issues` nor `pull`.
    UrlKind,
    /// A web URL whose fourth segment is not a number.
    UrlNumber,
    /// Shorthand whose part before `#` is not `owner/repo`.
    ShorthandRepo,
    /// Shorthand whose part after `#` is not a number.
    ShorthandNumber,
    /// Neither a web URL nor shorthand.
    Unrecognized,
    /// A repository URL with fewer than three path segments.
    RepoUrlTooShort,
    /// A repository URL that does not point at the issue list.
    RepoUrlNotIssues,
    /// A repository URL that points at one numbered issue.
    RepoUrlHasNumber,
    /// A bare repository that is not `owner/repo`.
    RepoShape,
}

/// Which flag does not go with the mode that was asked for.
#[derive(Clone, Copy, Debug, PartialEq, Eq, Structural)]
pub enum FlagRule {
    BulkWithPr,
    BulkWithClip,
    RangeWithBulk,
    RangeWithIssue,
    RangeWithClip,
    /// `--per-page` outside `1..=100` in bulk mode.
    PerPageRange,
    /// `--pages` of zero in bulk mode.
    NoPages,
}

/// A mode that writes one file per item into a directory.
#[derive(Clone, Copy, Debug, PartialEq, Eq, Structural)]
pub enum BatchMode {
    Bulk,
    Range,
}

#[derive(Clone, Copy, Debug, PartialEq, Eq, Structural)]
pub enum CliError {
    InvalidFormat(FormatProblem),
    AmbiguousShorthand,
    ConflictingFlags,
    IllegalFlagCombination(FlagRule),
    BoundsMustBePaired,
    DescendingRange,
    NotADirectory(BatchMode),
}

impl CliError {
    pub open spec fn spec_message(self) -> Seq<char> {
        match self {
            CliError::InvalidFormat(p) => match p {
                FormatProblem::UrlTooShort => "Invalid GitHub URL format"@,
                FormatProblem::UrlKind => "URL must contain 'issues' or 'pull'"@,
                FormatProblem::UrlNumber => "Failed to parse issue/pr number from URL"@,
                FormatProblem::ShorthandRepo => "Shorthand must be in format owner/repo#number"@,
                FormatProblem::ShorthandNumber => "Failed to parse number from shorthand"@,
                FormatProblem::Unrecognized =>
                    "Invalid input format. Must be a GitHub URL or owner/repo#number shorthand"@,
                FormatProblem::RepoUrlTooShort =>
                    "Repository URL must look like https://github.com/owner/repo/issues"@,
                FormatProblem::RepoUrlNotIssues => "--bulk supports issues only; use an /issues URL"@,
                FormatProblem::RepoUrlHasNumber =>
                    "--bulk expects a repository, not a URL with an issue number"@,
                FormatProblem::RepoShape => "Repository must be in format owner/repo"@,
            },
            CliError::AmbiguousShorthand => "Ambiguous shorthand. Please specify --issue or --pr"@,
            CliError::ConflictingFlags => "Cannot specify both --issue and --pr"@,
            CliError::IllegalFlagCombination(f) => match f {
                FlagRule::BulkWithPr => "--bulk supports issues only; remove --pr"@,
                FlagRule::BulkWithClip => "--clip is not supported with --bulk"@,
                FlagRule::RangeWithBulk => "--from/--to cannot be used with --bulk"@,
                FlagRule::RangeWithIssue => "--from/--to supports PRs only; remove --issue"@,
                FlagRule::RangeWithClip => "--clip is not supported with --from/--to"@,
                FlagRule::PerPageRange => "--per-page must be between 1 and 100"@,
                FlagRule::NoPages => "--pages must be at least 1"@,
            },
            CliError::BoundsMustBePaired => "--from and --to must be provided together"@,
            CliError::DescendingRange => "--from must be less than or equal to --to"@,
            CliError::NotADirectory(m) => match m {
                BatchMode::Bulk => "--out must be a directory in bulk mode"@,
                BatchMode::Range => "--out must be a directory in PR range mode"@,
            },
        }
    }

    /// The message shown to the user, naming the constraint that was broken.
    pub fn message(&self) -> (r: String)
        ensures
            r@ == self.spec_message(),
    {
        let s: &str = match self {
            CliError::InvalidFormat(p) => match p {
                FormatProblem::UrlTooShort => "Invalid GitHub URL format",
                FormatProblem::UrlKind => "URL must contain 'issues' or 'pull'",
                FormatProblem::UrlNumber => "Failed to parse issue/pr number from URL",
                FormatProblem::ShorthandRepo => "Shorthand must be in format owner/repo#number",
                FormatProblem::ShorthandNumber => "Failed to parse number from shorthand",
                FormatProblem::Unrecognized =>
                    "Invalid input format. Must be a GitHub URL or owner/repo#number shorthand",
                FormatProblem::RepoUrlTooShort =>
                    "Repository URL must look like https://github.com/owner/repo/issues",
                FormatProblem::RepoUrlNotIssues => "--bulk supports issues only; use an /issues URL",
                FormatProblem::RepoUrlHasNumber =>
                    "--bulk expects a repository, not a URL with an issue number",
                FormatProblem::RepoShape => "Repository must be in format owner/repo",
            },
            CliError::AmbiguousShorthand => "Ambiguous shorthand. Please specify --issue or --pr",
            CliError::ConflictingFlags => "Cannot specify both --issue and --pr",
            CliError::IllegalFlagCombination(f) => match f {
                FlagRule::BulkWithPr => "--bulk supports issues only; remove --pr",
                FlagRule::BulkWithClip => "--clip is not supported with --bulk",
                FlagRule::RangeWithBulk => "--from/--to cannot be used with --bulk",
                FlagRule::RangeWithIssue => "--from/--to supports PRs only; remove --issue",
                FlagRule::RangeWithClip => "--clip is not supported with --from/--to",
                FlagRule::PerPageRange => "--per-page must be between 1 and 100",
                FlagRule::NoPages => "--pages must be at least 1",
            },
            CliError::BoundsMustBePaired => "--from and --to must be provided together",
            CliError::DescendingRange => "--from must be less than or equal to --to",
            CliError::NotADirectory(m) => match m {
                BatchMode::Bulk => "--out must be a directory in bulk mode",
                BatchMode::Range => "--out must be a directory in PR range mode",
            },
        };
        s.to_owned()
    }
}

} // verus!
