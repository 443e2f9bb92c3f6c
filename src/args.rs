use vstd::prelude::*;

verus! {

/// Format in which a fetched record is rendered.
#[derive(Clone, Copy, Debug, PartialEq, Eq, Structural)]
pub enum OutputFormat {
    Json,
    Md,
}

/// State filter used when listing issues.
#[derive(Clone, Copy, Debug, PartialEq, Eq, Structural)]
pub enum IssueState {
    Open,
    Closed,
    All,
}

impl IssueState {
    pub open spec fn spec_as_str(self) -> Seq<char> {
        match self {
            IssueState::Open => "open"@,
            IssueState::Closed => "closed"@,
            IssueState::All => "all"@,
        }
    }

    /// The word the listing command takes for this filter.
    pub fn as_str(&self) -> (r: &'static str)
        ensures
            r@ == self.spec_as_str(),
    {
        match self {
            IssueState::Open => "open",
            IssueState::Closed => "closed",
            IssueState::All => "all",
        }
    }
}

/// The options of one invocation, as the command line gave them.
#[derive(Clone, Debug)]
pub struct Cli {
    /// A web URL or `owner/repo#number` shorthand; a repository in bulk mode.
    pub input: String,
    pub format: OutputFormat,
    /// Output file in single-item mode, output directory in bulk and range mode.
    pub out: Option<String>,
    /// Copy the rendered output to the clipboard (single-item mode only).
    pub clip: bool,
    /// Treat shorthand as an issue.
    pub issue: bool,
    /// Treat shorthand as a pull request.
    pub pr: bool,
    /// List and fetch a repository's issues.
    pub bulk: bool,
    /// Issue state filter for bulk mode.
    pub state: IssueState,
    /// Items per page for bulk mode, `1..=100`.
    pub per_page: u32,
    /// Pages to fetch in bulk mode, at least one.
    pub pages: u32,
    /// First pull request number of range mode.
    pub from: Option<u64>,
    /// Last pull request number of range mode.
    pub to: Option<u64>,
}

} // verus!
