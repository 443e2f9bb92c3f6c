//! Which flags go together in each mode, and the choice of the mode itself.
use vstd::prelude::*;

use crate::args::{Cli, IssueState};
use crate::error::{CliError, FlagRule};

verus! {

/// The verdict of the bulk-mode rules on the options.
pub open spec fn bulk_verdict(cli: Cli) -> Result<(), CliError> {
    if cli.pr {
        Err(CliError::IllegalFlagCombination(FlagRule::BulkWithPr))
    } else if cli.clip {
        Err(CliError::IllegalFlagCombination(FlagRule::BulkWithClip))
    } else if cli.per_page < 1 || cli.per_page > 100 {
        Err(CliError::IllegalFlagCombination(FlagRule::PerPageRange))
    } else if cli.pages < 1 {
        Err(CliError::IllegalFlagCombination(FlagRule::NoPages))
    } else {
        Ok(())
    }
}

/// The verdict of the range-mode rules on the options: the bounds when they
/// are accepted, `None` when neither bound is given (range mode was not
/// asked for), or the refusal.
pub open spec fn range_verdict(cli: Cli) -> Result<Option<(u64, u64)>, CliError> {
    if cli.bulk {
        Err(CliError::IllegalFlagCombination(FlagRule::RangeWithBulk))
    } else if cli.issue {
        Err(CliError::IllegalFlagCombination(FlagRule::RangeWithIssue))
    } else if cli.clip {
        Err(CliError::IllegalFlagCombination(FlagRule::RangeWithClip))
    } else {
        match (cli.from, cli.to) {
            (Some(f), Some(t)) => if f <= t {
                Ok(Some((f, t)))
            } else {
                Err(CliError::DescendingRange)
            },
            (None, None) => Ok(None),
            _ => Err(CliError::BoundsMustBePaired),
        }
    }
}

/// Checks the options of bulk mode: listing is issues-only, there is no
/// clipboard copy of many files, a page holds 1 to 100 items and at least one
/// page is fetched.
pub fn validate_bulk_args(cli: &Cli) -> (r: Result<(), CliError>)
    ensures
        r == bulk_verdict(*cli),
{
    if cli.pr {
        return Err(CliError::IllegalFlagCombination(FlagRule::BulkWithPr));
    }
    if cli.clip {
        return Err(CliError::IllegalFlagCombination(FlagRule::BulkWithClip));
    }
    if cli.per_page == 0 || cli.per_page > 100 {
        return Err(CliError::IllegalFlagCombination(FlagRule::PerPageRange));
    }
    if cli.pages == 0 {
        return Err(CliError::IllegalFlagCombination(FlagRule::NoPages));
    }
    Ok(())
}

/// Checks the options of range mode and returns its bounds: not with bulk
/// mode, pull requests only, no clipboard copy, both bounds given together
/// and in order. With neither bound given, range mode was not asked for and
/// the result is `Ok(None)`.
pub fn validate_pr_range_args(cli: &Cli) -> (r: Result<Option<(u64, u64)>, CliError>)
    ensures
        r == range_verdict(*cli),
        !cli.bulk && !cli.issue && !cli.clip && cli.from is None && cli.to is None ==> r == Ok::<
            Option<(u64, u64)>,
            CliError,
        >(None),
{
    if cli.bulk {
        return Err(CliError::IllegalFlagCombination(FlagRule::RangeWithBulk));
    }
    if cli.issue {
        return Err(CliError::IllegalFlagCombination(FlagRule::RangeWithIssue));
    }
    if cli.clip {
        return Err(CliError::IllegalFlagCombination(FlagRule::RangeWithClip));
    }
    let (from, to) = match (cli.from, cli.to) {
        (Some(f), Some(t)) => (f, t),
        (None, None) => {
            return Ok(None);
        },
        _ => {
            return Err(CliError::BoundsMustBePaired);
        },
    };
    if from > to {
        return Err(CliError::DescendingRange);
    }
    Ok(Some((from, to)))
}

/// The one mode an invocation runs in, with that mode's parameters.
#[derive(Clone, Copy, Debug, PartialEq, Eq, Structural)]
pub enum RunMode {
    /// Fetch the one item that the input names.
    Single { force_issue: bool, force_pr: bool },
    /// List a repository's issues and fetch each.
    Bulk { state: IssueState, per_page: u32, pages: u32 },
    /// Fetch each pull request numbered `from..=to`.
    Range { from: u64, to: u64 },
}

/// The mode that the options select: range mode when either bound is given,
/// else bulk mode when asked for, else single-item mode. Conflicting
/// disambiguation flags are refused before anything else.
pub open spec fn mode_of(cli: Cli) -> Result<RunMode, CliError> {
    if cli.issue && cli.pr {
        Err(CliError::ConflictingFlags)
    } else if cli.from.is_some() || cli.to.is_some() {
        match range_verdict(cli) {
            Ok(Some((f, t))) => Ok(RunMode::Range { from: f, to: t }),
            Ok(None) => Ok(RunMode::Single { force_issue: cli.issue, force_pr: cli.pr }),
            Err(e) => Err(e),
        }
    } else if cli.bulk {
        match bulk_verdict(cli) {
            Ok(()) => Ok(RunMode::Bulk { state: cli.state, per_page: cli.per_page, pages: cli.pages }),
            Err(e) => Err(e),
        }
    } else {
        Ok(RunMode::Single { force_issue: cli.issue, force_pr: cli.pr })
    }
}

/// Selects the mode of an invocation and checks the flags that it allows.
pub fn select_mode(cli: &Cli) -> (r: Result<RunMode, CliError>)
    ensures
        r == mode_of(*cli),
{
    if cli.issue && cli.pr {
        return Err(CliError::ConflictingFlags);
    }
    if cli.from.is_some() || cli.to.is_some() {
        return match validate_pr_range_args(cli)? {
            Some((from, to)) => Ok(RunMode::Range { from, to }),
            None => Ok(RunMode::Single { force_issue: cli.issue, force_pr: cli.pr }),
        };
    }
    if cli.bulk {
        validate_bulk_args(cli)?;
        return Ok(RunMode::Bulk { state: cli.state, per_page: cli.per_page, pages: cli.pages });
    }
    Ok(RunMode::Single { force_issue: cli.issue, force_pr: cli.pr })
}

/// Setting both disambiguation flags is refused in every mode.
pub proof fn law_mode_conflicting_flags(cli: Cli)
    requires
        cli.issue && cli.pr,
    ensures
        mode_of(cli) == Err::<RunMode, CliError>(CliError::ConflictingFlags),
{
}

} // verus!
