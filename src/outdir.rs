//! Where bulk and range mode write their files.
use vstd::prelude::*;
use vstd::string::*;

use crate::args::Cli;
use crate::error::{BatchMode, CliError};

verus! {

/// What is found at a path before output is written there.
#[derive(Clone, Copy, Debug, PartialEq, Eq, Structural)]
pub enum PathState {
    /// Nothing is there.
    Absent,
    /// A directory is there.
    Present,
    /// A plain file, or anything else that is not a directory, is there.
    PlainFile,
}

/// A resolved output directory, and whether it still has to be created.
#[derive(Clone, Debug)]
pub struct OutDir {
    pub path: String,
    pub create: bool,
}

/// The directory named by `--out`, or else the mode's default name.
pub open spec fn chosen_dir(out: Option<String>, default_name: Seq<char>) -> Seq<char> {
    match out {
        Some(p) => p@,
        None => default_name,
    }
}

/// The outcome of resolving `path`, found in the given state, as an output
/// directory of `mode`: the path and whether to create it, or the refusal.
pub open spec fn dir_decision(path: Seq<char>, found: PathState, mode: BatchMode) -> Result<
    (Seq<char>, bool),
    CliError,
> {
    match found {
        PathState::PlainFile => Err(CliError::NotADirectory(mode)),
        PathState::Absent => Ok((path, true)),
        PathState::Present => Ok((path, false)),
    }
}

pub open spec fn out_dir_view(r: Result<OutDir, CliError>) -> Result<(Seq<char>, bool), CliError> {
    match r {
        Ok(d) => Ok((d.path@, d.create)),
        Err(e) => Err(e),
    }
}

/// Resolves `path`, found in state `found`, as an output directory: a plain
/// file there is refused; a missing directory is to be created (with its
/// parents); an existing one is used as it is.
pub fn resolve_out_dir(path: String, found: PathState, mode: BatchMode) -> (r: Result<OutDir, CliError>)
    ensures
        out_dir_view(r) == dir_decision(path@, found, mode),
{
    match found {
        PathState::PlainFile => Err(CliError::NotADirectory(mode)),
        PathState::Absent => Ok(OutDir { path, create: true }),
        PathState::Present => Ok(OutDir { path, create: false }),
    }
}

fn chosen_out_dir(cli: &Cli, default_name: String) -> (r: String)
    ensures
        r@ == chosen_dir(cli.out, default_name@),
{
    match &cli.out {
        Some(p) => p.clone(),
        None => default_name,
    }
}

/// The directory bulk mode writes into: `--out`, else `<repo>-issues`.
pub fn bulk_out_dir_path(cli: &Cli, repo: &str) -> (r: String)
    ensures
        r@ == chosen_dir(cli.out, repo@ + "-issues"@),
{
    chosen_out_dir(cli, repo.to_owned().concat("-issues"))
}

/// The directory range mode writes into: `--out`, else `<repo>-prs`.
pub fn pr_range_out_dir_path(cli: &Cli, repo: &str) -> (r: String)
    ensures
        r@ == chosen_dir(cli.out, repo@ + "-prs"@),
{
    chosen_out_dir(cli, repo.to_owned().concat("-prs"))
}

/// Resolves bulk mode's output directory, `found` being the state of the
/// path that `bulk_out_dir_path` names. A bulk run resolves it only when
/// the listing is not empty (see `plan_bulk_run`).
pub fn resolve_bulk_out_dir(cli: &Cli, repo: &str, found: PathState) -> (r: Result<OutDir, CliError>)
    ensures
        out_dir_view(r) == dir_decision(chosen_dir(cli.out, repo@ + "-issues"@), found, BatchMode::Bulk),
{
    resolve_out_dir(bulk_out_dir_path(cli, repo), found, BatchMode::Bulk)
}

/// Resolves range mode's output directory, `found` being the state of the
/// path that `pr_range_out_dir_path` names.
pub fn resolve_pr_range_out_dir(cli: &Cli, repo: &str, found: PathState) -> (r: Result<OutDir, CliError>)
    ensures
        out_dir_view(r) == dir_decision(chosen_dir(cli.out, repo@ + "-prs"@), found, BatchMode::Range),
{
    resolve_out_dir(pr_range_out_dir_path(cli, repo), found, BatchMode::Range)
}

/// Resolving an output directory is idempotent: a missing path is resolved
/// to itself and created once; once it exists, resolving it again gives the
/// same path and creates nothing. A plain file at the path is always refused.
pub proof fn law_resolve_idempotent(out: Option<String>, default_name: Seq<char>, mode: BatchMode)
    ensures
        ({
            let path = chosen_dir(out, default_name);
            &&& dir_decision(path, PathState::Absent, mode) == Ok::<(Seq<char>, bool), CliError>(
                (path, true),
            )
            &&& dir_decision(path, PathState::Present, mode) == Ok::<(Seq<char>, bool), CliError>(
                (path, false),
            )
            &&& dir_decision(path, PathState::PlainFile, mode) == Err::<(Seq<char>, bool), CliError>(
                CliError::NotADirectory(mode),
            )
        }),
{
}

} // verus!
