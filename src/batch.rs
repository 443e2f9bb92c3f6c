//! The decisions of bulk and range mode: which items to fetch, in what order,
//! and the file each one is written to.
use vstd::prelude::*;
use vstd::string::*;

use crate::args::{Cli, OutputFormat};
use crate::error::{BatchMode, CliError};
use crate::outdir::{chosen_dir, dir_decision, out_dir_view, resolve_bulk_out_dir, OutDir, PathState};
use crate::target::{Target, TargetType, TargetView};

verus! {

/// The characters of one decimal digit.
pub open spec fn digit_text(d: nat) -> Seq<char> {
    "0123456789"@.subrange(d as int, d + 1 as int)
}

/// The decimal text of `n`, without leading zeros.
pub open spec fn decimal(n: nat) -> Seq<char>
    decreases n,
{
    if n < 10 {
        digit_text(n)
    } else {
        decimal(n / 10) + digit_text(n % 10)
    }
}

/// Writes `n` in decimal.
pub fn decimal_string(n: u64) -> (r: String)
    ensures
        r@ == decimal(n as nat),
{
    let digits = "0123456789";
    proof {
        reveal_strlit("0123456789");
    }
    let mut m: u64 = n;
    let mut acc: String = String::new();
    loop
        invariant
            digits@ == "0123456789"@,
            digits@.len() == 10,
            decimal(n as nat) == decimal(m as nat) + acc@,
        decreases m,
    {
        let d: usize = (m % 10) as usize;
        let piece = digits.substring_char(d, d + 1).to_owned();
        if m < 10 {
            let r = piece.concat(acc.as_str());
            proof {
                assert(decimal(m as nat) == digit_text(m as nat));
            }
            return r;
        }
        acc = piece.concat(acc.as_str());
        proof {
            assert(decimal(m as nat) == decimal((m / 10) as nat) + digit_text((m % 10) as nat));
            assert(decimal(n as nat) =~= decimal((m / 10) as nat) + acc@);
        }
        m = m / 10;
    }
}

pub open spec fn extension_of(format: OutputFormat) -> Seq<char> {
    match format {
        OutputFormat::Json => "json"@,
        OutputFormat::Md => "md"@,
    }
}

/// The file extension of a rendering format.
pub fn output_extension(format: &OutputFormat) -> (r: &'static str)
    ensures
        r@ == extension_of(*format),
{
    match format {
        OutputFormat::Json => "json",
        OutputFormat::Md => "md",
    }
}

pub open spec fn kind_word(kind: TargetType) -> Seq<char> {
    match kind {
        TargetType::Issue => "issue"@,
        TargetType::Pr => "pr"@,
    }
}

/// The word that names a kind of item in records and file names.
pub fn kind_name(kind: TargetType) -> (r: &'static str)
    ensures
        r@ == kind_word(kind),
{
    match kind {
        TargetType::Issue => "issue",
        TargetType::Pr => "pr",
    }
}

/// The base name of an item's output: `<repo>-<kind>-<number>`.
pub open spec fn item_stem(repo: Seq<char>, kind: TargetType, number: nat) -> Seq<char> {
    repo + "-"@ + kind_word(kind) + "-"@ + decimal(number)
}

/// The name of the file an item is written to: `<repo>-<kind>-<number>.<ext>`.
pub open spec fn item_file(repo: Seq<char>, kind: TargetType, number: nat, format: OutputFormat) -> Seq<char> {
    item_stem(repo, kind, number) + "."@ + extension_of(format)
}

/// The base name of an item's output, which single-item mode also uses as
/// the name of the folder it writes Markdown into.
pub fn item_stem_name(repo: &str, kind: TargetType, number: u64) -> (r: String)
    ensures
        r@ == item_stem(repo@, kind, number as nat),
{
    let num = decimal_string(number);
    repo.to_owned().concat("-").concat(kind_name(kind)).concat("-").concat(num.as_str())
}

/// Names the file that one fetched item is written to; the name depends on
/// the repository, kind and number alone.
pub fn item_file_name(repo: &str, kind: TargetType, number: u64, format: OutputFormat) -> (r: String)
    ensures
        r@ == item_file(repo@, kind, number as nat, format),
{
    item_stem_name(repo, kind, number).concat(".").concat(output_extension(&format))
}

/// One item of a batch: what to fetch and the file to write it to.
#[derive(Debug)]
pub struct WorkItem {
    pub target: Target,
    pub file_name: String,
}

pub open spec fn work_item_is(
    w: WorkItem,
    owner: Seq<char>,
    repo: Seq<char>,
    number: nat,
    kind: TargetType,
    format: OutputFormat,
) -> bool {
    &&& w.target@ == (owner, repo, number, kind)
    &&& w.file_name@ == item_file(repo, kind, number, format)
}

/// Builds the work item for one number of a batch.
pub fn work_item(owner: &str, repo: &str, number: u64, kind: TargetType, format: OutputFormat) -> (r: WorkItem)
    ensures
        work_item_is(r, owner@, repo@, number as nat, kind, format),
{
    let target = Target { owner: owner.to_owned(), repo: repo.to_owned(), number, kind };
    WorkItem { target, file_name: item_file_name(repo, kind, number, format) }
}

/// What bulk mode does with the issue numbers that the listing returned.
#[derive(Debug)]
pub enum BulkPlan {
    /// The listing was empty: report that nothing was found, write nothing,
    /// and succeed.
    NothingFound,
    /// Fetch and write these items, in this order.
    Items(Vec<WorkItem>),
}

/// Plans bulk mode over the listed issue numbers: one issue item per number,
/// in listing order and with repeats kept, or nothing at all when the
/// listing is empty.
pub fn plan_bulk(owner: &str, repo: &str, numbers: &Vec<u64>, format: OutputFormat) -> (r: BulkPlan)
    ensures
        numbers@.len() == 0 <==> r is NothingFound,
        r is Items ==> r->Items_0@.len() == numbers@.len() && forall|i: int|
            0 <= i < numbers@.len() ==> work_item_is(
                #[trigger] r->Items_0@[i],
                owner@,
                repo@,
                numbers@[i] as nat,
                TargetType::Issue,
                format,
            ),
{
    if numbers.len() == 0 {
        return BulkPlan::NothingFound;
    }
    let mut items: Vec<WorkItem> = Vec::new();
    let mut i: usize = 0;
    while i < numbers.len()
        invariant
            i <= numbers@.len(),
            items@.len() == i,
            forall|j: int|
                0 <= j < i ==> work_item_is(
                    #[trigger] items@[j],
                    owner@,
                    repo@,
                    numbers@[j] as nat,
                    TargetType::Issue,
                    format,
                ),
        decreases numbers@.len() - i,
    {
        items.push(work_item(owner, repo, numbers[i], TargetType::Issue, format));
        i = i + 1;
    }
    BulkPlan::Items(items)
}

/// What a bulk run does once the listing is known.
#[derive(Debug)]
pub enum BulkRun {
    /// The listing was empty: report that nothing was found and succeed,
    /// without resolving or creating a directory and without writing.
    NothingFound,
    /// Prepare `dir` and write these items into it, in this order.
    Write { dir: OutDir, items: Vec<WorkItem> },
}

/// Decides a bulk run over the listed issue numbers. An empty listing ends
/// the run with nothing found and touches no directory; otherwise the output
/// directory is resolved (`found` being the state of the path that
/// `bulk_out_dir_path` names) and every listed issue is to be written.
pub fn plan_bulk_run(cli: &Cli, owner: &str, repo: &str, numbers: &Vec<u64>, found: PathState) -> (r:
    Result<BulkRun, CliError>)
    ensures
        numbers@.len() == 0 ==> (r matches Ok(BulkRun::NothingFound)),
        numbers@.len() > 0 ==> match r {
            Ok(BulkRun::Write { dir, items }) => {
                &&& out_dir_view(Ok(dir)) == dir_decision(
                    chosen_dir(cli.out, repo@ + "-issues"@),
                    found,
                    BatchMode::Bulk,
                )
                &&& items@.len() == numbers@.len()
                &&& forall|i: int|
                    0 <= i < numbers@.len() ==> work_item_is(
                        #[trigger] items@[i],
                        owner@,
                        repo@,
                        numbers@[i] as nat,
                        TargetType::Issue,
                        cli.format,
                    )
            },
            Ok(BulkRun::NothingFound) => false,
            Err(e) => dir_decision(chosen_dir(cli.out, repo@ + "-issues"@), found, BatchMode::Bulk)
                == Err::<(Seq<char>, bool), CliError>(e),
        },
{
    match plan_bulk(owner, repo, numbers, cli.format) {
        BulkPlan::NothingFound => Ok(BulkRun::NothingFound),
        BulkPlan::Items(items) => {
            let dir = resolve_bulk_out_dir(cli, repo, found)?;
            Ok(BulkRun::Write { dir, items })
        },
    }
}

/// The issues of a listing, in listing order: entries that are pull requests
/// (the second field) are left out.
pub open spec fn listed_issues(listed: Seq<(u64, bool)>) -> Seq<u64>
    decreases listed.len(),
{
    if listed.len() == 0 {
        Seq::empty()
    } else if listed.last().1 {
        listed_issues(listed.drop_last())
    } else {
        listed_issues(listed.drop_last()).push(listed.last().0)
    }
}

/// Keeps the numbers of the listed entries that are issues, in order and
/// with repeats kept.
pub fn issue_numbers(listed: &Vec<(u64, bool)>) -> (r: Vec<u64>)
    ensures
        r@ == listed_issues(listed@),
{
    let mut r: Vec<u64> = Vec::new();
    let mut i: usize = 0;
    while i < listed.len()
        invariant
            i <= listed@.len(),
            r@ == listed_issues(listed@.subrange(0, i as int)),
        decreases listed@.len() - i,
    {
        let (number, is_pr) = listed[i];
        proof {
            let p = listed@.subrange(0, i + 1);
            assert(p.drop_last() =~= listed@.subrange(0, i as int));
            assert(p.last() == listed@[i as int]);
        }
        if !is_pr {
            r.push(number);
        }
        i = i + 1;
    }
    assert(listed@.subrange(0, i as int) =~= listed@);
    r
}

/// The number range mode handles after `current`: the next one while the
/// upper bound is not reached, then none. Started at `from`, it visits each
/// number of `from..=to` once, in increasing order.
pub fn range_next(current: u64, to: u64) -> (r: Option<u64>)
    ensures
        current < to ==> r == Some((current + 1) as u64),
        current >= to ==> r is None,
{
    if current < to {
        Some(current + 1)
    } else {
        None
    }
}

} // verus!
