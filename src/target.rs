//! Turning a user-supplied reference into a typed fetch target or a
//! repository identity.
use vstd::prelude::*;
use vstd::string::*;

use crate::error::{CliError, FormatProblem};
use crate::text::{
    avoids, chars_of, digits_value, find_first_of, first_index, first_of,
    is_u64_decimal, lemma_avoids_concat, lemma_digits_avoid, lemma_first_of_append,
    lemma_split_cons, lemma_split_first, parse_u64, range_is, split, split_ranges,
};

verus! {

#[derive(Clone, Copy, Debug, PartialEq, Eq, Structural)]
pub enum TargetType {
    Issue,
    Pr,
}

/// One issue or pull request to fetch.
#[derive(Debug)]
pub struct Target {
    pub owner: String,
    pub repo: String,
    pub number: u64,
    pub kind: TargetType,
}

/// A target as plain values: owner, repository, number and kind.
pub type TargetView = (Seq<char>, Seq<char>, nat, TargetType);

impl View for Target {
    type V = TargetView;

    open spec fn view(&self) -> TargetView {
        (self.owner@, self.repo@, self.number as nat, self.kind)
    }
}

pub open spec fn url_prefix() -> Seq<char> {
    "https://github.com/"@
}

pub open spec fn has_prefix(s: Seq<char>, p: Seq<char>) -> bool {
    p.len() <= s.len() && s.subrange(0, p.len() as int) == p
}

/// The path of a web URL: what follows the platform prefix, up to the first
/// `?` or `#`.
pub open spec fn url_path(s: Seq<char>) -> Seq<char> {
    let rest = s.subrange(url_prefix().len() as int, s.len() as int);
    rest.subrange(0, first_of(rest, '?', '#') as int)
}

/// The path segments of a repository URL: the path, cut at its first `?`
/// or `#`, split on `/`.
pub open spec fn url_segments(s: Seq<char>) -> Seq<Seq<char>> {
    split(url_path(s), '/')
}

/// The segments of an item URL: everything after the platform prefix, split
/// on `/`.
pub open spec fn item_segments(s: Seq<char>) -> Seq<Seq<char>> {
    split(s.subrange(url_prefix().len() as int, s.len() as int), '/')
}

/// The number part of an item URL's number segment: the segment up to its
/// first `?` or `#`, which begin a query or fragment.
pub open spec fn number_text(seg: Seq<char>) -> Seq<char> {
    seg.subrange(0, first_of(seg, '?', '#') as int)
}

/// Exactly two non-empty pieces separated by one `/`.
pub open spec fn is_owner_repo(s: Seq<char>) -> bool {
    let parts = split(s, '/');
    parts.len() == 2 && parts[0].len() > 0 && parts[1].len() > 0
}

/// What a reference string denotes, given the two disambiguation flags.
pub open spec fn target_of(s: Seq<char>, force_issue: bool, force_pr: bool) -> Result<
    TargetView,
    CliError,
> {
    if force_issue && force_pr {
        Err(CliError::ConflictingFlags)
    } else if has_prefix(s, url_prefix()) {
        let segs = item_segments(s);
        if segs.len() < 4 {
            Err(CliError::InvalidFormat(FormatProblem::UrlTooShort))
        } else if segs[2] != "issues"@ && segs[2] != "pull"@ {
            Err(CliError::InvalidFormat(FormatProblem::UrlKind))
        } else if !is_u64_decimal(number_text(segs[3])) {
            Err(CliError::InvalidFormat(FormatProblem::UrlNumber))
        } else {
            Ok(
                (
                    segs[0],
                    segs[1],
                    digits_value(number_text(segs[3])),
                    if segs[2] == "issues"@ {
                        TargetType::Issue
                    } else {
                        TargetType::Pr
                    },
                ),
            )
        }
    } else if first_index(s, '#') < s.len() {
        let h = first_index(s, '#') as int;
        let repo_part = s.subrange(0, h);
        let number_part = s.subrange(h + 1, s.len() as int);
        let parts = split(repo_part, '/');
        if !is_owner_repo(repo_part) {
            Err(CliError::InvalidFormat(FormatProblem::ShorthandRepo))
        } else if !is_u64_decimal(number_part) {
            Err(CliError::InvalidFormat(FormatProblem::ShorthandNumber))
        } else if force_pr {
            Ok((parts[0], parts[1], digits_value(number_part), TargetType::Pr))
        } else if force_issue {
            Ok((parts[0], parts[1], digits_value(number_part), TargetType::Issue))
        } else {
            Err(CliError::AmbiguousShorthand)
        }
    } else {
        Err(CliError::InvalidFormat(FormatProblem::Unrecognized))
    }
}

/// The repository that a listing-mode reference denotes.
pub open spec fn repo_of(s: Seq<char>) -> Result<(Seq<char>, Seq<char>), CliError> {
    if has_prefix(s, url_prefix()) {
        let segs = url_segments(s);
        if segs.len() < 3 {
            Err(CliError::InvalidFormat(FormatProblem::RepoUrlTooShort))
        } else if segs[2] != "issues"@ {
            Err(CliError::InvalidFormat(FormatProblem::RepoUrlNotIssues))
        } else if segs.len() > 3 {
            Err(CliError::InvalidFormat(FormatProblem::RepoUrlHasNumber))
        } else {
            Ok((segs[0], segs[1]))
        }
    } else if is_owner_repo(s) {
        Ok((split(s, '/')[0], split(s, '/')[1]))
    } else {
        Err(CliError::InvalidFormat(FormatProblem::RepoShape))
    }
}

pub open spec fn target_result_view(r: Result<Target, CliError>) -> Result<TargetView, CliError> {
    match r {
        Ok(t) => Ok(t@),
        Err(e) => Err(e),
    }
}

pub open spec fn repo_result_view(r: Result<(String, String), CliError>) -> Result<
    (Seq<char>, Seq<char>),
    CliError,
> {
    match r {
        Ok(p) => Ok((p.0@, p.1@)),
        Err(e) => Err(e),
    }
}

/// The text of `s` between two character positions, as a new string.
fn piece(s: &str, lo: usize, hi: usize) -> (r: String)
    requires
        lo <= hi <= s@.len(),
    ensures
        r@ == s@.subrange(lo as int, hi as int),
{
    s.substring_char(lo, hi).to_owned()
}

/// Whether `chars` begins with the platform's web-URL prefix; returns the
/// prefix's length alongside.
fn url_prefix_len(chars: &Vec<char>) -> (r: (bool, usize))
    ensures
        r.0 == has_prefix(chars@, url_prefix()),
        r.1 == url_prefix().len(),
{
    let p = "https://github.com/";
    let plen = p.unicode_len();
    if plen <= chars.len() {
        let b = range_is(chars, 0, plen, p);
        (b, plen)
    } else {
        (false, plen)
    }
}

/// Finds where the URL path ends and splits it into segments.
fn url_segment_ranges(chars: &Vec<char>, plen: usize) -> (r: Vec<(usize, usize)>)
    requires
        has_prefix(chars@, url_prefix()),
        plen == url_prefix().len(),
    ensures
        r@.len() == url_segments(chars@).len(),
        forall|k: int|
            0 <= k < r@.len() ==> (#[trigger] r@[k]).0 <= r@[k].1 <= chars@.len()
                && chars@.subrange(r@[k].0 as int, r@[k].1 as int) == url_segments(chars@)[k],
{
    let n = chars.len();
    let end = find_first_of(chars, plen, n, '?', '#');
    proof {
        let rest = chars@.subrange(plen as int, n as int);
        assert(rest.subrange(0, end - plen) =~= chars@.subrange(plen as int, end as int));
    }
    split_ranges(chars, plen, end, '/')
}

/// Splits `chars[lo..hi]` as `owner/repo`, when it has that shape.
fn owner_repo_ranges(chars: &Vec<char>, lo: usize, hi: usize) -> (r: Option<(usize, usize, usize, usize)>)
    requires
        lo <= hi <= chars@.len(),
    ensures
        r.is_some() == is_owner_repo(chars@.subrange(lo as int, hi as int)),
        r.is_some() ==> {
            let (a, b, c, d) = r.unwrap();
            &&& a <= b <= chars@.len() && c <= d <= chars@.len()
            &&& chars@.subrange(a as int, b as int) == split(chars@.subrange(lo as int, hi as int), '/')[0]
            &&& chars@.subrange(c as int, d as int) == split(chars@.subrange(lo as int, hi as int), '/')[1]
        },
{
    let parts = split_ranges(chars, lo, hi, '/');
    if parts.len() != 2 {
        return None;
    }
    let (a, b) = parts[0];
    let (c, d) = parts[1];
    if a == b || c == d {
        return None;
    }
    Some((a, b, c, d))
}

/// Resolves a URL or `owner/repo#number` shorthand into a target. Shorthand
/// names no kind of its own, so exactly one of the two flags must choose it;
/// setting both is refused whatever the input.
pub fn parse_target(input: &str, force_issue: bool, force_pr: bool) -> (r: Result<Target, CliError>)
    ensures
        target_result_view(r) == target_of(input@, force_issue, force_pr),
{
    if force_issue && force_pr {
        return Err(CliError::ConflictingFlags);
    }
    let chars = chars_of(input);
    let n = chars.len();
    let (is_url, plen) = url_prefix_len(&chars);
    if is_url {
        let segs = split_ranges(&chars, plen, n, '/');
        if segs.len() < 4 {
            return Err(CliError::InvalidFormat(FormatProblem::UrlTooShort));
        }
        let (k0, k1) = segs[2];
        let kind = if range_is(&chars, k0, k1, "issues") {
            TargetType::Issue
        } else if range_is(&chars, k0, k1, "pull") {
            TargetType::Pr
        } else {
            return Err(CliError::InvalidFormat(FormatProblem::UrlKind));
        };
        let (n0, n1) = segs[3];
        let end = find_first_of(&chars, n0, n1, '?', '#');
        proof {
            let seg = chars@.subrange(n0 as int, n1 as int);
            assert(seg.subrange(0, end - n0) =~= chars@.subrange(n0 as int, end as int));
        }
        let number = match parse_u64(&chars, n0, end) {
            Some(v) => v,
            None => {
                return Err(CliError::InvalidFormat(FormatProblem::UrlNumber));
            },
        };
        let (o0, o1) = segs[0];
        let (r0, r1) = segs[1];
        return Ok(
            Target { owner: piece(input, o0, o1), repo: piece(input, r0, r1), number, kind },
        );
    }
    let h = find_first_of(&chars, 0, n, '#', '#');
    proof {
        assert(chars@.subrange(0, n as int) =~= chars@);
    }
    if h == n {
        return Err(CliError::InvalidFormat(FormatProblem::Unrecognized));
    }
    let (a, b, c, d) = match owner_repo_ranges(&chars, 0, h) {
        Some(q) => q,
        None => {
            return Err(CliError::InvalidFormat(FormatProblem::ShorthandRepo));
        },
    };
    let number = match parse_u64(&chars, h + 1, n) {
        Some(v) => v,
        None => {
            return Err(CliError::InvalidFormat(FormatProblem::ShorthandNumber));
        },
    };
    let kind = if force_pr {
        TargetType::Pr
    } else if force_issue {
        TargetType::Issue
    } else {
        return Err(CliError::AmbiguousShorthand);
    };
    Ok(Target { owner: piece(input, a, b), repo: piece(input, c, d), number, kind })
}

/// Resolves the repository for a listing mode: bare `owner/repo`, or the web
/// URL of a repository's issue list (a query string is ignored). A URL of one
/// numbered issue, or of anything but the issue list, is refused.
pub fn parse_repo(input: &str) -> (r: Result<(String, String), CliError>)
    ensures
        repo_result_view(r) == repo_of(input@),
{
    let chars = chars_of(input);
    let n = chars.len();
    let (is_url, plen) = url_prefix_len(&chars);
    if is_url {
        let segs = url_segment_ranges(&chars, plen);
        if segs.len() < 3 {
            return Err(CliError::InvalidFormat(FormatProblem::RepoUrlTooShort));
        }
        let (k0, k1) = segs[2];
        if !range_is(&chars, k0, k1, "issues") {
            return Err(CliError::InvalidFormat(FormatProblem::RepoUrlNotIssues));
        }
        if segs.len() > 3 {
            return Err(CliError::InvalidFormat(FormatProblem::RepoUrlHasNumber));
        }
        let (o0, o1) = segs[0];
        let (r0, r1) = segs[1];
        return Ok((piece(input, o0, o1), piece(input, r0, r1)));
    }
    proof {
        assert(chars@.subrange(0, n as int) =~= chars@);
    }
    match owner_repo_ranges(&chars, 0, n) {
        Some((a, b, c, d)) => Ok((piece(input, a, b), piece(input, c, d))),
        None => Err(CliError::InvalidFormat(FormatProblem::RepoShape)),
    }
}

/// The path segment that names a kind of item in a web URL.
pub open spec fn kind_segment(kind: TargetType) -> Seq<char> {
    match kind {
        TargetType::Issue => "issues"@,
        TargetType::Pr => "pull"@,
    }
}

/// A URL path segment with no `/`, `?` or `#` in it.
pub open spec fn plain_segment(s: Seq<char>) -> bool {
    avoids(s, '/', '/') && avoids(s, '?', '#')
}

/// The web URL of an item, `https://github.com/<owner>/<repo>/<issues|pull>/<number>`
/// followed by `suffix`.
pub open spec fn item_url(
    owner: Seq<char>,
    repo: Seq<char>,
    kind: TargetType,
    number: Seq<char>,
    suffix: Seq<char>,
) -> Seq<char> {
    url_prefix() + item_path(owner, repo, kind, number) + suffix
}

/// `<owner>/<repo>/<issues|pull>/<number>`.
pub open spec fn item_path(owner: Seq<char>, repo: Seq<char>, kind: TargetType, number: Seq<char>) -> Seq<char> {
    owner + "/"@ + repo + "/"@ + kind_segment(kind) + "/"@ + number
}

proof fn lemma_item_path_shape(owner: Seq<char>, repo: Seq<char>, kind: TargetType, number: Seq<char>)
    requires
        plain_segment(owner),
        plain_segment(repo),
        is_u64_decimal(number),
    ensures
        avoids(item_path(owner, repo, kind, number), '?', '#'),
        item_path(owner, repo, kind, number) == owner + seq!['/'] + (repo + seq!['/'] + (
        kind_segment(kind) + seq!['/'] + number)),
{
    reveal_strlit("/");
    reveal_strlit("issues");
    reveal_strlit("pull");
    let k = kind_segment(kind);
    let sl: Seq<char> = seq!['/'];
    assert("/"@ =~= sl);
    assert(avoids(k, '?', '#'));
    lemma_digits_avoid(number, '?', '#');
    assert(avoids(sl, '?', '#'));
    let tail3 = sl + number;
    let tail2 = sl + (k + tail3);
    let tail1 = sl + (repo + tail2);
    lemma_avoids_concat(sl, number, '?', '#');
    lemma_avoids_concat(k, tail3, '?', '#');
    lemma_avoids_concat(sl, k + tail3, '?', '#');
    lemma_avoids_concat(repo, tail2, '?', '#');
    lemma_avoids_concat(sl, repo + tail2, '?', '#');
    lemma_avoids_concat(owner, tail1, '?', '#');
    assert(item_path(owner, repo, kind, number) =~= owner + tail1);
}

#[verifier::rlimit(40)]
proof fn lemma_item_url_path(
    owner: Seq<char>,
    repo: Seq<char>,
    kind: TargetType,
    number: Seq<char>,
    suffix: Seq<char>,
) -> (t: Seq<char>)
    requires
        plain_segment(owner),
        plain_segment(repo),
        is_u64_decimal(number),
        suffix.len() == 0 || suffix[0] == '/' || suffix[0] == '?' || suffix[0] == '#',
    ensures
        has_prefix(item_url(owner, repo, kind, number, suffix), url_prefix()),
        t.len() == 0 || t[0] == '/',
        url_path(item_url(owner, repo, kind, number, suffix)) == item_path(owner, repo, kind, number) + t,
{
    let p = url_prefix();
    let main = item_path(owner, repo, kind, number);
    lemma_item_path_shape(owner, repo, kind, number);
    let s = item_url(owner, repo, kind, number, suffix);
    assert(s =~= p + (main + suffix));
    assert(s.subrange(0, p.len() as int) =~= p);
    let rest = s.subrange(p.len() as int, s.len() as int);
    assert(rest =~= main + suffix);
    lemma_first_of_append(main, suffix, '?', '#');
    let f = first_of(suffix, '?', '#');
    crate::text::lemma_first_of_bounds(suffix, '?', '#');
    let t = suffix.subrange(0, f as int);
    assert(url_path(s) =~= main + t);
    t
}

proof fn lemma_item_url_segments(
    owner: Seq<char>,
    repo: Seq<char>,
    kind: TargetType,
    number: Seq<char>,
    suffix: Seq<char>,
)
    requires
        plain_segment(owner),
        plain_segment(repo),
        is_u64_decimal(number),
        suffix.len() == 0 || suffix[0] == '/' || suffix[0] == '?' || suffix[0] == '#',
    ensures
        has_prefix(item_url(owner, repo, kind, number, suffix), url_prefix()),
        url_segments(item_url(owner, repo, kind, number, suffix)).len() >= 4,
        url_segments(item_url(owner, repo, kind, number, suffix))[0] == owner,
        url_segments(item_url(owner, repo, kind, number, suffix))[1] == repo,
        url_segments(item_url(owner, repo, kind, number, suffix))[2] == kind_segment(kind),
        url_segments(item_url(owner, repo, kind, number, suffix))[3] == number,
{
    reveal_strlit("issues");
    reveal_strlit("pull");
    let k = kind_segment(kind);
    let t = lemma_item_url_path(owner, repo, kind, number, suffix);
    lemma_item_path_shape(owner, repo, kind, number);
    assert(item_path(owner, repo, kind, number) + t =~= owner + seq!['/'] + (repo + seq!['/'] + (
        k + seq!['/'] + (number + t))));
    assert(avoids(k, '/', '/'));
    lemma_digits_avoid(number, '/', '/');
    lemma_split_cons(owner, repo + seq!['/'] + (k + seq!['/'] + (number + t)), '/');
    lemma_split_cons(repo, k + seq!['/'] + (number + t), '/');
    lemma_split_cons(k, number + t, '/');
    lemma_split_first(number, t, '/');
    let segs = url_segments(item_url(owner, repo, kind, number, suffix));
    assert(segs =~= seq![owner, repo, k] + split(number + t, '/'));
}

proof fn lemma_split_head(s: Seq<char>, c: char)
    ensures
        split(s, c).len() >= 1,
        split(s, c)[0] == s.subrange(0, first_index(s, c) as int),
{
    crate::text::lemma_first_of_bounds(s, c, c);
    if first_index(s, c) >= s.len() {
        assert(s.subrange(0, s.len() as int) =~= s);
    }
}

/// The number segment of an item URL is the number, then either nothing or
/// a query or fragment.
proof fn lemma_number_segment(number: Seq<char>, suffix: Seq<char>)
    requires
        is_u64_decimal(number),
        suffix.len() == 0 || suffix[0] == '/' || suffix[0] == '?' || suffix[0] == '#',
    ensures
        split(number + suffix, '/').len() >= 1,
        number_text(split(number + suffix, '/')[0]) == number,
{
    lemma_digits_avoid(number, '/', '/');
    lemma_digits_avoid(number, '?', '#');
    lemma_split_head(number + suffix, '/');
    lemma_first_of_append(number, suffix, '/', '/');
    crate::text::lemma_first_of_bounds(suffix, '/', '/');
    let f = first_index(suffix, '/');
    let u = suffix.subrange(0, f as int);
    let seg = split(number + suffix, '/')[0];
    assert(seg =~= number + u);
    assert(u.len() == 0 || u[0] == '?' || u[0] == '#');
    lemma_first_of_append(number, u, '?', '#');
    if u.len() > 0 {
        assert(first_of(u, '?', '#') == 0);
    }
    assert(number_text(seg) =~= number);
}

/// The web URL of an issue or pull request resolves to that kind, owner,
/// repository and number, whatever fragment, query or further path segments
/// follow the number, and whichever single disambiguation flag is set.
pub proof fn law_url_target(
    owner: Seq<char>,
    repo: Seq<char>,
    kind: TargetType,
    number: Seq<char>,
    suffix: Seq<char>,
    force_issue: bool,
    force_pr: bool,
)
    requires
        avoids(owner, '/', '/'),
        avoids(repo, '/', '/'),
        is_u64_decimal(number),
        suffix.len() == 0 || suffix[0] == '/' || suffix[0] == '?' || suffix[0] == '#',
        !(force_issue && force_pr),
    ensures
        target_of(item_url(owner, repo, kind, number, suffix), force_issue, force_pr) == Ok::<
            TargetView,
            CliError,
        >((owner, repo, digits_value(number), kind)),
{
    reveal_strlit("/");
    reveal_strlit("issues");
    reveal_strlit("pull");
    let p = url_prefix();
    let k = kind_segment(kind);
    let sl: Seq<char> = seq!['/'];
    assert("/"@ =~= sl);
    assert(avoids(k, '/', '/'));
    let s = item_url(owner, repo, kind, number, suffix);
    let rest = owner + sl + (repo + sl + (k + sl + (number + suffix)));
    assert(s =~= p + rest);
    assert(s.subrange(0, p.len() as int) =~= p);
    assert(s.subrange(p.len() as int, s.len() as int) =~= rest);
    lemma_split_cons(owner, repo + sl + (k + sl + (number + suffix)), '/');
    lemma_split_cons(repo, k + sl + (number + suffix), '/');
    lemma_split_cons(k, number + suffix, '/');
    lemma_number_segment(number, suffix);
    let segs = item_segments(s);
    assert(segs =~= seq![owner, repo, k] + split(number + suffix, '/'));
    assert(number_text(segs[3]) == number);
    assert("issues"@ != "pull"@) by {
        assert("issues"@.len() != "pull"@.len());
    }
}

/// Shorthand `<owner>/<repo>#<number>` names no kind of its own: with neither
/// flag set it is refused as ambiguous; with exactly one set it resolves to
/// that kind, with the owner, repository and number it spells.
pub proof fn law_shorthand(
    owner: Seq<char>,
    repo: Seq<char>,
    number: Seq<char>,
    force_issue: bool,
    force_pr: bool,
)
    requires
        owner.len() > 0,
        repo.len() > 0,
        avoids(owner, '/', '#'),
        avoids(repo, '/', '#'),
        is_u64_decimal(number),
        !(force_issue && force_pr),
    ensures
        target_of(owner + "/"@ + repo + "#"@ + number, force_issue, force_pr) == if force_pr {
            Ok::<TargetView, CliError>((owner, repo, digits_value(number), TargetType::Pr))
        } else if force_issue {
            Ok::<TargetView, CliError>((owner, repo, digits_value(number), TargetType::Issue))
        } else {
            Err::<TargetView, CliError>(CliError::AmbiguousShorthand)
        },
{
    reveal_strlit("/");
    reveal_strlit("#");
    reveal_strlit("https://github.com/");
    let p = url_prefix();
    let sl: Seq<char> = seq!['/'];
    let hs: Seq<char> = seq!['#'];
    assert("/"@ =~= sl);
    assert("#"@ =~= hs);
    let repo_part = owner + sl + repo;
    let s = owner + "/"@ + repo + "#"@ + number;
    assert(s =~= repo_part + (hs + number));
    // not a web URL
    if has_prefix(s, p) {
        let q = s.subrange(0, p.len() as int);
        if owner.len() <= 5 {
            assert(q[owner.len() as int] == s[owner.len() as int]);
            assert(s[owner.len() as int] == '/');
        } else if owner.len() == 6 {
            assert(q[7] == s[7]);
            assert(s[7] == repo[0]);
        } else {
            assert(q[6] == s[6]);
            assert(s[6] == owner[6]);
        }
    }
    assert(!has_prefix(s, p));
    assert(avoids(sl, '#', '#'));
    lemma_avoids_concat(owner, sl, '#', '#');
    lemma_avoids_concat(owner + sl, repo, '#', '#');
    lemma_first_of_append(repo_part, hs + number, '#', '#');
    assert(first_of(hs + number, '#', '#') == 0);
    let h = first_index(s, '#') as int;
    assert(h == repo_part.len());
    assert(s.subrange(0, h) =~= repo_part);
    assert(s.subrange(h + 1, s.len() as int) =~= number);
    assert(avoids(owner, '/', '/'));
    lemma_split_cons(owner, repo, '/');
    assert(avoids(repo, '/', '/'));
    lemma_first_of_append(repo, Seq::empty(), '/', '/');
    assert(repo + Seq::<char>::empty() =~= repo);
    assert(split(repo, '/') =~= seq![repo]);
    assert(split(repo_part, '/') =~= seq![owner, repo]);
}

/// A bare `<owner>/<repo>` with two non-empty names free of `/` is that
/// repository.
pub proof fn law_bare_repo(owner: Seq<char>, repo: Seq<char>)
    requires
        owner.len() > 0,
        repo.len() > 0,
        avoids(owner, '/', '/'),
        avoids(repo, '/', '/'),
    ensures
        repo_of(owner + "/"@ + repo) == Ok::<(Seq<char>, Seq<char>), CliError>((owner, repo)),
{
    reveal_strlit("/");
    reveal_strlit("https://github.com/");
    let p = url_prefix();
    let sl: Seq<char> = seq!['/'];
    assert("/"@ =~= sl);
    let s = owner + "/"@ + repo;
    if has_prefix(s, p) {
        let q = s.subrange(0, p.len() as int);
        if owner.len() <= 5 {
            assert(q[owner.len() as int] == s[owner.len() as int]);
        } else if owner.len() == 6 {
            assert(q[7] == s[7]);
            assert(s[7] == repo[0]);
        } else {
            assert(q[6] == s[6]);
            assert(s[6] == owner[6]);
        }
    }
    lemma_split_cons(owner, repo, '/');
    lemma_first_of_append(repo, Seq::empty(), '/', '/');
    assert(repo + Seq::<char>::empty() =~= repo);
    assert(split(repo, '/') =~= seq![repo]);
    assert(split(s, '/') =~= seq![owner, repo]);
}

/// The web URL of a repository's issue list, optionally followed by a query
/// or fragment, is that repository; one more path segment (an issue number)
/// makes it refused.
pub proof fn law_issue_list_url(owner: Seq<char>, repo: Seq<char>, suffix: Seq<char>, number: Seq<char>)
    requires
        plain_segment(owner),
        plain_segment(repo),
        suffix.len() == 0 || suffix[0] == '?' || suffix[0] == '#',
        is_u64_decimal(number),
    ensures
        repo_of(url_prefix() + owner + "/"@ + repo + "/issues"@ + suffix) == Ok::<
            (Seq<char>, Seq<char>),
            CliError,
        >((owner, repo)),
        repo_of(item_url(owner, repo, TargetType::Issue, number, suffix)) == Err::<
            (Seq<char>, Seq<char>),
            CliError,
        >(CliError::InvalidFormat(FormatProblem::RepoUrlHasNumber)),
{
    reveal_strlit("/");
    reveal_strlit("/issues");
    reveal_strlit("issues");
    let p = url_prefix();
    let sl: Seq<char> = seq!['/'];
    let k = kind_segment(TargetType::Issue);
    assert("/"@ =~= sl);
    assert("/issues"@ =~= sl + k);
    let main = owner + (sl + (repo + (sl + k)));
    assert(avoids(k, '?', '#'));
    assert(avoids(sl, '?', '#'));
    lemma_avoids_concat(sl, k, '?', '#');
    lemma_avoids_concat(repo, sl + k, '?', '#');
    lemma_avoids_concat(sl, repo + (sl + k), '?', '#');
    lemma_avoids_concat(owner, sl + (repo + (sl + k)), '?', '#');
    let s = url_prefix() + owner + "/"@ + repo + "/issues"@ + suffix;
    assert(s =~= p + (main + suffix));
    assert(s.subrange(0, p.len() as int) =~= p);
    assert(s.subrange(p.len() as int, s.len() as int) =~= main + suffix);
    lemma_first_of_append(main, suffix, '?', '#');
    assert(first_of(suffix, '?', '#') == 0);
    assert(url_path(s) =~= main);
    lemma_split_cons(owner, repo + (sl + k), '/');
    lemma_split_cons(repo, k, '/');
    assert(avoids(k, '/', '/'));
    lemma_first_of_append(k, Seq::empty(), '/', '/');
    assert(k + Seq::<char>::empty() =~= k);
    assert(split(k, '/') =~= seq![k]);
    assert(main =~= owner + sl + (repo + (sl + k)));
    assert(repo + (sl + k) =~= repo + sl + k);
    assert(split(main, '/') == seq![owner] + split(repo + sl + k, '/'));
    assert(split(main, '/') =~= seq![owner, repo, k]);
    assert(url_segments(s) =~= seq![owner, repo, k]);
    lemma_item_url_segments(owner, repo, TargetType::Issue, number, suffix);
}

/// Setting both disambiguation flags is refused, whatever the input.
pub proof fn law_conflicting_flags(input: Seq<char>)
    ensures
        target_of(input, true, true) == Err::<TargetView, CliError>(CliError::ConflictingFlags),
{
}

} // verus!
