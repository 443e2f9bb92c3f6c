//! The response shape of the retrieval command, and the unified record that
//! issues and pull requests are both turned into.
use vstd::prelude::*;
use vstd::string::*;

use crate::batch::{kind_name, kind_word};
use crate::target::Target;

verus! {

#[derive(Clone, Debug)]
pub struct GhAuthor {
    pub login: String,
}

/// One comment as the retrieval command reports it.
#[derive(Clone, Debug)]
pub struct GhComment {
    pub author: Option<GhAuthor>,
    pub body: String,
    pub created_at: Option<String>,
}

/// An issue or pull request as the retrieval command reports it.
#[derive(Clone, Debug)]
pub struct GhResponse {
    pub title: String,
    pub body: String,
    pub url: String,
    pub number: u64,
    pub comments: Vec<GhComment>,
    pub author: Option<GhAuthor>,
}

/// Identity of a unified record.
#[derive(Clone, Debug)]
pub struct Metadata {
    /// `owner/repo`.
    pub repo: String,
    pub number: u64,
    /// `issue` or `pr`.
    pub item_type: String,
    pub url: String,
    pub author: String,
}

#[derive(Clone, Debug)]
pub struct UnifiedComment {
    pub author: String,
    pub body: String,
    pub created_at: Option<String>,
}

/// One fetched item, the same whichever kind produced it; the timeline
/// events, which the library does not read, travel beside it.
#[derive(Clone, Debug)]
pub struct UnifiedRecord {
    pub metadata: Metadata,
    pub title: String,
    pub body: String,
    pub comments: Vec<UnifiedComment>,
}

/// The login of an author, or `fallback` when there is none.
pub open spec fn login_or(a: Option<GhAuthor>, fallback: Seq<char>) -> Seq<char> {
    match a {
        Some(x) => x.login@,
        None => fallback,
    }
}

pub open spec fn opt_text(o: Option<String>) -> Option<Seq<char>> {
    match o {
        Some(s) => Some(s@),
        None => None,
    }
}

/// `u` is comment `c` with its author's login, `ghost` for a deleted account.
pub open spec fn unified_from(u: UnifiedComment, c: GhComment) -> bool {
    &&& u.author@ == login_or(c.author, "ghost"@)
    &&& u.body@ == c.body@
    &&& opt_text(u.created_at) == opt_text(c.created_at)
}

fn login_or_default(a: &Option<GhAuthor>, fallback: &str) -> (r: String)
    ensures
        r@ == login_or(*a, fallback@),
{
    match a {
        Some(x) => x.login.clone(),
        None => fallback.to_owned(),
    }
}

fn clone_text(o: &Option<String>) -> (r: Option<String>)
    ensures
        opt_text(r) == opt_text(*o),
{
    match o {
        Some(s) => Some(s.clone()),
        None => None,
    }
}

/// Converts one reported comment; a comment without an author is
/// attributed to `ghost`.
pub fn unify_comment(c: &GhComment) -> (r: UnifiedComment)
    ensures
        unified_from(r, *c),
{
    UnifiedComment {
        author: login_or_default(&c.author, "ghost"),
        body: c.body.clone(),
        created_at: clone_text(&c.created_at),
    }
}

/// Builds the unified record of a fetched item. The identity comes from the
/// target that was fetched: `owner/repo`, its number and its kind; an item
/// without an author is attributed to `unknown`. Comments keep their order.
pub fn build_record(target: &Target, resp: &GhResponse) -> (r: UnifiedRecord)
    ensures
        r.metadata.repo@ == target.owner@ + "/"@ + target.repo@,
        r.metadata.number == target.number,
        r.metadata.item_type@ == kind_word(target.kind),
        r.metadata.url@ == resp.url@,
        r.metadata.author@ == login_or(resp.author, "unknown"@),
        r.title@ == resp.title@,
        r.body@ == resp.body@,
        r.comments@.len() == resp.comments@.len(),
        forall|i: int|
            0 <= i < resp.comments@.len() ==> unified_from(
                #[trigger] r.comments@[i],
                resp.comments@[i],
            ),
{
    let mut comments: Vec<UnifiedComment> = Vec::new();
    let mut i: usize = 0;
    while i < resp.comments.len()
        invariant
            i <= resp.comments@.len(),
            comments@.len() == i,
            forall|j: int| 0 <= j < i ==> unified_from(#[trigger] comments@[j], resp.comments@[j]),
        decreases resp.comments@.len() - i,
    {
        comments.push(unify_comment(&resp.comments[i]));
        i = i + 1;
    }
    let metadata = Metadata {
        repo: target.owner.clone().concat("/").concat(target.repo.as_str()),
        number: target.number,
        item_type: kind_name(target.kind).to_owned(),
        url: resp.url.clone(),
        author: login_or_default(&resp.author, "unknown"),
    };
    UnifiedRecord { metadata, title: resp.title.clone(), body: resp.body.clone(), comments }
}

} // verus!
