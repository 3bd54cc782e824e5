//! The crawl's guarantees, stated and proved over the transition predicates
//! of the orchestrator.
//!
//! Each lemma quantifies over states related by [`next_transition`] or
//! [`response_transition`], the exact contracts of [`Crawler::next_task`]
//! and [`Crawler::handle_response`], so what is proved here holds of every
//! run the orchestrator can produce.
//!
//! [`Crawler::next_task`]: crate::Crawler::next_task
//! [`Crawler::handle_response`]: crate::Crawler::handle_response

use vstd::prelude::*;
use vstd::set_lib::lemma_len_subset;

use crate::crawler::CrawlerView;
use crate::crawler::Outcome;
use crate::crawler::admissible;
use crate::crawler::next_picked;
use crate::crawler::next_transition;
use crate::crawler::response_transition;
use crate::storage::storage_path_of;
use crate::urls::UrlView;
use crate::urls::spec_same_origin;

verus! {

/// No double fetch: a URL handed out for fetching differs, by normalized
/// key, from every URL handed out before it — however many links or
/// redirect chains lead to it — and the handed-out URLs remain pairwise
/// distinct.
pub proof fn lemma_no_double_fetch(pre: CrawlerView, post: CrawlerView, u: UrlView)
    requires
        pre.wf(),
        next_transition(pre, post, Some(u)),
    ensures
        post.wf(),
        post.fetched == pre.fetched.push(u),
        forall|i: int| 0 <= i < pre.fetched.len() ==> #[trigger] pre.fetched[i].key() != u.key(),
{
    let i = choose|i: int| next_picked(pre, post, u, i);
    assert(admissible(u, pre.origin, pre.visited));
    assert forall|a: int|
        0 <= a < pre.fetched.len() implies #[trigger] pre.fetched[a].key() != u.key() by {
        assert(pre.visited.contains(pre.fetched[a].key()));
    }
    assert forall|a: int|
        0 <= a < post.fetched.len() implies post.visited.contains(
        #[trigger] post.fetched[a].key(),
    ) by {
        if a < pre.fetched.len() {
            let k0 = pre.fetched[a].key();
            assert(pre.visited.contains(k0));
            let w = choose|w: int| 0 <= w < pre.visited.len() && pre.visited[w] == k0;
            assert(post.visited[w] == k0);
        } else {
            assert(post.visited[pre.visited.len() as int] == u.key());
        }
    }
    assert forall|a: int, b: int|
        0 <= a < b < post.fetched.len() implies #[trigger] post.fetched[a].key()
        != #[trigger] post.fetched[b].key() by {
        if b == post.fetched.len() - 1 {
            assert(pre.visited.contains(pre.fetched[a].key()));
        }
    }
}

/// Cycle termination: however pages link to one another, the number of
/// URLs handed out for fetching never exceeds the number of distinct keys
/// the run can claim — so on a site with finitely many distinct URLs, such
/// as two pages linking to each other, the crawl is bounded.
pub proof fn lemma_cycle_termination(c: CrawlerView, universe: Set<Seq<char>>)
    requires
        c.wf(),
        universe.finite(),
        forall|i: int| 0 <= i < c.visited.len() ==> universe.contains(#[trigger] c.visited[i]),
    ensures
        c.fetched.len() <= universe.len(),
{
    let keys = Seq::new(c.fetched.len(), |i: int| c.fetched[i].key());
    assert(keys.no_duplicates());
    keys.unique_seq_to_set();
    assert forall|k: Seq<char>| #[trigger] keys.to_set().contains(k) implies universe.contains(
        k,
    ) by {
        assert(keys.contains(k));
        let a = choose|a: int| 0 <= a < keys.len() && keys[a] == k;
        assert(c.visited.contains(c.fetched[a].key()));
        let w = choose|w: int| 0 <= w < c.visited.len() && c.visited[w] == k;
        assert(universe.contains(c.visited[w]));
    }
    lemma_len_subset(keys.to_set(), universe);
}

/// Origin containment: every URL handed out for fetching belongs to the
/// run's origin — a link to a different host or scheme is never fetched,
/// regardless of how many pages reference it.
pub proof fn lemma_origin_containment(pre: CrawlerView, post: CrawlerView, u: UrlView)
    requires
        pre.wf(),
        next_transition(pre, post, Some(u)),
    ensures
        spec_same_origin(u, pre.origin),
        forall|i: int|
            0 <= i < post.fetched.len() ==> spec_same_origin(#[trigger] post.fetched[i], pre.origin),
{
    let i = choose|i: int| next_picked(pre, post, u, i);
    assert(admissible(u, pre.origin, pre.visited));
    assert forall|a: int|
        0 <= a < post.fetched.len() implies spec_same_origin(
        #[trigger] post.fetched[a],
        pre.origin,
    ) by {
        if a < pre.fetched.len() {
            assert(spec_same_origin(pre.fetched[a], pre.origin));
        }
    }
}

/// Failure isolation, on the queue: admitting one URL removes no other
/// admissible candidate from the pending queue. So when the caller's fetch
/// of the admitted URL fails — which touches no crawler state — every
/// admissible sibling is still there to be attempted.
pub proof fn lemma_failure_isolation(pre: CrawlerView, post: CrawlerView, u: UrlView, j: int)
    requires
        pre.wf(),
        next_transition(pre, post, Some(u)),
        0 <= j < pre.pending.len(),
        admissible(pre.pending[j], pre.origin, pre.visited),
    ensures
        pre.pending[j] == u || (j < post.pending.len() && post.pending[j] == pre.pending[j]),
{
    let i = choose|i: int| next_picked(pre, post, u, i);
    if j < i {
        assert(post.pending[j] == pre.pending.take(i)[j]);
    }
}

/// Claims only accumulate: an admission step never forgets a claimed key.
pub proof fn lemma_claims_kept_next(pre: CrawlerView, post: CrawlerView, r: Option<UrlView>)
    requires
        next_transition(pre, post, r),
    ensures
        forall|k: Seq<char>| #[trigger] pre.visited.contains(k) ==> post.visited.contains(k),
{
    if r is Some {
        let u = r->0;
        let i = choose|i: int| next_picked(pre, post, u, i);
        assert forall|k: Seq<char>| #[trigger] pre.visited.contains(k) implies post.visited.contains(
            k,
        ) by {
            let w = choose|w: int| 0 <= w < pre.visited.len() && pre.visited[w] == k;
            assert(post.visited[w] == k);
        }
    }
}

/// Claims only accumulate: handling a response never forgets a claimed key.
pub proof fn lemma_claims_kept_response(
    pre: CrawlerView,
    post: CrawlerView,
    f: UrlView,
    kind: Option<Seq<char>>,
    body: Seq<char>,
    out: Outcome,
)
    requires
        response_transition(pre, post, f, kind, body, out),
    ensures
        forall|k: Seq<char>| #[trigger] pre.visited.contains(k) ==> post.visited.contains(k),
{
    assert forall|k: Seq<char>| #[trigger] pre.visited.contains(k) implies post.visited.contains(
        k,
    ) by {
        let w = choose|w: int| 0 <= w < pre.visited.len() && pre.visited[w] == k;
        assert(post.visited[w] == k);
    }
}

/// Redirect collapsing: handling the response for a redirected fetch
/// persists exactly one file, at the path derived from the final
/// (post-redirect) URL; the final URL's key is claimed by that step, and a
/// later independent link to the same destination — after any further
/// steps, which only accumulate claims — is never handed out for fetching
/// again.
pub proof fn lemma_redirect_collapsing(
    pre: CrawlerView,
    post: CrawlerView,
    f: UrlView,
    kind: Seq<char>,
    body: Seq<char>,
    out: Outcome,
    later: CrawlerView,
    later2: CrawlerView,
    u: UrlView,
)
    requires
        response_transition(pre, post, f, Some(kind), body, out),
        forall|k: Seq<char>| #[trigger] post.visited.contains(k) ==> later.visited.contains(k),
        next_transition(later, later2, Some(u)),
    ensures
        (out matches Outcome::Persist(p) ==> p@ == storage_path_of(pre.out_root, f.path)),
        post.visited.contains(f.key()),
        u.key() != f.key(),
{
    if pre.visited.contains(f.key()) {
        assert(post.visited == pre.visited);
    } else {
        assert(post.visited == pre.visited.push(f.key()));
        assert(post.visited[pre.visited.len() as int] == f.key());
    }
    let i = choose|i: int| next_picked(later, later2, u, i);
    assert(admissible(u, later.origin, later.visited));
}

} // verus!
