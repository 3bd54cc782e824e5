//! The crawl orchestrator: the state machine that drives a whole mirror
//! run, one fetched resource at a time.
//!
//! The caller owns the outside work. It repeatedly asks [`Crawler::next_task`]
//! for the next URL to fetch — the tracker claims it before it is handed
//! out — performs the fetch, and reports the outcome of a successful fetch
//! through [`Crawler::handle_response`], which claims the post-redirect URL,
//! classifies the content, queues the page's links for later admission, and
//! says where to persist the bytes. A failed fetch needs no report: the
//! crawler's state is untouched, so every sibling link is still attempted.
//!
//! The state invariant [`CrawlerView::wf`] carries the run's guarantees: no
//! URL is handed out to be fetched twice, and every URL handed out belongs
//! to the origin.

use vstd::prelude::*;

use crate::content::ContentClass;
use crate::content::classify;
use crate::content::spec_classify;
use crate::dom::parsed_doc;
use crate::links::extract_links;
use crate::links::links_of;
use crate::links::urls_view;
use crate::storage::storage_path_of;
use crate::storage::to_storage_path;
use crate::urls::Origin;
use crate::urls::OriginView;
use crate::urls::Url;
use crate::urls::UrlView;
use crate::urls::same_origin;
use crate::urls::spec_same_origin;
use crate::visited::VisitedSet;

verus! {

/// What the caller is to do with one fetched resource.
#[derive(Debug)]
pub enum Outcome {
    /// The resource was HTML: persist the fetched bytes, unchanged, at this
    /// storage path; its links have been queued.
    Persist(String),
    /// The response declared no content kind: a hard error for this
    /// resource, nothing persisted.
    MissingKind,
    /// The declared kind has no handler: a branch-local failure, nothing
    /// persisted.
    UnsupportedKind,
    /// The HTML text did not parse: a branch-local failure, nothing
    /// persisted.
    ParseFailed,
}

/// The mathematical view of a [`Crawler`].
pub struct CrawlerView {
    /// The (scheme, host) pair of the seed URL, fixed for the run.
    pub origin: OriginView,
    /// The output root every storage path is placed under, fixed for the
    /// run.
    pub out_root: Seq<char>,
    /// The keys claimed so far, in claim order.
    pub visited: Seq<Seq<char>>,
    /// Discovered candidate URLs not yet admitted or rejected.
    pub pending: Seq<UrlView>,
    /// The URLs handed out for fetching, in order.
    pub fetched: Seq<UrlView>,
}

impl CrawlerView {
    /// The run invariant: no key is claimed twice, no two URLs handed out
    /// for fetching share a key, every one belongs to the origin, and every
    /// one is claimed.
    pub open spec fn wf(self) -> bool {
        &&& self.visited.no_duplicates()
        &&& (forall|i: int, j: int|
            0 <= i < j < self.fetched.len() ==> #[trigger] self.fetched[i].key()
                != #[trigger] self.fetched[j].key())
        &&& (forall|i: int|
            0 <= i < self.fetched.len() ==> spec_same_origin(
                #[trigger] self.fetched[i],
                self.origin,
            ))
        &&& (forall|i: int|
            0 <= i < self.fetched.len() ==> self.visited.contains(
                #[trigger] self.fetched[i].key(),
            ))
    }
}

/// May this candidate be fetched now? It must belong to the origin and its
/// key must not be claimed yet.
pub open spec fn admissible(u: UrlView, origin: OriginView, visited: Seq<Seq<char>>) -> bool {
    spec_same_origin(u, origin) && !visited.contains(u.key())
}

/// One admission step that hands out `u`, found at position `i` of the
/// pending queue: everything above `i` was popped and was inadmissible, `u`
/// was admissible and is now claimed and recorded as fetched.
pub open spec fn next_picked(pre: CrawlerView, post: CrawlerView, u: UrlView, i: int) -> bool {
    &&& 0 <= i < pre.pending.len()
    &&& pre.pending[i] == u
    &&& admissible(u, pre.origin, pre.visited)
    &&& (forall|j: int|
        i < j < pre.pending.len() ==> !admissible(#[trigger] pre.pending[j], pre.origin, pre.visited))
    &&& post.origin == pre.origin
    &&& post.out_root == pre.out_root
    &&& post.pending == pre.pending.take(i)
    &&& post.visited == pre.visited.push(u.key())
    &&& post.fetched == pre.fetched.push(u)
}

/// What [`Crawler::next_task`] does: either it hands out an admissible URL
/// by [`next_picked`], or it reports the queue exhausted, with every popped
/// candidate inadmissible and the rest of the state untouched.
pub open spec fn next_transition(pre: CrawlerView, post: CrawlerView, r: Option<UrlView>) -> bool {
    match r {
        Some(u) => exists|i: int| next_picked(pre, post, u, i),
        None => {
            &&& post.origin == pre.origin
            &&& post.out_root == pre.out_root
            &&& post.pending.len() == 0
            &&& post.visited == pre.visited
            &&& post.fetched == pre.fetched
            &&& (forall|j: int|
                0 <= j < pre.pending.len() ==> !admissible(
                    #[trigger] pre.pending[j],
                    pre.origin,
                    pre.visited,
                ))
        },
    }
}

/// The claimed keys after the post-redirect URL key `k` is claimed:
/// unchanged where `k` was already claimed, appended otherwise.
pub open spec fn response_visited(pre: Seq<Seq<char>>, k: Seq<char>) -> Seq<Seq<char>> {
    if pre.contains(k) {
        pre
    } else {
        pre.push(k)
    }
}

/// The view of an optional declared content kind.
pub open spec fn kind_view(kind: Option<&String>) -> Option<Seq<char>> {
    match kind {
        Some(k) => Some(k@),
        None => None,
    }
}

/// What [`Crawler::handle_response`] does for a response whose final
/// (post-redirect) URL is `f`, declared content kind `kind` and body text
/// `body`. A missing kind changes nothing. Otherwise `f`'s key is claimed;
/// a non-HTML kind and an unparseable page change nothing else; for an HTML
/// page the document's candidate links are appended to the pending queue
/// and the bytes are to be persisted at the path derived from `f`.
pub open spec fn response_transition(
    pre: CrawlerView,
    post: CrawlerView,
    f: UrlView,
    kind: Option<Seq<char>>,
    body: Seq<char>,
    out: Outcome,
) -> bool {
    &&& post.origin == pre.origin
    &&& post.out_root == pre.out_root
    &&& post.fetched == pre.fetched
    &&& match spec_classify(kind) {
        ContentClass::Missing => {
            &&& out == Outcome::MissingKind
            &&& post.visited == pre.visited
            &&& post.pending == pre.pending
        },
        ContentClass::Unsupported => {
            &&& out == Outcome::UnsupportedKind
            &&& post.visited == response_visited(pre.visited, f.key())
            &&& post.pending == pre.pending
        },
        ContentClass::Html => {
            &&& post.visited == response_visited(pre.visited, f.key())
            &&& match parsed_doc(body) {
                None => {
                    &&& out == Outcome::ParseFailed
                    &&& post.pending == pre.pending
                },
                Some(ns) => {
                    &&& (out matches Outcome::Persist(p) && p@ == storage_path_of(
                        pre.out_root,
                        f.path,
                    ))
                    &&& post.pending == pre.pending + links_of(ns, f.key())
                },
            }
        },
    }
}

/// The view of an optional URL.
pub open spec fn opt_url_view(r: Option<Url>) -> Option<UrlView> {
    match r {
        Some(u) => Some(u@),
        None => None,
    }
}

/// The state of one crawl run.
pub struct Crawler {
    origin: Origin,
    out_root: String,
    visited: VisitedSet,
    pending: Vec<Url>,
    fetched: Ghost<Seq<UrlView>>,
}

impl View for Crawler {
    type V = CrawlerView;

    closed spec fn view(&self) -> CrawlerView {
        CrawlerView {
            origin: self.origin@,
            out_root: self.out_root@,
            visited: self.visited@,
            pending: urls_view(self.pending@),
            fetched: self.fetched@,
        }
    }
}

impl Crawler {
    /// Starts a crawl run from the seed URL, whose (scheme, host) pair
    /// becomes the run's origin, persisting under the output root
    /// `out_root`. `None` exactly where the seed has no host: the one
    /// top-level failure that aborts a run before it starts.
    pub fn new(seed: Url, out_root: String) -> (r: Option<Crawler>)
        ensures
            r is Some <==> seed@.host is Some,
            r matches Some(c) ==> ({
                &&& c@.wf()
                &&& c@.origin == (OriginView { scheme: seed@.scheme, host: seed@.host->0 })
                &&& c@.out_root == out_root@
                &&& c@.visited == Seq::<Seq<char>>::empty()
                &&& c@.pending == seq![seed@]
                &&& c@.fetched == Seq::<UrlView>::empty()
            }),
    {
        let host_clone: Option<String> = match &seed.host {
            Some(h) => Some(h.clone()),
            None => None,
        };
        match host_clone {
            None => None,
            Some(h) => {
                let origin = Origin { scheme: seed.scheme.clone(), host: h };
                let ghost seed_view = seed@;
                let mut pending: Vec<Url> = Vec::new();
                pending.push(seed);
                let c = Crawler {
                    origin,
                    out_root,
                    visited: VisitedSet::new(),
                    pending,
                    fetched: Ghost(Seq::empty()),
                };
                proof {
                    assert(c@.pending =~= seq![seed_view]);
                }
                Some(c)
            },
        }
    }

    /// How many URLs have been claimed so far.
    pub fn visited_count(&self) -> (r: usize)
        ensures
            r == self@.visited.len(),
    {
        self.visited.len()
    }

    /// How many discovered candidates await admission.
    pub fn pending_count(&self) -> (r: usize)
        ensures
            r == self@.pending.len(),
    {
        self.pending.len()
    }

    /// Pops pending candidates until one passes the origin policy and the
    /// tracker's claim, and hands it out to be fetched; `None` once the
    /// queue is exhausted. See [`next_transition`].
    pub fn next_task(&mut self) -> (r: Option<Url>)
        requires
            old(self)@.wf(),
        ensures
            final (self)@.wf(),
            next_transition(old(self)@, final (self)@, opt_url_view(r)),
    {
        let ghost pre = self@;
        let ghost mut cut: int = pre.pending.len() as int;
        loop
            invariant
                pre == old(self)@,
                self@.wf(),
                self@.origin == pre.origin,
                self@.out_root == pre.out_root,
                self@.visited == pre.visited,
                self@.fetched == pre.fetched,
                0 <= cut <= pre.pending.len(),
                self@.pending == pre.pending.take(cut),
                forall|j: int|
                    cut <= j < pre.pending.len() ==> !admissible(
                        #[trigger] pre.pending[j],
                        pre.origin,
                        pre.visited,
                    ),
            decreases self.pending.len(),
        {
            let ghost before = self@.pending;
            match self.pending.pop() {
                None => {
                    proof {
                        assert(pre.pending.take(cut).len() == cut);
                    }
                    return None;
                },
                Some(u) => {
                    proof {
                        assert(before.len() == cut);
                        cut = cut - 1;
                        assert(u@ == before[cut]);
                        assert(u@ == pre.pending[cut]);
                        assert(self@.pending =~= pre.pending.take(cut));
                    }
                    let k = u.key_string();
                    if same_origin(&u, &self.origin) {
                        if self.visited.try_claim(&k) {
                            self.fetched = Ghost(self.fetched@.push(u@));
                            proof {
                                assert forall|a: int, b: int|
                                    0 <= a < b < self@.visited.len() implies self@.visited[a]
                                    != self@.visited[b] by {
                                    if b == self@.visited.len() - 1 {
                                        assert(pre.visited.contains(pre.visited[a]));
                                    }
                                }
                                assert(self@.fetched == pre.fetched.push(u@));
                                assert(admissible(u@, pre.origin, pre.visited));
                                assert(next_picked(pre, self@, u@, cut));
                                assert forall|a: int|
                                    0 <= a < self@.fetched.len() implies self@.visited.contains(
                                    #[trigger] self@.fetched[a].key(),
                                ) by {
                                    if a < pre.fetched.len() {
                                        let k0 = pre.fetched[a].key();
                                        assert(pre.visited.contains(k0));
                                        let w = choose|w: int|
                                            0 <= w < pre.visited.len() && pre.visited[w] == k0;
                                        assert(self@.visited[w] == k0);
                                    } else {
                                        assert(self@.visited[pre.visited.len() as int] == u@.key());
                                    }
                                }
                                assert forall|a: int, b: int|
                                    0 <= a < b < self@.fetched.len() implies #[trigger] self@.fetched[a].key()
                                    != #[trigger] self@.fetched[b].key() by {
                                    if b == self@.fetched.len() - 1 {
                                        assert(pre.visited.contains(pre.fetched[a].key()));
                                    }
                                }
                            }
                            return Some(u);
                        }
                    }
                    proof {
                        assert(!admissible(pre.pending[cut], pre.origin, pre.visited));
                    }
                },
            }
        }
    }

    /// Handles one successfully fetched resource: claims the final URL,
    /// classifies the declared content kind, queues an HTML page's links,
    /// and says what to do with the bytes. See [`response_transition`].
    pub fn handle_response(
        &mut self,
        final_url: &Url,
        content_kind: Option<&String>,
        body: &str,
    ) -> (out: Outcome)
        requires
            old(self)@.wf(),
        ensures
            final (self)@.wf(),
            response_transition(
                old(self)@,
                final (self)@,
                final_url@,
                kind_view(content_kind),
                body@,
                out,
            ),
    {
        let class = classify(content_kind);
        if class == ContentClass::Missing {
            return Outcome::MissingKind;
        }
        let ghost pre = self@;
        let k = final_url.key_string();
        let _claimed: bool = self.visited.try_claim(&k);
        proof {
            assert(self@.visited == response_visited(pre.visited, final_url@.key()));
            assert forall|a: int, b: int|
                0 <= a < b < self@.visited.len() implies self@.visited[a] != self@.visited[b] by {
                if b == self@.visited.len() - 1 && b >= pre.visited.len() {
                    assert(pre.visited.contains(pre.visited[a]));
                }
            }
            assert forall|a: int|
                0 <= a < self@.fetched.len() implies self@.visited.contains(
                #[trigger] self@.fetched[a].key(),
            ) by {
                let k0 = pre.fetched[a].key();
                assert(pre.visited.contains(k0));
                let w = choose|w: int| 0 <= w < pre.visited.len() && pre.visited[w] == k0;
                assert(self@.visited[w] == k0);
            }
        }
        if class == ContentClass::Html {
            match extract_links(body, final_url) {
                None => Outcome::ParseFailed,
                Some(links) => {
                    let path = to_storage_path(self.out_root.as_str(), final_url);
                    let mut links = links;
                    let ghost pre_pending = self@.pending;
                    let ghost links_view = urls_view(links@);
                    self.pending.append(&mut links);
                    proof {
                        assert(self@.pending =~= pre_pending + links_view);
                    }
                    Outcome::Persist(path)
                },
            }
        } else {
            Outcome::UnsupportedKind
        }
    }
}

} // verus!
