//! A verified core for mirroring a single website to local storage.
//!
//! Starting from one seed address, a crawl fetches a page, discovers the
//! hyperlinks in it, and recursively fetches every link that stays within the
//! same origin, writing each fetched resource to a path derived from its URL.
//! The traversal engine here decides which URLs to visit, deduplicates visits
//! against cycles and redirects, classifies content by its declared kind, and
//! maps each remote URL to a deterministic local storage location. The HTTP
//! transport and the filesystem are collaborators driven by the caller; HTML
//! tag parsing and URL syntax are delegated to outside crates behind trusted
//! wrappers.

mod content;
mod crawler;
mod dom;
mod laws;
mod links;
mod storage;
mod text;
mod urls;
mod visited;

pub use content::ContentClass;
pub use content::classify;
pub use content::spec_classify;
pub use content::spec_is_html_kind;
pub use crawler::Crawler;
pub use crawler::CrawlerView;
pub use crawler::Outcome;
pub use crawler::admissible;
pub use crawler::kind_view;
pub use crawler::next_picked;
pub use crawler::next_transition;
pub use crawler::opt_url_view;
pub use crawler::response_transition;
pub use crawler::response_visited;
pub use dom::dom_view;
pub use dom::parsed_doc;
pub use laws::lemma_claims_kept_next;
pub use laws::lemma_claims_kept_response;
pub use laws::lemma_cycle_termination;
pub use laws::lemma_failure_isolation;
pub use laws::lemma_no_double_fetch;
pub use laws::lemma_origin_containment;
pub use laws::lemma_redirect_collapsing;
pub use links::extract_links;
pub use links::links_from_dom;
pub use links::links_of;
pub use links::node_link;
pub use links::urls_view;
pub use storage::lemma_storage_path_deterministic;
pub use storage::lemma_storage_path_injective;
pub use storage::storage_path_of;
pub use storage::to_storage_path;
pub use text::has_prefix;
pub use text::spec_has_prefix;
pub use urls::Origin;
pub use urls::OriginView;
pub use urls::Url;
pub use urls::UrlView;
pub use urls::parsed_url;
pub use urls::resolved_url;
pub use urls::same_origin;
pub use urls::spec_same_origin;
pub use visited::VisitedSet;
pub use visited::keys_view;
