//! The link extractor: given HTML text and the page's final (post-redirect)
//! URL, the finite sequence of candidate absolute URLs the page links to.
//!
//! For every anchor element the hyperlink attribute is read; elements with a
//! missing or valueless attribute are skipped, attribute values that are not
//! well-formed UTF-8 are skipped, and values that fail to resolve against
//! the page's final URL are skipped — each a per-link outcome, never a
//! failure of the whole extraction. Origin filtering happens downstream in
//! the crawler, not here, keeping resolution and policy separate.

use vstd::prelude::*;
use vstd::utf8::decode_utf8;
use vstd::utf8::valid_utf8;

use crate::dom::dom_href_value;
use crate::dom::dom_node_count;
use crate::dom::dom_tag_name;
use crate::dom::dom_view;
use crate::dom::parse_dom;
use crate::dom::parsed_doc;
use crate::dom::utf8_to_string;
use crate::urls::Url;
use crate::urls::UrlView;
use crate::urls::resolve_reference;
use crate::urls::resolved_url;

verus! {

/// The views of a sequence of URLs, in order.
pub open spec fn urls_view(v: Seq<Url>) -> Seq<UrlView> {
    Seq::new(v.len(), |i: int| v[i]@)
}

/// The candidate link one node contributes: where the node is an anchor
/// element (its tag name is the one byte `a`) whose hyperlink attribute
/// carries well-formed UTF-8 that resolves against the base URL, the
/// resolved URL; nothing otherwise.
pub open spec fn node_link(node: (Option<Seq<u8>>, Option<Seq<u8>>), base: Seq<char>) -> Seq<
    UrlView,
> {
    if node.0 == Some(seq![97u8]) {
        match node.1 {
            Some(hb) => if valid_utf8(hb) {
                match resolved_url(base, decode_utf8(hb)) {
                    Some(u) => seq![u],
                    None => Seq::<UrlView>::empty(),
                }
            } else {
                Seq::<UrlView>::empty()
            },
            None => Seq::<UrlView>::empty(),
        }
    } else {
        Seq::<UrlView>::empty()
    }
}

/// All candidate links of a document, in node order: the concatenation of
/// what each node contributes.
pub open spec fn links_of(
    nodes: Seq<(Option<Seq<u8>>, Option<Seq<u8>>)>,
    base: Seq<char>,
) -> Seq<UrlView>
    decreases nodes.len(),
{
    if nodes.len() == 0 {
        Seq::<UrlView>::empty()
    } else {
        links_of(nodes.drop_last(), base) + node_link(nodes.last(), base)
    }
}

proof fn lemma_links_take_step(
    nodes: Seq<(Option<Seq<u8>>, Option<Seq<u8>>)>,
    i: int,
    base: Seq<char>,
)
    requires
        0 <= i < nodes.len(),
    ensures
        links_of(nodes.take(i + 1), base) == links_of(nodes.take(i), base) + node_link(
            nodes[i],
            base,
        ),
{
    assert(nodes.take(i + 1).drop_last() =~= nodes.take(i));
    assert(nodes.take(i + 1).last() == nodes[i]);
}

/// The candidate link node `i` contributes, as a value: `Some` exactly where
/// [`node_link`] yields one URL.
fn node_candidate(dom: &tl::VDom, i: usize, base_key: &str) -> (r: Option<Url>)
    requires
        i < dom_view(dom).len(),
    ensures
        (match r {
            Some(u) => seq![u@],
            None => Seq::<UrlView>::empty(),
        }) == node_link(dom_view(dom)[i as int], base_key@),
{
    let ghost node = dom_view(dom)[i as int];
    let name = match dom_tag_name(dom, i) {
        Some(nb) => nb,
        None => {
            return None;
        },
    };
    if !(name.len() == 1 && name[0] == 97) {
        proof {
            if node.0 == Some(seq![97u8]) {
                assert(name@ == seq![97u8]);
                assert(name@.len() == 1 && name@[0] == 97u8);
            }
        }
        return None;
    }
    proof {
        assert(name@ =~= seq![97u8]);
    }
    let hb = match dom_href_value(dom, i) {
        Some(hb) => hb,
        None => {
            return None;
        },
    };
    let href = match utf8_to_string(hb.as_slice()) {
        Some(s) => s,
        None => {
            return None;
        },
    };
    resolve_reference(base_key, href.as_str())
}

/// Collects the candidate links of an already-parsed document, resolving
/// each against the base URL whose key string is `base_key`.
pub fn links_from_dom(dom: &tl::VDom, base_key: &str) -> (r: Vec<Url>)
    ensures
        urls_view(r@) == links_of(dom_view(dom), base_key@),
{
    let n = dom_node_count(dom);
    let mut out: Vec<Url> = Vec::new();
    proof {
        assert(dom_view(dom).take(0) =~= Seq::<(Option<Seq<u8>>, Option<Seq<u8>>)>::empty());
        assert(urls_view(out@) =~= Seq::<UrlView>::empty());
    }
    let mut i: usize = 0;
    while i < n
        invariant
            i <= n,
            n == dom_view(dom).len(),
            urls_view(out@) == links_of(dom_view(dom).take(i as int), base_key@),
        decreases n - i,
    {
        let c = node_candidate(dom, i, base_key);
        proof {
            lemma_links_take_step(dom_view(dom), i as int, base_key@);
        }
        match c {
            Some(u) => {
                let ghost prev = out@;
                out.push(u);
                proof {
                    assert(urls_view(out@) =~= urls_view(prev).push(u@));
                    assert(urls_view(prev).push(u@) =~= urls_view(prev) + seq![u@]);
                }
            },
            None => {
                proof {
                    assert(urls_view(out@) + Seq::<UrlView>::empty() =~= urls_view(out@));
                }
            },
        }
        i += 1;
    }
    proof {
        assert(dom_view(dom).take(n as int) =~= dom_view(dom));
    }
    out
}

/// Extracts the candidate links of an HTML page: parses the text, reads
/// every anchor's hyperlink attribute, and resolves each against the page's
/// final URL `base`. `None` exactly where the page does not parse.
pub fn extract_links(html: &str, base: &Url) -> (r: Option<Vec<Url>>)
    ensures
        r is Some <==> parsed_doc(html@) is Some,
        r matches Some(v) ==> (parsed_doc(html@) matches Some(ns) && urls_view(v@) == links_of(
            ns,
            base@.key(),
        )),
{
    let key = base.key_string();
    match parse_dom(html) {
        Some(d) => Some(links_from_dom(&d, key.as_str())),
        None => None,
    }
}

} // verus!
