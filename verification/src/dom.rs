//! The HTML tag/attribute parser, an outside collaborator: the `tl` crate
//! parses HTML text into a flat list of nodes, which this module exposes to
//! verified code as plain values, one node at a time.
//!
//! The parsed document is modelled as a sequence with one entry per node:
//! the node's tag name bytes where it is an element tag, and the value bytes
//! of its `href` attribute where that attribute is present with a value.
//! That sequence is a function of the HTML text alone and carries the name
//! [`parsed_doc`]; [`dom_view`] names what a given parse result holds, and
//! the wrappers below speak of both.

use vstd::prelude::*;

verus! {

#[verifier::external_type_specification]
#[verifier::external_body]
pub struct ExVDom<'a>(tl::VDom<'a>);

/// What a parse result holds: one entry per node of the document, carrying
/// the node's tag name bytes where the node is an element tag, and the value
/// bytes of its `href` attribute where that attribute carries a value.
pub uninterp spec fn dom_view(dom: &tl::VDom) -> Seq<(Option<Seq<u8>>, Option<Seq<u8>>)>;

/// What parsing a given HTML text yields: the node summaries of the
/// document, or `None` where parsing fails. The result depends on the text
/// alone.
pub uninterp spec fn parsed_doc(html: Seq<char>) -> Option<Seq<(Option<Seq<u8>>, Option<Seq<u8>>)>>;

/// Relies on `tl::parse` with default options: parses HTML text into a node
/// list; it fails only where the input length overflows the parser's index
/// type. The parse result is a function of the text alone.
#[verifier::external_body]
pub fn parse_dom(html: &str) -> (r: Option<tl::VDom<'_>>)
    ensures
        r is Some <==> parsed_doc(html@) is Some,
        r matches Some(d) ==> parsed_doc(html@) == Some(dom_view(&d)),
{
    tl::parse(html, tl::ParserOptions::default()).ok()
}

/// Relies on `tl::VDom::nodes`: the nodes of the document as one flat slice,
/// whose length is read here.
#[verifier::external_body]
pub fn dom_node_count(dom: &tl::VDom) -> (r: usize)
    ensures
        r == dom_view(dom).len(),
{
    dom.nodes().len()
}

/// Relies on `tl::VDom::nodes`, `tl::Node::as_tag` and `tl::HTMLTag::name`:
/// the tag name bytes of node `i`, where that node is an element tag.
#[verifier::external_body]
pub fn dom_tag_name(dom: &tl::VDom, i: usize) -> (r: Option<Vec<u8>>)
    ensures
        i < dom_view(dom).len() ==> (r is Some <==> dom_view(dom)[i as int].0 is Some),
        i < dom_view(dom).len() ==> (r matches Some(v) ==> dom_view(dom)[i as int].0 == Some(v@)),
        i >= dom_view(dom).len() ==> r is None,
{
    let tag = dom.nodes().get(i).and_then(|n| n.as_tag())?;
    Some(tag.name().as_bytes().to_vec())
}

/// Relies on `tl::VDom::nodes`, `tl::Node::as_tag`, `tl::HTMLTag::attributes`
/// and `tl::Attributes::get`: the value bytes of the `href` attribute of
/// node `i`, where that node is an element tag and the attribute is present
/// with a value.
#[verifier::external_body]
pub fn dom_href_value(dom: &tl::VDom, i: usize) -> (r: Option<Vec<u8>>)
    ensures
        i < dom_view(dom).len() ==> (r is Some <==> dom_view(dom)[i as int].1 is Some),
        i < dom_view(dom).len() ==> (r matches Some(v) ==> dom_view(dom)[i as int].1 == Some(v@)),
        i >= dom_view(dom).len() ==> r is None,
{
    let tag = dom.nodes().get(i).and_then(|n| n.as_tag())?;
    let value = tag.attributes().get("href")??;
    Some(value.as_bytes().to_vec())
}

/// Relies on `core::str::from_utf8`: succeeds exactly on well-formed UTF-8
/// and decodes it, per the UTF-8 model of vstd.
#[verifier::external_body]
pub fn utf8_to_string(b: &[u8]) -> (r: Option<String>)
    ensures
        r is Some <==> vstd::utf8::valid_utf8(b@),
        r matches Some(s) ==> s@ == vstd::utf8::decode_utf8(b@),
{
    match core::str::from_utf8(b) {
        Ok(s) => Some(s.to_string()),
        Err(_) => None,
    }
}

} // verus!
