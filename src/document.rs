//! Queries against a laid-out document: which nodes a selector matches,
//! and what a node's attributes hold.
use blitz_dom::{BaseDocument, Node};
use vstd::prelude::*;

verus! {

#[verifier::external_type_specification]
#[verifier::external_body]
pub struct ExBaseDocument(BaseDocument);

#[verifier::external_type_specification]
#[verifier::external_body]
pub struct ExNode(Node);

/// Whether the document holds a node with the given id.
pub uninterp spec fn has_node(doc: BaseDocument, id: usize) -> bool;

/// The ids of the nodes of `doc` that match `selector`, in document order,
/// or nothing where the selector does not parse.
pub uninterp spec fn query_of(doc: BaseDocument, selector: Seq<char>) -> Option<Seq<usize>>;

/// The value of the attribute `name` of `node`, where it is an element
/// that carries one.
pub uninterp spec fn attr_value(node: Node, name: Seq<char>) -> Option<Seq<char>>;

/// Id of the document's root node, where selector matching starts.
pub const ROOT_NODE: usize = 0;

/// Id of the node that selector matching looks up as the document's owner.
pub const OWNER_NODE: usize = 1;

/// Relies on BaseDocument::get_node: whether a node with this id exists.
#[verifier::external_body]
fn node_exists(doc: &BaseDocument, id: usize) -> (r: bool)
    ensures
        r == has_node(*doc, id),
{
    doc.get_node(id).is_some()
}

/// Relies on BaseDocument::query_selector_all: the ids of the nodes that
/// match `selector`, or an error where the selector does not parse. Matching
/// starts at node 0, the root, and looks up node 1 as the owner document; it
/// panics where either is missing.
#[verifier::external_body]
fn query_all(doc: &BaseDocument, selector: &str) -> (r: Option<Vec<usize>>)
    requires
        has_node(*doc, ROOT_NODE),
        has_node(*doc, OWNER_NODE),
    ensures
        match r {
            Some(ids) => query_of(*doc, selector@) == Some(ids@),
            None => query_of(*doc, selector@) is None,
        },
{
    doc.query_selector_all(selector).ok().map(|ids| ids.to_vec())
}

/// Relies on Node::attr: the value of the attribute `name`, where the node
/// is an element that carries it.
#[verifier::external_body]
fn attr_of(node: &Node, name: &str) -> (r: Option<String>)
    ensures
        match r {
            Some(v) => attr_value(*node, name@) == Some(v@),
            None => attr_value(*node, name@) is None,
        },
{
    node.attr(blitz_dom::Atom::from(name)).map(|v| v.to_string())
}

/// The matched node ids, or no ids where the query failed: a selector that
/// cannot be used yields no matches rather than an error.
pub fn ids_or_empty(found: Option<Vec<usize>>) -> (r: Vec<usize>)
    ensures
        r@ == match found {
            Some(ids) => ids@,
            None => Seq::<usize>::empty(),
        },
{
    match found {
        Some(ids) => ids,
        None => Vec::new(),
    }
}

/// The ids of the nodes of `doc` that match `selector`, in document order;
/// none where the selector is not supported, and none for a document that
/// lacks node 0 (its root) or node 1 (the node matching looks up as owner).
pub fn select_nodes(doc: &BaseDocument, selector: &str) -> (r: Vec<usize>)
    ensures
        r@ == if has_node(*doc, ROOT_NODE) && has_node(*doc, OWNER_NODE) {
            match query_of(*doc, selector@) {
                Some(ids) => ids,
                None => Seq::<usize>::empty(),
            }
        } else {
            Seq::<usize>::empty()
        },
{
    if node_exists(doc, ROOT_NODE) && node_exists(doc, OWNER_NODE) {
        ids_or_empty(query_all(doc, selector))
    } else {
        Vec::new()
    }
}

/// An attribute value, or the empty string where the attribute is absent.
pub fn value_or_empty(found: Option<String>) -> (r: String)
    ensures
        r@ == match found {
            Some(v) => v@,
            None => Seq::<char>::empty(),
        },
{
    match found {
        Some(v) => v,
        None => String::new(),
    }
}

/// The value of the attribute `name` of `node`; empty where it has none.
pub fn attr_or_empty(node: &Node, name: &str) -> (r: String)
    ensures
        r@ == match attr_value(*node, name@) {
            Some(v) => v,
            None => Seq::<char>::empty(),
        },
{
    value_or_empty(attr_of(node, name))
}

} // verus!
