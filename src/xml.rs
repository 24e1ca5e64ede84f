//! XML documents as a flat list of nodes in document order, and lookup of
//! elements by a path of tag names.

use vstd::prelude::*;
use crate::boundary::{trim, trimmed_of};
use crate::text::text_eq;

verus! {

/// One node of a parsed XML document.
#[derive(Clone, Debug)]
pub struct XmlNode {
    /// The node's identity within its document.
    pub id: u32,
    /// The identity of the node's parent, if the parent is listed.
    pub parent: Option<u32>,
    pub is_element: bool,
    /// The local tag name of an element; empty for other nodes.
    pub name: String,
    /// For an element, the text of its first child when that child is text.
    pub text: Option<String>,
}

/// The nodes of the XML text `s`, from its root element on in document
/// order, or `None` where `s` is not well-formed XML.
pub uninterp spec fn xml_nodes_of(s: Seq<char>) -> Option<Seq<XmlNode>>;

/// Relies on `roxmltree::Document::parse`, then lists the root element's
/// descendants (the root element first) with `Node::id`, `parent`,
/// `is_element`, `tag_name().name()` and `text`, one `XmlNode` each.
#[verifier::external_body]
pub fn parse_xml(xml: &str) -> (r: Result<Vec<XmlNode>, String>)
    ensures
        match r {
            Ok(v) => xml_nodes_of(xml@) == Some(v@),
            Err(_) => xml_nodes_of(xml@) is None,
        },
{
    match roxmltree::Document::parse(xml) {
        Ok(doc) => Ok(doc.root_element().descendants().map(|n| XmlNode {
            id: n.id().get(),
            parent: n.parent().map(|p| p.id().get()),
            is_element: n.is_element(),
            name: n.tag_name().name().to_string(),
            text: n.text().map(|t| t.to_string()),
        }).collect()),
        Err(e) => Err(e.to_string()),
    }
}

/// A path of tag names as character sequences.
pub open spec fn path_view(path: Seq<&str>) -> Seq<Seq<char>> {
    path.map_values(|s: &str| s@)
}

/// Whether node `n` is an element child of the node `parent` named `name`.
pub open spec fn is_child_named(n: XmlNode, parent: u32, name: Seq<char>) -> bool {
    n.parent == Some(parent) && n.is_element && n.name@ == name
}

/// The position of the first element reached from the children of node
/// `parent`, scanning them from position `j` on, along `path`: a child
/// named `path[0]` whose subtree holds the rest of the path.
pub open spec fn find_from(nodes: Seq<XmlNode>, parent: u32, path: Seq<Seq<char>>, j: int) -> Option<int>
    decreases path.len(), nodes.len() - j,
{
    if path.len() == 0 || j < 0 || j >= nodes.len() {
        None
    } else if is_child_named(nodes[j], parent, path[0]) {
        if path.len() == 1 {
            Some(j)
        } else {
            match find_from(nodes, nodes[j].id, path.drop_first(), 0) {
                Some(k) => Some(k),
                None => find_from(nodes, parent, path, j + 1),
            }
        }
    } else {
        find_from(nodes, parent, path, j + 1)
    }
}

/// The position of the element that `path` leads to from the root element.
pub open spec fn find_path(nodes: Seq<XmlNode>, path: Seq<Seq<char>>) -> Option<int> {
    if nodes.len() == 0 {
        None
    } else if path.len() == 0 {
        Some(0)
    } else {
        find_from(nodes, nodes[0].id, path, 0)
    }
}

/// The trimmed, non-empty text of the element that `path` leads to.
pub open spec fn text_at(nodes: Seq<XmlNode>, path: Seq<Seq<char>>) -> Option<Seq<char>> {
    match find_path(nodes, path) {
        Some(k) => match nodes[k].text {
            Some(t) => if trimmed_of(t@).len() > 0 {
                Some(trimmed_of(t@))
            } else {
                None
            },
            None => None,
        },
        None => None,
    }
}

fn find_from_exec(nodes: &Vec<XmlNode>, parent: u32, path: &[&str], depth: usize) -> (r: Option<usize>)
    requires
        depth < path@.len(),
    ensures
        match r {
            Some(k) => k < nodes@.len() && find_from(nodes@, parent, path_view(path@).skip(depth as int), 0) == Some(k as int),
            None => find_from(nodes@, parent, path_view(path@).skip(depth as int), 0) is None,
        },
    decreases path@.len() - depth,
{
    let ghost p = path_view(path@).skip(depth as int);
    let mut j: usize = 0;
    while j < nodes.len()
        invariant
            depth < path@.len(),
            p == path_view(path@).skip(depth as int),
            0 <= j <= nodes.len(),
            find_from(nodes@, parent, p, j as int) == find_from(nodes@, parent, p, 0),
        decreases nodes.len() - j,
    {
        let n = &nodes[j];
        let same_parent = match n.parent {
            Some(q) => q == parent,
            None => false,
        };
        if same_parent && n.is_element && text_eq(n.name.as_str(), path[depth]) {
            if depth + 1 == path.len() {
                return Some(j);
            }
            proof {
                assert(path_view(path@).skip(depth as int + 1) =~= p.drop_first());
            }
            match find_from_exec(nodes, n.id, path, depth + 1) {
                Some(k) => {
                    return Some(k);
                },
                None => {},
            }
        }
        j = j + 1;
    }
    None
}

/// The position of the element that `path` leads to from the root element.
pub fn find_element(nodes: &Vec<XmlNode>, path: &[&str]) -> (r: Option<usize>)
    ensures
        match r {
            Some(k) => k < nodes@.len() && find_path(nodes@, path_view(path@)) == Some(k as int),
            None => find_path(nodes@, path_view(path@)) is None,
        },
{
    if nodes.len() == 0 {
        return None;
    }
    if path.len() == 0 {
        return Some(0);
    }
    proof {
        assert(path_view(path@).skip(0) =~= path_view(path@));
    }
    find_from_exec(nodes, nodes[0].id, path, 0)
}

/// The trimmed, non-empty text of the element that `path` leads to.
pub fn get_text_at_path(nodes: &Vec<XmlNode>, path: &[&str]) -> (r: Option<String>)
    ensures
        match r {
            Some(t) => text_at(nodes@, path_view(path@)) == Some(t@),
            None => text_at(nodes@, path_view(path@)) is None,
        },
{
    match find_element(nodes, path) {
        Some(k) => match &nodes[k].text {
            Some(t) => {
                let trimmed = trim(t.as_str());
                if trimmed.as_str().is_empty() {
                    None
                } else {
                    Some(trimmed)
                }
            },
            None => None,
        },
        None => None,
    }
}

/// The trimmed, non-empty text of the first element child of node
/// `parent` named `name`.
pub open spec fn child_text(nodes: Seq<XmlNode>, parent: u32, name: Seq<char>) -> Option<Seq<char>> {
    match find_from(nodes, parent, seq![name], 0) {
        Some(k) => match nodes[k].text {
            Some(t) => if trimmed_of(t@).len() > 0 {
                Some(trimmed_of(t@))
            } else {
                None
            },
            None => None,
        },
        None => None,
    }
}

/// The trimmed, non-empty text of the first element child of node
/// `parent` named `name`.
pub fn get_child_text(nodes: &Vec<XmlNode>, parent: u32, name: &str) -> (r: Option<String>)
    ensures
        match r {
            Some(t) => child_text(nodes@, parent, name@) == Some(t@),
            None => child_text(nodes@, parent, name@) is None,
        },
{
    let mut path: Vec<&str> = Vec::new();
    path.push(name);
    proof {
        assert(path_view(path@).skip(0) =~= seq![name@]);
    }
    match find_from_exec(nodes, parent, path.as_slice(), 0) {
        Some(k) => match &nodes[k].text {
            Some(t) => {
                let trimmed = trim(t.as_str());
                if trimmed.as_str().is_empty() {
                    None
                } else {
                    Some(trimmed)
                }
            },
            None => None,
        },
        None => None,
    }
}

} // verus!
