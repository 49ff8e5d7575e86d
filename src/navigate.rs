//! The structure of an HTML document as a table of nodes, built by the
//! `scraper` crate, and the navigation over it; pattern search by `regex`.
use std::collections::HashMap;
use crate::date::iso_shaped;
use vstd::prelude::*;
use vstd::utf8::is_ascii_chars;

verus! {

pub open spec fn opt_view(o: Option<String>) -> Option<Seq<char>> {
    match o {
        Some(s) => Some(s@),
        None => None,
    }
}

pub open spec fn opt_views(v: Seq<Option<String>>) -> Seq<Option<Seq<char>>> {
    v.map_values(|o: Option<String>| opt_view(o))
}

pub open spec fn views(v: Seq<String>) -> Seq<Seq<char>> {
    v.map_values(|s: String| s@)
}

/// One node of a parsed document. Neighbours are positions in the node table.
pub struct HtmlNode {
    /// The text, for a text node.
    pub text: Option<String>,
    /// The value of the requested attribute, for an element that has it.
    pub attr: Option<String>,
    pub parent: Option<usize>,
    pub first_child: Option<usize>,
    pub previous_sibling: Option<usize>,
    pub next_sibling: Option<usize>,
}

/// The positions of a node's neighbours in the node table.
#[derive(Clone, Copy)]
pub struct NodeLinks {
    pub parent: Option<usize>,
    pub first_child: Option<usize>,
    pub previous_sibling: Option<usize>,
    pub next_sibling: Option<usize>,
}

/// A node as plain values.
pub struct NodeData {
    pub text: Option<Seq<char>>,
    pub attr: Option<Seq<char>>,
    pub parent: Option<usize>,
    pub first_child: Option<usize>,
    pub previous_sibling: Option<usize>,
    pub next_sibling: Option<usize>,
}

impl HtmlNode {
    pub open spec fn data(&self) -> NodeData {
        NodeData {
            text: opt_view(self.text),
            attr: opt_view(self.attr),
            parent: self.parent,
            first_child: self.first_child,
            previous_sibling: self.previous_sibling,
            next_sibling: self.next_sibling,
        }
    }
}

pub open spec fn nodes_data(v: Seq<HtmlNode>) -> Seq<NodeData> {
    v.map_values(|n: HtmlNode| n.data())
}

/// The node at a position, if the position is one of the table.
pub open spec fn node_at(nodes: Seq<NodeData>, i: Option<usize>) -> Option<NodeData> {
    match i {
        Some(k) => if k < nodes.len() {
            Some(nodes[k as int])
        } else {
            None
        },
        None => None,
    }
}

pub open spec fn parent_of(nodes: Seq<NodeData>, i: Option<usize>) -> Option<usize> {
    match node_at(nodes, i) {
        Some(n) => n.parent,
        None => None,
    }
}

pub open spec fn first_child_of(nodes: Seq<NodeData>, i: Option<usize>) -> Option<usize> {
    match node_at(nodes, i) {
        Some(n) => n.first_child,
        None => None,
    }
}

pub open spec fn previous_sibling_of(nodes: Seq<NodeData>, i: Option<usize>) -> Option<usize> {
    match node_at(nodes, i) {
        Some(n) => n.previous_sibling,
        None => None,
    }
}

pub open spec fn next_sibling_of(nodes: Seq<NodeData>, i: Option<usize>) -> Option<usize> {
    match node_at(nodes, i) {
        Some(n) => n.next_sibling,
        None => None,
    }
}

pub open spec fn text_of(nodes: Seq<NodeData>, i: Option<usize>) -> Option<Seq<char>> {
    match node_at(nodes, i) {
        Some(n) => n.text,
        None => None,
    }
}

pub open spec fn attr_of(nodes: Seq<NodeData>, i: Option<usize>) -> Option<Seq<char>> {
    match node_at(nodes, i) {
        Some(n) => n.attr,
        None => None,
    }
}

/// Whether `b` is reached from `i` by following parents at most `fuel` times.
pub open spec fn has_ancestor(nodes: Seq<NodeData>, i: Option<usize>, b: usize, fuel: nat) -> bool
    decreases fuel,
{
    if fuel == 0 {
        false
    } else {
        match parent_of(nodes, i) {
            Some(p) => p == b || has_ancestor(nodes, Some(p), b, (fuel - 1) as nat),
            None => false,
        }
    }
}

/// Whether node `i` lies inside node `b`. A chain of parents in a table of n
/// nodes that has not reached `b` in n steps never does.
pub open spec fn is_inside(nodes: Seq<NodeData>, i: usize, b: usize) -> bool {
    has_ancestor(nodes, Some(i), b, nodes.len())
}

/// The text reached from `block` by its first child, that child's next sibling,
/// and its first child: where a month block holds its label.
pub open spec fn header_text_of(nodes: Seq<NodeData>, block: usize) -> Option<Seq<char>> {
    text_of(nodes, first_child_of(nodes, next_sibling_of(nodes, first_child_of(nodes, Some(block)))))
}

/// The attribute of the node just before `cell`.
pub open spec fn link_before(nodes: Seq<NodeData>, cell: usize) -> Option<Seq<char>> {
    attr_of(nodes, previous_sibling_of(nodes, Some(cell)))
}

/// The text of the first child of the node just after `cell`.
pub open spec fn text_after(nodes: Seq<NodeData>, cell: usize) -> Option<Seq<char>> {
    text_of(nodes, first_child_of(nodes, next_sibling_of(nodes, Some(cell))))
}

/// The node at position `i`, if any.
fn node<'a>(nodes: &'a Vec<HtmlNode>, i: Option<usize>) -> (r: Option<&'a HtmlNode>)
    ensures
        match r {
            Some(n) => node_at(nodes_data(nodes@), i) == Some(n.data()),
            None => node_at(nodes_data(nodes@), i) is None,
        },
{
    match i {
        Some(k) => if k < nodes.len() {
            Some(&nodes[k])
        } else {
            None
        },
        None => None,
    }
}

pub fn parent(nodes: &Vec<HtmlNode>, i: Option<usize>) -> (r: Option<usize>)
    ensures
        r == parent_of(nodes_data(nodes@), i),
{
    match node(nodes, i) {
        Some(n) => n.parent,
        None => None,
    }
}

pub fn first_child(nodes: &Vec<HtmlNode>, i: Option<usize>) -> (r: Option<usize>)
    ensures
        r == first_child_of(nodes_data(nodes@), i),
{
    match node(nodes, i) {
        Some(n) => n.first_child,
        None => None,
    }
}

pub fn previous_sibling(nodes: &Vec<HtmlNode>, i: Option<usize>) -> (r: Option<usize>)
    ensures
        r == previous_sibling_of(nodes_data(nodes@), i),
{
    match node(nodes, i) {
        Some(n) => n.previous_sibling,
        None => None,
    }
}

pub fn next_sibling(nodes: &Vec<HtmlNode>, i: Option<usize>) -> (r: Option<usize>)
    ensures
        r == next_sibling_of(nodes_data(nodes@), i),
{
    match node(nodes, i) {
        Some(n) => n.next_sibling,
        None => None,
    }
}

fn copy_text(s: &Option<String>) -> (r: Option<String>)
    ensures
        opt_view(r) == opt_view(*s),
{
    match s {
        Some(t) => Some(t.clone()),
        None => None,
    }
}

pub fn text(nodes: &Vec<HtmlNode>, i: Option<usize>) -> (r: Option<String>)
    ensures
        opt_view(r) == text_of(nodes_data(nodes@), i),
{
    match node(nodes, i) {
        Some(n) => copy_text(&n.text),
        None => None,
    }
}

pub fn attribute(nodes: &Vec<HtmlNode>, i: Option<usize>) -> (r: Option<String>)
    ensures
        opt_view(r) == attr_of(nodes_data(nodes@), i),
{
    match node(nodes, i) {
        Some(n) => copy_text(&n.attr),
        None => None,
    }
}

/// Whether node `i` lies inside node `b`.
pub fn inside(nodes: &Vec<HtmlNode>, i: usize, b: usize) -> (r: bool)
    ensures
        r == is_inside(nodes_data(nodes@), i, b),
{
    let ghost data = nodes_data(nodes@);
    let mut cur: Option<usize> = Some(i);
    let mut fuel: usize = nodes.len();
    while fuel > 0
        invariant
            data == nodes_data(nodes@),
            fuel <= nodes.len(),
            is_inside(data, i, b) == has_ancestor(data, cur, b, fuel as nat),
        decreases fuel,
    {
        match parent(nodes, cur) {
            Some(p) => {
                if p == b {
                    return true;
                }
                cur = Some(p);
                fuel = fuel - 1;
            },
            None => {
                return false;
            },
        }
    }
    false
}

/// The label text of a month block.
pub fn header_text(nodes: &Vec<HtmlNode>, block: usize) -> (r: Option<String>)
    ensures
        opt_view(r) == header_text_of(nodes_data(nodes@), block),
{
    text(nodes, first_child(nodes, next_sibling(nodes, first_child(nodes, Some(block)))))
}

/// The link of the node just before a check-out cell.
pub fn sibling_link(nodes: &Vec<HtmlNode>, cell: usize) -> (r: Option<String>)
    ensures
        opt_view(r) == link_before(nodes_data(nodes@), cell),
{
    attribute(nodes, previous_sibling(nodes, Some(cell)))
}

/// The day shown just after a check-in cell.
pub fn sibling_text(nodes: &Vec<HtmlNode>, cell: usize) -> (r: Option<String>)
    ensures
        opt_view(r) == text_after(nodes_data(nodes@), cell),
{
    text(nodes, first_child(nodes, next_sibling(nodes, Some(cell))))
}

/// For each element of the document that the selector matches, its attribute.
pub uninterp spec fn selected_attributes(html: Seq<char>, selector: Seq<char>, attr: Seq<char>) -> Seq<Option<Seq<char>>>;

/// The nodes of the parsed document in the parser's order, each with its text,
/// the attribute `attr` where it is an element, and the positions of its
/// neighbours in that order.
pub open spec fn parsed_nodes(html: Seq<char>, attr: Seq<char>) -> Seq<NodeData> {
    let links = parsed_node_links(html);
    let values = parsed_node_values(html, attr);
    let n = if links.len() < values.len() {
        links.len()
    } else {
        values.len()
    };
    Seq::new(
        n,
        |i: int|
            NodeData {
                text: values[i].0,
                attr: values[i].1,
                parent: links[i].parent,
                first_child: links[i].first_child,
                previous_sibling: links[i].previous_sibling,
                next_sibling: links[i].next_sibling,
            },
    )
}

/// The neighbours of each node of the parsed document, as positions in the
/// parser's order.
pub uninterp spec fn parsed_node_links(html: Seq<char>) -> Seq<NodeLinks>;

/// The text and the attribute `attr` of each node of the parsed document, in
/// the parser's order.
pub uninterp spec fn parsed_node_values(html: Seq<char>, attr: Seq<char>) -> Seq<(Option<Seq<char>>, Option<Seq<char>>)>;

/// The positions, in the order of `parsed_nodes`, of the elements that the
/// selector matches, in document order.
pub uninterp spec fn selected_nodes(html: Seq<char>, selector: Seq<char>) -> Seq<usize>;

/// The leftmost match of the regular expression in the text.
pub uninterp spec fn leftmost_match(pattern: Seq<char>, text: Seq<char>) -> Option<Seq<char>>;

/// Relies on scraper's `Html::parse_document`, `Html::select` and `Element::attr`.
#[verifier::external_body]
pub(crate) fn select_attributes(html: &str, selector: &str, attr: &str) -> (r: Vec<Option<String>>)
    ensures
        opt_views(r@) == selected_attributes(html@, selector@, attr@),
{
    match scraper::Selector::parse(selector) {
        Ok(sel) => scraper::Html::parse_document(html).select(&sel).map(
            |e| e.value().attr(attr).map(|a| a.to_string()),
        ).collect(),
        Err(_) => Vec::new(),
    }
}

/// Relies on scraper's `Html::parse_document`, and on ego-tree's `Tree::nodes`
/// with `NodeRef::parent`, `first_child`, `prev_sibling` and `next_sibling`.
#[verifier::external_body]
pub(crate) fn parse_node_links(html: &str) -> (r: Vec<NodeLinks>)
    ensures
        r@ == parsed_node_links(html@),
{
    let doc = scraper::Html::parse_document(html);
    let at: HashMap<_, usize> = doc.tree.nodes().enumerate().map(|(i, n)| (n.id(), i)).collect();
    doc.tree.nodes().map(|n| NodeLinks {
        parent: n.parent().map(|m| at[&m.id()]),
        first_child: n.first_child().map(|m| at[&m.id()]),
        previous_sibling: n.prev_sibling().map(|m| at[&m.id()]),
        next_sibling: n.next_sibling().map(|m| at[&m.id()]),
    }).collect()
}

/// Relies on scraper's `Html::parse_document`, ego-tree's `Tree::nodes`, and
/// scraper's `Node::as_text`, `Node::as_element` and `Element::attr`.
#[verifier::external_body]
pub(crate) fn parse_node_values(html: &str, attr: &str) -> (r: Vec<(Option<String>, Option<String>)>)
    ensures
        r@.map_values(|v: (Option<String>, Option<String>)| (opt_view(v.0), opt_view(v.1)))
            == parsed_node_values(html@, attr@),
{
    let doc = scraper::Html::parse_document(html);
    doc.tree.nodes().map(|n| (
        n.value().as_text().map(|t| t.text.to_string()),
        n.value().as_element().and_then(|e| e.attr(attr)).map(|a| a.to_string()),
    )).collect()
}

/// The node table of a document, with the attribute `attr` of each element.
pub fn parse_nodes(html: &str, attr: &str) -> (r: Vec<HtmlNode>)
    ensures
        nodes_data(r@) == parsed_nodes(html@, attr@),
{
    let links = parse_node_links(html);
    let values = parse_node_values(html, attr);
    let ghost vs = values@.map_values(
        |v: (Option<String>, Option<String>)| (opt_view(v.0), opt_view(v.1)),
    );
    let mut out: Vec<HtmlNode> = Vec::new();
    let mut i: usize = 0;
    while i < links.len() && i < values.len()
        invariant
            i <= links.len(),
            i <= values.len(),
            out@.len() == i,
            links@ == parsed_node_links(html@),
            vs == parsed_node_values(html@, attr@),
            vs == values@.map_values(
                |v: (Option<String>, Option<String>)| (opt_view(v.0), opt_view(v.1)),
            ),
            forall|k: int| 0 <= k < i ==> #[trigger] nodes_data(out@)[k] == parsed_nodes(html@, attr@)[k],
        decreases values.len() - i,
    {
        let l = links[i];
        let node = HtmlNode {
            text: copy_text(&values[i].0),
            attr: copy_text(&values[i].1),
            parent: l.parent,
            first_child: l.first_child,
            previous_sibling: l.previous_sibling,
            next_sibling: l.next_sibling,
        };
        let ghost nd = node.data();
        let ghost before = out@;
        proof {
            assert(vs[i as int] == (opt_view(values@[i as int].0), opt_view(values@[i as int].1)));
            assert(parsed_nodes(html@, attr@)[i as int] == nd);
        }
        out.push(node);
        proof {
            assert forall|k: int| 0 <= k <= i implies #[trigger] nodes_data(out@)[k] == parsed_nodes(
                html@,
                attr@,
            )[k] by {
                if k < i {
                    assert(out@[k] == before[k]);
                    assert(nodes_data(before)[k] == nodes_data(out@)[k]);
                }
            }
        }
        i = i + 1;
    }
    proof {
        assert(nodes_data(out@) =~= parsed_nodes(html@, attr@));
    }
    out
}

/// Relies on scraper's `Html::parse_document` and `Html::select`, and on
/// ego-tree's `Tree::nodes` for the positions.
#[verifier::external_body]
pub(crate) fn select_nodes(html: &str, selector: &str) -> (r: Vec<usize>)
    ensures
        r@ == selected_nodes(html@, selector@),
{
    let Ok(sel) = scraper::Selector::parse(selector) else { return Vec::new() };
    let doc = scraper::Html::parse_document(html);
    let at: std::collections::HashMap<_, usize> = doc.tree.nodes().enumerate().map(|(i, n)| (n.id(), i)).collect();
    doc.select(&sel).map(|e| at[&e.id()]).collect()
}

/// An ISO date token `YYYY-MM-DD`.
pub const ISO_DATE_PATTERN: &'static str = r"\d{4}-\d{2}-\d{2}";

/// An ISO-shaped window of ten characters starts at `i`, and none starts before.
pub open spec fn first_iso_at(t: Seq<char>, i: int) -> bool {
    &&& 0 <= i
    &&& i + 10 <= t.len()
    &&& iso_shaped(t.subrange(i, i + 10))
    &&& forall|j: int| 0 <= j < i ==> !iso_shaped(#[trigger] t.subrange(j, j + 10))
}

/// Relies on regex's `Regex::new` and `Regex::find`: the leftmost match, none
/// when there is no match or the pattern does not compile. On ASCII text `\d`
/// is an ASCII digit, so the ISO pattern matches exactly the ISO-shaped windows.
#[verifier::external_body]
pub(crate) fn find_first_match(pattern: &str, text: &str) -> (r: Option<String>)
    ensures
        opt_view(r) == leftmost_match(pattern@, text@),
        forall|i: int|
            pattern@ == ISO_DATE_PATTERN@ && is_ascii_chars(text@) && #[trigger] first_iso_at(
                text@,
                i,
            ) ==> opt_view(r) == Some(text@.subrange(i, i + 10)),
        pattern@ == ISO_DATE_PATTERN@ && is_ascii_chars(text@) && (forall|i: int|
            0 <= i && i + 10 <= text@.len() ==> !iso_shaped(#[trigger] text@.subrange(i, i + 10)))
            ==> r is None,
{
    match regex::Regex::new(pattern) {
        Ok(re) => re.find(text).map(|m| m.as_str().to_string()),
        Err(_) => None,
    }
}

} // verus!
