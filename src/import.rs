use vstd::prelude::*;
use crate::graph::{
    dense, edge_slots, EdgeEntry, NodeEntry, edges_attached, insert_edge, new_force_graph, is_node, node_slots, ForceGraph,
    ForceGraphHelper,
};
use crate::json::{
    find_member, key_position, lemma_key_position_bounds, member, parse_json, parsed, position_of, unquoted_chars, unquoted,
    Json, JsonShape,
};

verus! {

/// The members under `"nodes"` of a graph object: none where the key is
/// absent, nothing at all where its value is no object.
pub open spec fn node_members(graph: Json) -> Option<Seq<(String, Json)>> {
    match member(graph, "nodes"@) {
        None => Some(Seq::empty()),
        Some(n) => match n.shape {
            JsonShape::Object(members) => Some(members@),
            _ => None,
        },
    }
}

/// The items under `"edges"` of a graph object: none where the key is
/// absent, nothing at all where its value is no array.
pub open spec fn edge_items(graph: Json) -> Option<Seq<Json>> {
    match member(graph, "edges"@) {
        None => Some(Seq::empty()),
        Some(e) => match e.shape {
            JsonShape::Array(items) => Some(items@),
            _ => None,
        },
    }
}

/// The node that end `end` (`"source"` or `"target"`) of an edge item names:
/// the position of the node whose id is the end's JSON text without quotes.
pub open spec fn endpoint(item: Json, end: Seq<char>, nodes: Seq<(String, Json)>) -> Option<int> {
    match member(item, end) {
        Some(v) => key_position(nodes, unquoted(v.text@)),
        None => None,
    }
}

/// Whether both ends of an edge item name a declared node.
pub open spec fn edge_resolves(item: Json, nodes: Seq<(String, Json)>) -> bool {
    endpoint(item, "source"@, nodes) is Some && endpoint(item, "target"@, nodes) is Some
}

/// The graph object of a document, with its node members and edge items.
pub open spec fn document_parts(doc: Json) -> Option<(Seq<(String, Json)>, Seq<Json>)> {
    match member(doc, "graph"@) {
        None => None,
        Some(g) => match (node_members(g), edge_items(g)) {
            (Some(nodes), Some(edges)) => Some((nodes, edges)),
            _ => None,
        },
    }
}

/// Whether a document describes a graph: it has a graph object whose nodes
/// form an object and whose edges form an array, every edge names two
/// declared nodes, and the nodes and edges fit the graph's index type.
pub open spec fn importable(doc: Json) -> bool {
    match document_parts(doc) {
        None => false,
        Some((nodes, edges)) => nodes.len() < u32::MAX && edges.len() < u32::MAX && forall|k: int|
            0 <= k < edges.len() ==> #[trigger] edge_resolves(edges[k], nodes),
    }
}

/// The node slot that a node member becomes: labelled by its key, holding its
/// JSON text, of mass 1 and not pinned.
pub open spec fn node_entry(m: (String, Json)) -> Option<NodeEntry> {
    Some((m.0@, m.1.text@, 1u32, false))
}

/// The edge slot that an edge item becomes: between the nodes its ends name,
/// holding its JSON text.
pub open spec fn edge_entry(item: Json, nodes: Seq<(String, Json)>) -> Option<EdgeEntry> {
    Some(
        (
            endpoint(item, "source"@, nodes)->0 as nat,
            endpoint(item, "target"@, nodes)->0 as nat,
            item.text@,
        ),
    )
}

/// Whether `g` is the graph that document `doc` describes: one node per
/// member of `"nodes"`, in order, then one edge per item of `"edges"`, in order.
pub open spec fn describes(doc: Json, g: ForceGraph<String, String>) -> bool {
    match document_parts(doc) {
        None => false,
        Some((nodes, edges)) => {
            &&& node_slots(g) == nodes.map_values(|m: (String, Json)| node_entry(m))
            &&& edge_slots(g) == edges.map_values(|item: Json| edge_entry(item, nodes))
        },
    }
}

/// A document describes one graph only: two graphs that it describes have
/// the same node slots (label, payload, mass, pin flag) and the same edge
/// slots, index by index.
pub proof fn lemma_import_deterministic(doc: Json, g1: ForceGraph<String, String>, g2: ForceGraph<String, String>)
    requires
        describes(doc, g1),
        describes(doc, g2),
    ensures
        node_slots(g1) == node_slots(g2),
        edge_slots(g1) == edge_slots(g2),
{
}

/// Every node that an import makes has mass 1 and is not pinned.
pub proof fn lemma_imported_nodes_at_rest(doc: Json, g: ForceGraph<String, String>, i: int)
    requires
        describes(doc, g),
        0 <= i < node_slots(g).len(),
    ensures
        node_slots(g)[i] matches Some((_, _, mass, pinned)) && mass == 1 && !pinned,
{
}

/// Builds the graph that a parsed JSON graph document describes, or nothing
/// where the document does not describe one.
pub fn graph_from_document(doc: &Json) -> (r: Option<ForceGraph<String, String>>)
    ensures
        r is Some <==> importable(*doc),
        r matches Some(g) ==> describes(*doc, g),
        r matches Some(g) ==> edges_attached(g),
{
    let graph = match find_member(doc, "graph") {
        Some(g) => g,
        None => return None,
    };
    let empty_members: Vec<(String, Json)> = Vec::new();
    let nodes: &Vec<(String, Json)> = match find_member(graph, "nodes") {
        None => &empty_members,
        Some(n) => match &n.shape {
            JsonShape::Object(members) => members,
            _ => return None,
        },
    };
    let empty_items: Vec<Json> = Vec::new();
    let edges: &Vec<Json> = match find_member(graph, "edges") {
        None => &empty_items,
        Some(e) => match &e.shape {
            JsonShape::Array(items) => items,
            _ => return None,
        },
    };
    assert(document_parts(*doc) == Some((nodes@, edges@)));
    if nodes.len() >= 0xffff_ffff || edges.len() >= 0xffff_ffff {
        return None;
    }
    let mut g = new_force_graph();
    let mut i: usize = 0;
    while i < nodes.len()
        invariant
            i <= nodes.len() < u32::MAX,
            node_slots(g) == nodes@.take(i as int).map_values(|m: (String, Json)| node_entry(m)),
            edge_slots(g) == Seq::<Option<EdgeEntry>>::empty(),
        decreases nodes.len() - i,
    {
        assert(dense(node_slots(g)));
        let index = g.add_force_node(nodes[i].0.as_str(), nodes[i].1.text.clone());
        assert(nodes@.take(i + 1) =~= nodes@.take(i as int).push(nodes@[i as int]));
        assert(node_slots(g) =~= nodes@.take(i + 1).map_values(|m: (String, Json)| node_entry(m)));
        i += 1;
    }
    assert(nodes@.take(i as int) =~= nodes@);
    let mut k: usize = 0;
    while k < edges.len()
        invariant
            document_parts(*doc) == Some((nodes@, edges@)),
            k <= edges.len() < u32::MAX,
            nodes.len() < u32::MAX,
            node_slots(g) == nodes@.map_values(|m: (String, Json)| node_entry(m)),
            edge_slots(g) == edges@.take(k as int).map_values(|item: Json| edge_entry(item, nodes@)),
            forall|j: int| 0 <= j < k ==> #[trigger] edge_resolves(edges@[j], nodes@),
        decreases edges.len() - k,
    {
        let item = &edges[k];
        let source = match find_member(item, "source") {
            Some(v) => position_of(nodes, &unquoted_chars(v.text.as_str())),
            None => None,
        };
        let target = match find_member(item, "target") {
            Some(v) => position_of(nodes, &unquoted_chars(v.text.as_str())),
            None => None,
        };
        let (a, b) = match (source, target) {
            (Some(a), Some(b)) => (a, b),
            _ => {
                assert(!edge_resolves(edges@[k as int], nodes@));
                return None;
            },
        };
        assert(edge_resolves(edges@[k as int], nodes@));
        assert(dense(edge_slots(g)));
        insert_edge(&mut g, a, b, item.text.clone());
        assert(edges@.take(k + 1) =~= edges@.take(k as int).push(edges@[k as int]));
        assert(edge_slots(g) =~= edges@.take(k + 1).map_values(|item: Json| edge_entry(item, nodes@)));
        k += 1;
    }
    assert(edges@.take(k as int) =~= edges@);
    assert forall|j: int| 0 <= j < edge_slots(g).len() implies match #[trigger] edge_slots(g)[j] {
        Some((x, y, _)) => is_node(g, x as int) && is_node(g, y as int),
        None => true,
    } by {
        let item = edges@[j];
        assert(edge_resolves(item, nodes@));
        lemma_key_position_bounds(nodes@, unquoted(member(item, "source"@)->0.text@));
        lemma_key_position_bounds(nodes@, unquoted(member(item, "target"@)->0.text@));
    }
    Some(g)
}

/// Builds a graph from a JSON graph document: one node per member of
/// `"graph"."nodes"`, labelled by its key and holding its JSON text, and one
/// edge per item of `"graph"."edges"`, between the nodes whose ids its
/// `"source"` and `"target"` give, holding its JSON text. Nothing where the
/// text is not JSON or does not describe such a graph.
pub fn graph_from_json(json: &str) -> (r: Option<ForceGraph<String, String>>)
    ensures
        match parsed(json@) {
            None => r is None,
            Some(doc) => (r is Some <==> importable(doc)) && (r matches Some(g) ==> describes(doc, g)),
        },
        r matches Some(g) ==> edges_attached(g),
{
    match parse_json(json) {
        Some(doc) => graph_from_document(&doc),
        None => None,
    }
}

} // verus!
