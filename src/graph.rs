use vstd::prelude::*;
use crate::node::Node;

verus! {

/// petgraph's stable-indexed graph: removing an item never renumbers another.
#[verifier::external_type_specification]
#[verifier::external_body]
#[verifier::reject_recursive_types(N)]
#[verifier::reject_recursive_types(E)]
#[verifier::reject_recursive_types(Ty)]
#[verifier::reject_recursive_types(Ix)]
pub struct ExStableGraph<N, E, Ty, Ix>(petgraph::stable_graph::StableGraph<N, E, Ty, Ix>);

/// petgraph's marker for graphs whose edges have no direction.
#[verifier::external_type_specification]
#[verifier::external_body]
pub struct ExUndirected(petgraph::Undirected);

/// An undirected graph of [`Node`]s whose edges carry a payload of type `E`.
pub type ForceGraph<N, E> = petgraph::stable_graph::StableGraph<Node<N>, E, petgraph::Undirected>;

/// What a node slot records of its node: label, payload, mass and pin flag.
pub type NodeEntry = (Seq<char>, Seq<char>, u32, bool);

/// What an edge slot records of its edge: both end points and the payload.
pub type EdgeEntry = (nat, nat, Seq<char>);

/// The record of a node in a slot.
pub open spec fn entry_of(n: Node<String>) -> NodeEntry {
    (n.name@, n.data@, n.mass, n.pinned)
}

/// The node slots of a graph with text payloads, by index: the record of the
/// node there, or nothing where a node was removed.
pub uninterp spec fn node_slots(g: ForceGraph<String, String>) -> Seq<Option<NodeEntry>>;

/// The edge slots of a graph with text payloads, by index: the record of the
/// edge there, or nothing where an edge was removed.
pub uninterp spec fn edge_slots(g: ForceGraph<String, String>) -> Seq<Option<EdgeEntry>>;

/// The vacant node slot that petgraph fills next: the head of its list of
/// free node slots, which holds every vacant one.
pub uninterp spec fn node_vacancy(g: ForceGraph<String, String>) -> int;

/// The vacant edge slot that petgraph fills next: the head of its list of
/// free edge slots, which holds every vacant one.
pub uninterp spec fn edge_vacancy(g: ForceGraph<String, String>) -> int;

/// Whether index `i` holds a node. A node index fits in 32 bits.
pub open spec fn is_node(g: ForceGraph<String, String>, i: int) -> bool {
    0 <= i <= u32::MAX && i < node_slots(g).len() && node_slots(g)[i] is Some
}

/// Whether every edge of `g` has both ends at nodes of `g`: no edge refers to
/// a node that is missing.
pub open spec fn edges_attached(g: ForceGraph<String, String>) -> bool {
    forall|k: int|
        0 <= k < edge_slots(g).len() ==> match #[trigger] edge_slots(g)[k] {
            Some((a, b, _)) => is_node(g, a as int) && is_node(g, b as int),
            None => true,
        }
}

/// Whether a sequence of slots has no vacant one.
pub open spec fn dense<T>(s: Seq<Option<T>>) -> bool {
    forall|i: int| 0 <= i < s.len() ==> #[trigger] s[i] is Some
}

/// Why a change to the graph was refused.
#[derive(Debug, Clone, Copy, PartialEq, Eq, Structural)]
pub enum GraphError {
    /// An index names no node of the graph.
    InvalidReference,
}

/// Relies on petgraph's `StableGraph::with_capacity`: a graph with no nodes
/// and no edges.
#[verifier::external_body]
fn empty_graph() -> (r: ForceGraph<String, String>)
    ensures
        node_slots(r) == Seq::<Option<NodeEntry>>::empty(),
        edge_slots(r) == Seq::<Option<EdgeEntry>>::empty(),
{
    petgraph::stable_graph::StableGraph::with_capacity(0, 0)
}

/// Relies on petgraph's `StableGraph::add_node`: the node fills a vacant slot
/// if there is one, else a new slot at the end; the edges stay.
#[verifier::external_body]
fn insert_node(g: &mut ForceGraph<String, String>, node: Node<String>) -> (r: usize)
    requires
        node_slots(*old(g)).len() < u32::MAX,
    ensures
        node_added(node_slots(*old(g)), node_slots(*final(g)), r as int, entry_of(node), node_vacancy(*old(g))),
        edge_slots(*final(g)) == edge_slots(*old(g)),
{
    g.add_node(node).index()
}

/// Relies on petgraph's `StableGraph::add_edge`: the edge fills a vacant slot
/// if there is one, else a new slot at the end; the nodes stay. It panics
/// where an end point is no node, which `requires` leaves out.
#[verifier::external_body]
pub(crate) fn insert_edge(g: &mut ForceGraph<String, String>, a: usize, b: usize, data: String) -> (r: usize)
    requires
        is_node(*old(g), a as int),
        is_node(*old(g), b as int),
        edge_slots(*old(g)).len() < u32::MAX,
    ensures
        edge_added(
            edge_slots(*old(g)),
            edge_slots(*final(g)),
            r as int,
            (a as nat, b as nat, data@),
            edge_vacancy(*old(g)),
        ),
        node_slots(*final(g)) == node_slots(*old(g)),
{
    let index = g.add_edge(
        petgraph::graph::NodeIndex::new(a),
        petgraph::graph::NodeIndex::new(b),
        data,
    );
    index.index()
}

/// Relies on petgraph's `StableGraph::contains_node`: whether the index
/// holds a node. petgraph keeps the low 32 bits of an index, so `requires`
/// bounds it.
#[verifier::external_body]
fn holds_node(g: &ForceGraph<String, String>, i: usize) -> (r: bool)
    requires
        i <= u32::MAX,
    ensures
        r == is_node(*g, i as int),
{
    g.contains_node(petgraph::graph::NodeIndex::new(i))
}

/// Whether edge slot `e` holds an edge with an end at node `i`.
pub open spec fn touches(e: Option<EdgeEntry>, i: int) -> bool {
    match e {
        Some((a, b, _)) => a == i || b == i,
        None => false,
    }
}

/// Whether `after` is `before` with node `i` removed: its slot is vacant,
/// every edge with an end there is gone, and every other slot is as it was.
pub open spec fn node_removed(before: ForceGraph<String, String>, after: ForceGraph<String, String>, i: int) -> bool {
    &&& node_slots(after) == node_slots(before).update(i, None)
    &&& edge_slots(after).len() == edge_slots(before).len()
    &&& forall|k: int|
        0 <= k < edge_slots(before).len() ==> #[trigger] edge_slots(after)[k] == if touches(
            edge_slots(before)[k],
            i,
        ) {
            None
        } else {
            edge_slots(before)[k]
        }
}

/// Relies on petgraph's `StableGraph::remove_node`: the node's slot becomes
/// vacant, every edge with an end there is removed, no other index changes,
/// and the node comes back; an index that holds no node changes nothing.
/// petgraph keeps the low 32 bits of an index, so `requires` bounds it.
#[verifier::external_body]
fn take_node(g: &mut ForceGraph<String, String>, i: usize) -> (r: Option<Node<String>>)
    requires
        i <= u32::MAX,
    ensures
        is_node(*old(g), i as int) ==> (r matches Some(n) && node_slots(*old(g))[i as int] == Some(
            entry_of(n),
        )),
        is_node(*old(g), i as int) ==> node_removed(*old(g), *final(g), i as int),
        !is_node(*old(g), i as int) ==> r is None && node_slots(*final(g)) == node_slots(*old(g))
            && edge_slots(*final(g)) == edge_slots(*old(g)),
{
    g.remove_node(petgraph::graph::NodeIndex::new(i))
}

/// What [`StableGraph::add_edge`](petgraph::stable_graph::StableGraph::add_edge)
/// does to the edge slots of a graph with text payloads: the edge fills a
/// vacant slot if there is one, the one at `vacancy`, else a new slot at the
/// end.
pub open spec fn edge_added(
    before: Seq<Option<EdgeEntry>>,
    after: Seq<Option<EdgeEntry>>,
    index: int,
    entry: EdgeEntry,
    vacancy: int,
) -> bool {
    &&& dense(before) ==> index == before.len() && after == before.push(Some(entry))
    &&& !dense(before) ==> index == vacancy && 0 <= index < before.len() && before[index] is None && after
        == before.update(index, Some(entry))
}

/// A graph with no nodes and no edges.
pub fn new_force_graph() -> (r: ForceGraph<String, String>)
    ensures
        node_slots(r) == Seq::<Option<NodeEntry>>::empty(),
        edge_slots(r) == Seq::<Option<EdgeEntry>>::empty(),
{
    empty_graph()
}

/// Adds an edge between nodes `a` and `b` carrying `data`, and returns its
/// index; an end that names no node is refused and changes nothing. Edges
/// between the same two nodes may repeat, and `a` may equal `b`.
pub fn add_force_edge(g: &mut ForceGraph<String, String>, a: usize, b: usize, data: String) -> (r: Result<usize, GraphError>)
    requires
        edge_slots(*old(g)).len() < u32::MAX,
    ensures
        !(is_node(*old(g), a as int) && is_node(*old(g), b as int)) ==> r == Err::<usize, GraphError>(
            GraphError::InvalidReference,
        ) && node_slots(*final(g)) == node_slots(*old(g)) && edge_slots(*final(g)) == edge_slots(*old(g)),
        is_node(*old(g), a as int) && is_node(*old(g), b as int) ==> (r matches Ok(e) && edge_added(
            edge_slots(*old(g)),
            edge_slots(*final(g)),
            e as int,
            (a as nat, b as nat, data@),
            edge_vacancy(*old(g)),
        )),
        is_node(*old(g), a as int) && is_node(*old(g), b as int) ==> node_slots(*final(g))
            == node_slots(*old(g)),
        edges_attached(*old(g)) ==> edges_attached(*final(g)),
{
    if a > 0xffff_ffff || b > 0xffff_ffff || !holds_node(g, a) || !holds_node(g, b) {
        return Err(GraphError::InvalidReference);
    }
    let e = insert_edge(g, a, b, data);
    assert(edges_attached(*old(g)) ==> edges_attached(*g)) by {
        if edges_attached(*old(g)) {
            assert forall|k: int| 0 <= k < edge_slots(*g).len() implies match #[trigger] edge_slots(
                *g,
            )[k] {
                Some((x, y, _)) => is_node(*g, x as int) && is_node(*g, y as int),
                None => true,
            } by {
                if k != e {
                    assert(edge_slots(*g)[k] == edge_slots(*old(g))[k]);
                }
            }
        }
    }
    Ok(e)
}

/// Removes node `i` and every edge with an end there, and returns the node;
/// no other index changes. An index that holds no node changes nothing and
/// gives nothing back.
pub fn remove_force_node(g: &mut ForceGraph<String, String>, i: usize) -> (r: Option<Node<String>>)
    ensures
        is_node(*old(g), i as int) ==> (r matches Some(n) && node_slots(*old(g))[i as int] == Some(
            entry_of(n),
        )),
        is_node(*old(g), i as int) ==> node_removed(*old(g), *final(g), i as int),
        !is_node(*old(g), i as int) ==> r is None && node_slots(*final(g)) == node_slots(*old(g))
            && edge_slots(*final(g)) == edge_slots(*old(g)),
        edges_attached(*old(g)) ==> edges_attached(*final(g)),
{
    if i > 0xffff_ffff {
        return None;
    }
    let r = take_node(g, i);
    assert(edges_attached(*old(g)) ==> edges_attached(*g)) by {
        if edges_attached(*old(g)) && is_node(*old(g), i as int) {
            assert forall|k: int| 0 <= k < edge_slots(*g).len() implies match #[trigger] edge_slots(
                *g,
            )[k] {
                Some((x, y, _)) => is_node(*g, x as int) && is_node(*g, y as int),
                None => true,
            } by {
                assert(match edge_slots(*old(g))[k] {
                    Some((x, y, _)) => is_node(*old(g), x as int) && is_node(*old(g), y as int),
                    None => true,
                });
            }
        }
    }
    r
}

/// What [`StableGraph::add_node`](petgraph::stable_graph::StableGraph::add_node)
/// does to the node slots of a graph with text payloads: the node fills a
/// vacant slot if there is one, the one at `vacancy`, else a new slot at the
/// end.
pub open spec fn node_added(
    before: Seq<Option<NodeEntry>>,
    after: Seq<Option<NodeEntry>>,
    index: int,
    entry: NodeEntry,
    vacancy: int,
) -> bool {
    &&& dense(before) ==> index == before.len() && after == before.push(Some(entry))
    &&& !dense(before) ==> index == vacancy && 0 <= index < before.len() && before[index] is None && after
        == before.update(index, Some(entry))
}

/// Makes adding [`Node`]s to a [`ForceGraph`] shorter.
pub trait ForceGraphHelper<N, E>: Sized {
    /// Whether one more node fits under the graph's index type.
    spec fn has_room(&self) -> bool;

    /// Whether `after` is `self` with a node of label `name` and payload `data`
    /// added at `index` with mass 1 and not pinned, and every other node and
    /// every edge as it was.
    spec fn adds_node(&self, after: &Self, index: int, name: Seq<char>, data: N) -> bool;

    /// Adds a node with the given label and payload in its default physical
    /// state, and returns its index.
    fn add_force_node(&mut self, name: &str, data: N) -> (r: usize)
        requires
            old(self).has_room(),
        ensures
            old(self).adds_node(final(self), r as int, name@, data),
    ;
}

/// Adding a node leaves every edge attached to nodes of the graph.
pub proof fn lemma_add_node_keeps_edges_attached(
    before: ForceGraph<String, String>,
    after: ForceGraph<String, String>,
    index: int,
    name: Seq<char>,
    data: String,
)
    requires
        edges_attached(before),
        before.adds_node(&after, index, name, data),
    ensures
        edges_attached(after),
{
    assert forall|k: int| 0 <= k < edge_slots(after).len() implies match #[trigger] edge_slots(after)[k] {
        Some((x, y, _)) => is_node(after, x as int) && is_node(after, y as int),
        None => true,
    } by {
        assert(match edge_slots(before)[k] {
            Some((x, y, _)) => is_node(before, x as int) && is_node(before, y as int),
            None => true,
        });
        match edge_slots(before)[k] {
            Some((x, y, _)) => {
                assert(node_slots(after)[x as int] is Some);
                assert(node_slots(after)[y as int] is Some);
            },
            None => {},
        }
    }
}

/// Adding the same node to equal graphs gives the same index and the same
/// node and edge slots.
pub proof fn lemma_add_node_deterministic(
    g1: ForceGraph<String, String>,
    g2: ForceGraph<String, String>,
    after1: ForceGraph<String, String>,
    after2: ForceGraph<String, String>,
    i1: int,
    i2: int,
    name: Seq<char>,
    data: String,
)
    requires
        g1 == g2,
        g1.adds_node(&after1, i1, name, data),
        g2.adds_node(&after2, i2, name, data),
    ensures
        i1 == i2,
        node_slots(after1) == node_slots(after2),
        edge_slots(after1) == edge_slots(after2),
{
}

impl ForceGraphHelper<String, String> for ForceGraph<String, String> {
    open spec fn has_room(&self) -> bool {
        node_slots(*self).len() < u32::MAX
    }

    open spec fn adds_node(&self, after: &Self, index: int, name: Seq<char>, data: String) -> bool {
        &&& node_added(node_slots(*self), node_slots(*after), index, (name, data@, 1u32, false), node_vacancy(*self))
        &&& edge_slots(*after) == edge_slots(*self)
    }

    fn add_force_node(&mut self, name: &str, data: String) -> (r: usize) {
        insert_node(self, Node::new(name, data))
    }
}

} // verus!
