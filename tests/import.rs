use fdg_sim::graph_from_json;
use fdg_sim::petgraph::graph::{EdgeIndex, NodeIndex};
use fdg_sim::ForceGraph;

fn endpoints_by_name(g: &ForceGraph<String, String>) -> Vec<(String, String)> {
    g.edge_indices()
        .map(|e| {
            let (a, b) = g.edge_endpoints(e).unwrap();
            (g[a].name.clone(), g[b].name.clone())
        })
        .collect()
}

#[test]
fn import_triangle() {
    let text = r#"{"graph":{"nodes":{"1":{},"2":{},"3":{}},"edges":[{"source":"1","target":"2"},{"source":"2","target":"3"},{"source":"3","target":"1"}]}}"#;
    let g = graph_from_json(text).unwrap();
    assert_eq!(g.node_count(), 3);
    assert_eq!(g.edge_count(), 3);
    let pairs = endpoints_by_name(&g);
    assert_eq!(
        pairs,
        vec![
            ("1".to_string(), "2".to_string()),
            ("2".to_string(), "3".to_string()),
            ("3".to_string(), "1".to_string()),
        ]
    );
}

#[test]
fn import_rejects_undeclared_nodes() {
    let text = r#"{"graph":{"edges":[{"source":"1","target":"2"}]}}"#;
    assert!(graph_from_json(text).is_none());
}

#[test]
fn import_rejects_text_that_is_not_json() {
    assert!(graph_from_json("{\"graph\": ").is_none());
    assert!(graph_from_json("").is_none());
}

#[test]
fn import_needs_a_graph_key() {
    assert!(graph_from_json(r#"{"nodes":{"1":{}}}"#).is_none());
    assert!(graph_from_json("[1, 2]").is_none());
}

#[test]
fn import_rejects_nodes_that_are_no_object() {
    assert!(graph_from_json(r#"{"graph":{"nodes":[1,2]}}"#).is_none());
}

#[test]
fn import_rejects_edges_that_are_no_array() {
    let text = r#"{"graph":{"nodes":{"a":{}},"edges":{"source":"a","target":"a"}}}"#;
    assert!(graph_from_json(text).is_none());
}

#[test]
fn import_rejects_an_edge_without_an_end() {
    let text = r#"{"graph":{"nodes":{"a":{},"b":{}},"edges":[{"source":"a"}]}}"#;
    assert!(graph_from_json(text).is_none());
}

#[test]
fn import_without_edges_gives_the_nodes_alone() {
    let g = graph_from_json(r#"{"graph":{"nodes":{"x":{"w":2},"y":{}}}}"#).unwrap();
    assert_eq!(g.node_count(), 2);
    assert_eq!(g.edge_count(), 0);
    assert_eq!(g[NodeIndex::new(0)].name, "x");
    assert_eq!(g[NodeIndex::new(0)].data, r#"{"w":2}"#);
    assert_eq!(g[NodeIndex::new(1)].name, "y");
    assert_eq!(g[NodeIndex::new(1)].data, "{}");
}

#[test]
fn import_of_an_empty_graph() {
    let g = graph_from_json(r#"{"graph":{}}"#).unwrap();
    assert_eq!(g.node_count(), 0);
    assert_eq!(g.edge_count(), 0);
}

#[test]
fn import_keeps_edge_text_and_repeated_edges() {
    let text = r#"{"graph":{"nodes":{"p":{},"q":{}},"edges":[{"source":"p","target":"q","w":1},{"source":"p","target":"q"},{"source":"q","target":"q"}]}}"#;
    let g = graph_from_json(text).unwrap();
    assert_eq!(g.edge_count(), 3);
    assert_eq!(g[EdgeIndex::new(0)], r#"{"source":"p","target":"q","w":1}"#);
    assert_eq!(g[EdgeIndex::new(1)], r#"{"source":"p","target":"q"}"#);
    let (a, b) = g.edge_endpoints(EdgeIndex::new(2)).unwrap();
    assert_eq!((a.index(), b.index()), (1, 1));
}

#[test]
fn import_reads_numeric_ids() {
    let text = r#"{"graph":{"nodes":{"1":{},"2":{}},"edges":[{"source":1,"target":2}]}}"#;
    let g = graph_from_json(text).unwrap();
    assert_eq!(endpoints_by_name(&g), vec![("1".to_string(), "2".to_string())]);
}

#[test]
fn import_places_nodes_at_the_origin() {
    let g = graph_from_json(r#"{"graph":{"nodes":{"a":{}}}}"#).unwrap();
    let n = &g[NodeIndex::new(0)];
    assert_eq!(n.location, fdg_sim::glam::Vec3::ZERO);
    assert_eq!(n.velocity, fdg_sim::glam::Vec3::ZERO);
    assert_eq!(n.mass, 1);
    assert!(!n.pinned);
}

#[test]
fn importing_equal_texts_gives_equal_graphs() {
    let text = r#"{"graph":{"nodes":{"1":{"c":1},"2":{}},"edges":[{"source":"2","target":"1"}]}}"#;
    let g1 = graph_from_json(text).unwrap();
    let g2 = graph_from_json(&text.to_string()).unwrap();
    assert_eq!(g1.node_count(), g2.node_count());
    for i in g1.node_indices() {
        assert_eq!(g1[i].name, g2[i].name);
        assert_eq!(g1[i].data, g2[i].data);
        assert_eq!(g1[i].mass, g2[i].mass);
        assert_eq!(g1[i].pinned, g2[i].pinned);
    }
    assert_eq!(endpoints_by_name(&g1), endpoints_by_name(&g2));
}
