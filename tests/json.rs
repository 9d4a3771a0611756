use fdg_sim::json::{chars_of, find_member, position_of, same_chars, unquoted_chars};
use fdg_sim::petgraph::graph::NodeIndex;
use fdg_sim::{graph_from_document, graph_from_json, Json, JsonShape};

fn scalar(text: &str) -> Json {
    Json { shape: JsonShape::Scalar, text: text.to_string() }
}

fn object(members: Vec<(&str, Json)>, text: &str) -> Json {
    Json {
        shape: JsonShape::Object(members.into_iter().map(|(k, v)| (k.to_string(), v)).collect()),
        text: text.to_string(),
    }
}

#[test]
fn node_payload_is_compact_json_text() {
    let g = graph_from_json(r#"{ "graph" : { "nodes" : { "b" : { "y" : [1, "x"] , "a": null }, "a": 3 } } }"#).unwrap();
    assert_eq!(g.node_count(), 2);
    assert_eq!(g[NodeIndex::new(0)].name, "a");
    assert_eq!(g[NodeIndex::new(0)].data, "3");
    assert_eq!(g[NodeIndex::new(1)].name, "b");
    assert_eq!(g[NodeIndex::new(1)].data, r#"{"a":null,"y":[1,"x"]}"#);
}

#[test]
fn unquoted_chars_drops_every_quote() {
    assert_eq!(unquoted_chars("\"ab\"c\""), vec!['a', 'b', 'c']);
    assert_eq!(unquoted_chars("12"), vec!['1', '2']);
    assert_eq!(unquoted_chars(""), Vec::<char>::new());
}

#[test]
fn chars_and_comparison() {
    assert_eq!(chars_of("hé"), vec!['h', 'é']);
    assert!(same_chars(&vec!['a', 'b'], &vec!['a', 'b']));
    assert!(!same_chars(&vec!['a', 'b'], &vec!['a', 'c']));
    assert!(!same_chars(&vec!['a'], &vec!['a', 'a']));
}

#[test]
fn position_of_finds_the_first_key() {
    let members = vec![
        ("x".to_string(), scalar("1")),
        ("y".to_string(), scalar("2")),
        ("y".to_string(), scalar("3")),
    ];
    assert_eq!(position_of(&members, &vec!['y']), Some(1));
    assert_eq!(position_of(&members, &vec!['z']), None);
}

#[test]
fn find_member_reads_objects_only() {
    let o = object(vec![("k", scalar("7"))], r#"{"k":7}"#);
    assert_eq!(find_member(&o, "k").unwrap().text, "7");
    assert!(find_member(&o, "j").is_none());
    assert!(find_member(&scalar("7"), "k").is_none());
}

#[test]
fn graph_from_document_builds_from_a_value() {
    let edge = object(vec![("source", scalar("\"b\"")), ("target", scalar("\"a\""))], "E");
    let graph = object(
        vec![
            ("nodes", object(vec![("a", scalar("1")), ("b", scalar("2"))], "N")),
            ("edges", Json { shape: JsonShape::Array(vec![edge]), text: "L".to_string() }),
        ],
        "G",
    );
    let doc = object(vec![("graph", graph)], "D");
    let g = graph_from_document(&doc).unwrap();
    assert_eq!(g.node_count(), 2);
    let e = g.edge_indices().next().unwrap();
    let (s, t) = g.edge_endpoints(e).unwrap();
    assert_eq!((s.index(), t.index()), (1, 0));
    assert_eq!(g[e], "E");
    assert_eq!(g[s].data, "2");
}

#[test]
fn graph_from_document_rejects_a_document_without_graph() {
    let doc = object(vec![("nodes", object(vec![], "{}"))], "D");
    assert!(graph_from_document(&doc).is_none());
}
