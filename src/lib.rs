//! Force-directed graph layout: the physical node record, the stable-indexed
//! graph that holds the nodes, and graph import from a JSON graph document.
pub mod graph;
pub mod import;
pub mod json;
pub mod node;

pub use glam;
pub use petgraph;

pub use graph::{add_force_edge, new_force_graph, remove_force_node, ForceGraph, ForceGraphHelper, GraphError};
pub use import::{graph_from_document, graph_from_json};
pub use json::{Json, JsonShape};
pub use node::{Node, NodeError};
