use beet::graph::GraphError;
use beet::graph::TypeRegistry;
use beet::graph::WillyBehaviorGraph;
use beet::graph::WillyBehaviorNode;

fn node(name: &str, actions: Vec<u64>) -> WillyBehaviorNode {
    WillyBehaviorNode { name: name.to_string(), actions }
}

fn tree() -> WillyBehaviorGraph {
    let mut g = WillyBehaviorGraph::new();
    let root = g.add_node(node("root", vec![1, 2]));
    for i in 0..12 {
        let child = g.add_node(node("child", vec![3 + (i % 2)]));
        g.add_edge(root, child);
    }
    g
}

#[test]
fn with_indexed_names_names_nodes_after_their_index() {
    let g = tree().with_indexed_names();
    assert_eq!(g.node_count(), 13);
    assert_eq!(g.node(0).name, "Node 0");
    assert_eq!(g.node(9).name, "Node 9");
    assert_eq!(g.node(10).name, "Node 10");
    assert_eq!(g.node(12).name, "Node 12");
    assert_eq!(g.node(12).actions, vec![4]);
    assert_eq!(g.0.edge_count(), 12);
}

#[test]
fn into_prefab_needs_a_root() {
    let r = WillyBehaviorGraph::default().into_prefab(TypeRegistry { types: vec![1, 2, 3, 4] });
    assert_eq!(r.err(), Some(GraphError::NoRootEntity));
}

#[test]
fn into_prefab_reports_first_unregistered_type() {
    let r = tree().into_prefab(TypeRegistry { types: vec![1, 3] });
    assert_eq!(r.err(), Some(GraphError::TypeNotRegistered(2)));
    let r = tree().into_prefab(TypeRegistry { types: vec![2, 1, 3] });
    assert_eq!(r.err(), Some(GraphError::TypeNotRegistered(4)));
}

#[test]
fn into_prefab_keeps_graph_and_registry() {
    let prefab = tree().into_prefab(TypeRegistry { types: vec![4, 3, 2, 1] }).unwrap();
    assert_eq!(prefab.graph().node_count(), 13);
    assert_eq!(prefab.registry().types, vec![4, 3, 2, 1]);
    assert!(prefab.registry().contains(3));
    assert!(!prefab.registry().contains(5));
    prefab.graph().into_scene();
}
