use petgraph::graph::NodeIndex;
use comtrya::dag::{build_graph, resolve_dependency_name, visit_order};
use comtrya::depgraph::DependencyGraph;
use comtrya::manifest::{ActionKind, Manifest};

fn manifest(name: &str, depends: &[&str], actions: Vec<ActionKind>) -> Manifest {
    Manifest {
        name: Some(name.to_string()),
        root_dir: None,
        depends: depends.iter().map(|d| d.to_string()).collect(),
        labels: vec![],
        where_condition: None,
        actions,
    }
}

fn entries() -> Vec<(String, Manifest)> {
    vec![
        ("tools.git".to_string(), manifest("tools.git", &[], vec![ActionKind::Other])),
        ("tools.editor".to_string(), manifest("tools.editor", &["./git", "missing"], vec![ActionKind::CommandRun { privileged: false }])),
        ("base".to_string(), manifest("base", &["tools.editor"], vec![])),
    ]
}

#[test]
fn dependency_names_resolve_relative_to_their_manifest() {
    assert_eq!(resolve_dependency_name("tools.editor", "./git"), "tools.git");
    assert_eq!(resolve_dependency_name("a.b.c", "./d"), "a.b.d");
    assert_eq!(resolve_dependency_name("main", "./x"), "main.x");
    assert_eq!(resolve_dependency_name("main", "plain"), "plain");
    assert_eq!(resolve_dependency_name("a.b", "./x/./y"), "a.x/a.y");
}

#[test]
fn build_graph_orders_dependencies_first() {
    let e = entries();
    let g = build_graph(&e);
    assert_eq!(g.node_count(), 4);
    // root → each manifest, then editor → git and base → editor
    assert_eq!(g.edge_count(), 5);
    let order = visit_order(&g, 0);
    assert_eq!(*order.last().unwrap(), 0);
    let pos = |n: usize| order.iter().position(|&x| x == n).unwrap();
    assert!(pos(1) < pos(2));
    assert!(pos(2) < pos(3));
    assert_eq!(visit_order(&g, 3), vec![1, 2, 3]);
}

#[test]
fn dependency_graph_orders_manifests_after_their_dependencies() {
    let e = entries();
    let (graph, ask) = DependencyGraph::new(&e);
    assert!(!ask);
    let ordered = graph.get_ordered_manifests();
    assert_eq!(ordered, vec![0, 1, 2]);
    assert_eq!(graph.get_node_from_manifest("base"), 2);
    assert_eq!(graph.get_successors("tools.git"), vec![1]);
    assert_eq!(graph.get_successors("base"), Vec::<usize>::new());
}

#[test]
fn dependency_graph_asks_for_a_password_for_privileged_work() {
    let mut e = entries();
    e[2].1.actions.push(ActionKind::CommandRun { privileged: true });
    assert!(DependencyGraph::new(&e).1);
    let mut e = entries();
    e[0].1.actions.push(ActionKind::PackageRepository);
    assert!(DependencyGraph::new(&e).1);
}

#[test]
fn dependency_graph_add_manifest_keeps_the_first_node_of_a_name() {
    let (mut graph, _) = DependencyGraph::new(&entries());
    assert_eq!(graph.add_manifest("extra".to_string(), 7), 3);
    assert_eq!(graph.add_manifest("base".to_string(), 8), 2);
    assert_eq!(graph.graph.node_count(), 5);
}

#[test]
fn dependency_graph_has_an_edge_exactly_for_each_resolved_dependency() {
    let (graph, _) = DependencyGraph::new(&entries());
    // editor → git (through "./git"), base → editor; "missing" adds none
    assert_eq!(graph.graph.edge_count(), 2);
    assert!(graph.graph.find_edge(NodeIndex::new(1), NodeIndex::new(0)).is_some());
    assert!(graph.graph.find_edge(NodeIndex::new(2), NodeIndex::new(1)).is_some());
    assert_eq!(graph.name_to_idx.len(), 3);
    assert_eq!(graph.get_node_from_manifest("tools.git"), 0);
    assert_eq!(graph.get_node_from_manifest("tools.editor"), 1);
}

#[test]
fn dependency_graph_adding_a_name_twice_gives_one_node() {
    let (mut graph, _) = DependencyGraph::new(&entries());
    let first = graph.add_manifest("extra".to_string(), 7);
    let second = graph.add_manifest("extra".to_string(), 9);
    assert_eq!(first, 3);
    assert_eq!(second, first);
    assert_eq!(graph.name_to_idx.len(), 4);
    assert_eq!(graph.get_node_from_manifest("base"), 2);
}

#[test]
fn dependency_graph_orders_every_manifest_once() {
    let e = vec![
        ("c".to_string(), manifest("c", &["b", "a"], vec![])),
        ("b".to_string(), manifest("b", &["a"], vec![])),
        ("a".to_string(), manifest("a", &[], vec![])),
    ];
    let (graph, _) = DependencyGraph::new(&e);
    let ordered = graph.get_ordered_manifests();
    assert_eq!(ordered, vec![2, 1, 0]);
}
