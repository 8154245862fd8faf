//! The dependency graph of the manifests: a `petgraph` graph whose node 0 is
//! a root that every manifest hangs from, and whose other nodes are the
//! manifests, with an edge from each manifest to each dependency that
//! names a known manifest.

use crate::manifest::Manifest;
use crate::text::{contains_text, find_last_char, last_index_of, occurs_at, replace_all, replace_text, str_eq};
use petgraph::graph::NodeIndex;
use petgraph::visit::DfsPostOrder;
use petgraph::{Directed, Graph};
use vstd::prelude::*;

verus! {

/// The graph type of `petgraph`, opaque to the verifier.
#[verifier::external_type_specification]
#[verifier::external_body]
#[verifier::reject_recursive_types(N)]
#[verifier::reject_recursive_types(E)]
#[verifier::reject_recursive_types(Ty)]
#[verifier::reject_recursive_types(Ix)]
pub struct ExGraph<N, E, Ty, Ix>(Graph<N, E, Ty, Ix>);

/// The marker of directed graphs in `petgraph`.
#[verifier::external_type_specification]
#[verifier::external_body]
pub struct ExDirected(Directed);

/// The weights of the nodes of a graph, by node index.
pub uninterp spec fn dag_weights(g: Graph<usize, u32>) -> Seq<usize>;

/// The edges of a graph, as pairs of node indices, in the order in which
/// they were added.
pub uninterp spec fn dag_edges(g: Graph<usize, u32>) -> Seq<(usize, usize)>;

/// The nodes that a depth-first traversal of `petgraph` emits in postorder,
/// from `start`, over a graph of `node_count` nodes with these edges.
pub uninterp spec fn post_order(node_count: nat, edges: Seq<(usize, usize)>, start: usize) -> Seq<usize>;

/// Whether `order` lists, before each node, every node that it has an edge
/// to.
pub open spec fn targets_come_first(order: Seq<usize>, edges: Seq<(usize, usize)>) -> bool {
    forall|a: int, e: int|
        0 <= a < order.len() && 0 <= e < edges.len() && #[trigger] edges[e].0 == #[trigger] order[a] ==> exists|b: int|
            0 <= b < a && order[b] == edges[e].1
}

/// Whether the graph has no cycle: some ranking of its nodes decreases
/// along every edge.
pub open spec fn has_ranking(node_count: nat, edges: Seq<(usize, usize)>) -> bool {
    exists|rank: Seq<int>|
        rank.len() == node_count && forall|e: int|
            0 <= e < edges.len() ==> #[trigger] rank[edges[e].0 as int] > rank[edges[e].1 as int]
}

/// Whether `order` holds, with each node, every node that it has an edge to.
pub open spec fn closed_under_edges(order: Seq<usize>, edges: Seq<(usize, usize)>) -> bool {
    forall|a: int, e: int|
        0 <= a < order.len() && 0 <= e < edges.len() && #[trigger] edges[e].0 == #[trigger] order[a] ==> order.contains(
            edges[e].1,
        )
}

/// Calls `petgraph::Graph::new`: a directed graph with no node and no edge.
#[verifier::external_body]
pub(crate) fn new_graph() -> (g: Graph<usize, u32>)
    ensures
        dag_weights(g) == Seq::<usize>::empty(),
        dag_edges(g) == Seq::<(usize, usize)>::empty(),
{
    Graph::new()
}

/// Calls `petgraph::Graph::add_node`: the node is appended, and its index
/// is the number of nodes before it. The crate panics when the index would
/// reach `u32::MAX`, which `requires` leaves out.
#[verifier::external_body]
pub(crate) fn graph_add_node(g: &mut Graph<usize, u32>, weight: usize) -> (index: usize)
    requires
        dag_weights(*old(g)).len() < u32::MAX,
    ensures
        index == dag_weights(*old(g)).len(),
        dag_weights(*final(g)) == dag_weights(*old(g)).push(weight),
        dag_edges(*final(g)) == dag_edges(*old(g)),
{
    g.add_node(weight).index()
}

/// Calls `petgraph::Graph::add_edge`: the edge from `a` to `b` is appended.
/// The crate panics when either node does not exist or when the edge index
/// would reach `u32::MAX`, which `requires` leaves out.
#[verifier::external_body]
pub(crate) fn graph_add_edge(g: &mut Graph<usize, u32>, a: usize, b: usize)
    requires
        a < dag_weights(*old(g)).len(),
        b < dag_weights(*old(g)).len(),
        dag_weights(*old(g)).len() <= u32::MAX,
        dag_edges(*old(g)).len() < u32::MAX,
    ensures
        dag_weights(*final(g)) == dag_weights(*old(g)),
        dag_edges(*final(g)) == dag_edges(*old(g)).push((a, b)),
{
    g.add_edge(NodeIndex::new(a), NodeIndex::new(b), 0);
}

/// Indexes the graph with `petgraph::Graph`'s `Index` operator: the weight
/// of the node. The crate panics where the node does not exist, which
/// `requires` leaves out.
#[verifier::external_body]
pub(crate) fn graph_node_weight(g: &Graph<usize, u32>, node: usize) -> (w: usize)
    requires
        node < dag_weights(*g).len(),
    ensures
        w == dag_weights(*g)[node as int],
{
    g[NodeIndex::new(node)]
}

/// Runs `petgraph::visit::DfsPostOrder` from `start` to its end and lists
/// the indices of the nodes it emits. The list is the named traversal of
/// the graph; each node is emitted at most once (a node is emitted when it
/// is first marked finished), every emitted node exists, and `start`, which
/// lies at the bottom of the traversal's stack, is emitted last. Every node
/// that an emitted node has an edge to is emitted too (the traversal pushes
/// each undiscovered neighbour), and, where the graph has no cycle, before
/// it (the crate emits each node after all its descendants). The crate
/// panics where `start` does not exist, which `requires` leaves out.
#[verifier::external_body]
fn graph_post_order(g: &Graph<usize, u32>, start: usize) -> (order: Vec<usize>)
    requires
        start < dag_weights(*g).len(),
        dag_weights(*g).len() <= u32::MAX,
    ensures
        order@ == post_order(dag_weights(*g).len(), dag_edges(*g), start),
        order@.len() >= 1,
        order@.last() == start,
        order@.no_duplicates(),
        forall|i: int| 0 <= i < order@.len() ==> #[trigger] order@[i] < dag_weights(*g).len(),
        closed_under_edges(order@, dag_edges(*g)),
        has_ranking(dag_weights(*g).len(), dag_edges(*g)) ==> targets_come_first(order@, dag_edges(*g)),
{
    let mut dfs = DfsPostOrder::new(g, NodeIndex::new(start));
    std::iter::from_fn(|| dfs.next(g)).map(|n| n.index()).collect()
}


/// The part of a manifest's name before its last `.`: the name of the
/// directory of manifests it belongs to (the whole name where it has none).
pub open spec fn local_prefix(name: Seq<char>) -> Seq<char> {
    match last_index_of(name, '.') {
        Some(i) => name.subrange(0, i),
        None => name,
    }
}

/// The name that a dependency written in the manifest `name` stands for:
/// each `./` in it is read as the manifest's own prefix followed by `.`.
pub open spec fn resolve_dependency(name: Seq<char>, dependency: Seq<char>) -> Seq<char> {
    replace_all(dependency, "./"@, local_prefix(name) + "."@)
}

/// The position of the first manifest named `name`.
pub open spec fn name_index(names: Seq<Seq<char>>, name: Seq<char>) -> Option<int> {
    if exists|i: int| 0 <= i < names.len() && names[i] == name {
        Some(choose|i: int| 0 <= i < names.len() && names[i] == name && forall|j: int| 0 <= j < i ==> names[j] != name)
    } else {
        None
    }
}

/// The edges from the `i`-th manifest (node `i + base`) to the manifests
/// (node `j + base` for the `j`-th) that its dependencies `deps` name, in the
/// order of the dependencies.
pub open spec fn dependency_edges_of(names: Seq<Seq<char>>, i: int, deps: Seq<Seq<char>>, base: int) -> Seq<
    (usize, usize),
>
    decreases deps.len(),
{
    if deps.len() == 0 {
        seq![]
    } else {
        let prev = dependency_edges_of(names, i, deps.drop_last(), base);
        match name_index(names, resolve_dependency(names[i], deps.last())) {
            Some(j) => prev.push(((i + base) as usize, (j + base) as usize)),
            None => prev,
        }
    }
}

/// The dependency edges of the first `k` manifests, manifest by manifest.
pub open spec fn dependency_edges(names: Seq<Seq<char>>, depends: Seq<Seq<Seq<char>>>, k: int, base: int) -> Seq<
    (usize, usize),
>
    decreases k,
{
    if k <= 0 {
        seq![]
    } else {
        dependency_edges(names, depends, k - 1, base) + dependency_edges_of(names, k - 1, depends[k - 1], base)
    }
}

/// The edges of the manifest graph: one from the root to each manifest, in
/// order, then the dependency edges.
pub open spec fn manifest_edges(names: Seq<Seq<char>>, depends: Seq<Seq<Seq<char>>>) -> Seq<(usize, usize)> {
    Seq::new(names.len(), |i: int| (0usize, (i + 1) as usize)) + dependency_edges(names, depends, names.len() as int, 1)
}

/// The names of the manifests.
pub open spec fn entry_names(entries: Seq<(String, Manifest)>) -> Seq<Seq<char>> {
    Seq::new(entries.len(), |i: int| entries[i].0@)
}

/// The dependencies of each manifest, as written.
pub open spec fn entry_depends(entries: Seq<(String, Manifest)>) -> Seq<Seq<Seq<char>>> {
    Seq::new(entries.len(), |i: int| entries[i].1.depends.deep_view())
}

/// How many dependencies the first `k` manifests list in all.
pub open spec fn total_dependencies(entries: Seq<(String, Manifest)>, k: int) -> int
    decreases k,
{
    if k <= 0 {
        0
    } else {
        total_dependencies(entries, k - 1) + entries[k - 1].1.depends@.len()
    }
}

proof fn lemma_name_index(names: Seq<Seq<char>>, name: Seq<char>, j: int)
    requires
        0 <= j < names.len(),
        names[j] == name,
        forall|l: int| 0 <= l < j ==> names[l] != name,
    ensures
        name_index(names, name) == Some(j),
{
    let w = choose|i: int| 0 <= i < names.len() && names[i] == name && forall|l: int| 0 <= l < i ==> names[l] != name;
    assert(0 <= w < names.len() && names[w] == name && forall|l: int| 0 <= l < w ==> names[l] != name);
    if w < j {
        assert(names[w] != name);
    } else if w > j {
        assert(names[j] != name);
    }
}

proof fn lemma_first_match(names: Seq<Seq<char>>, name: Seq<char>, i: int)
    requires
        0 <= i < names.len(),
        names[i] == name,
    ensures
        exists|f: int| 0 <= f <= i && names[f] == name && forall|l: int| 0 <= l < f ==> names[l] != name,
    decreases i,
{
    if exists|l: int| 0 <= l < i && names[l] == name {
        let l = choose|l: int| 0 <= l < i && names[l] == name;
        lemma_first_match(names, name, l);
    } else {
        assert(forall|l: int| 0 <= l < i ==> names[l] != name);
    }
}

/// What `name_index` gives is the position of an entry of that name.
pub proof fn lemma_name_index_found(names: Seq<Seq<char>>, name: Seq<char>)
    ensures
        name_index(names, name) matches Some(j) ==> 0 <= j < names.len() && names[j] == name,
        name_index(names, name) is None <==> forall|i: int| 0 <= i < names.len() ==> names[i] != name,
{
    if exists|i: int| 0 <= i < names.len() && names[i] == name {
        let i = choose|i: int| 0 <= i < names.len() && names[i] == name;
        lemma_first_match(names, name, i);
    }
}

/// Whether the dependency `dep` of the `i`-th manifest adds the edge `e`.
#[verifier::opaque]
pub open spec fn adds_edge(names: Seq<Seq<char>>, i: int, dep: Seq<char>, base: int, e: (usize, usize)) -> bool {
    match name_index(names, resolve_dependency(names[i], dep)) {
        Some(j) => e == ((i + base) as usize, (j + base) as usize),
        None => false,
    }
}

proof fn lemma_dependency_edges_of_contains(
    names: Seq<Seq<char>>,
    i: int,
    deps: Seq<Seq<char>>,
    base: int,
    e: (usize, usize),
)
    ensures
        dependency_edges_of(names, i, deps, base).contains(e) <==> exists|d: int|
            0 <= d < deps.len() && #[trigger] adds_edge(names, i, deps[d], base, e),
    decreases deps.len(),
{
    if deps.len() > 0 {
        let init = deps.drop_last();
        let last = deps.len() - 1;
        lemma_dependency_edges_of_contains(names, i, init, base, e);
        let prev = dependency_edges_of(names, i, init, base);
        let full = dependency_edges_of(names, i, deps, base);
        assert forall|d: int| 0 <= d < last implies init[d] == deps[d] by {}
        let found = exists|d: int| 0 <= d < deps.len() && #[trigger] adds_edge(names, i, deps[d], base, e);
        let found_before = exists|d: int| 0 <= d < init.len() && #[trigger] adds_edge(names, i, init[d], base, e);
        assert(found == (found_before || adds_edge(names, i, deps[last], base, e))) by {
            if found {
                let d = choose|d: int| 0 <= d < deps.len() && #[trigger] adds_edge(names, i, deps[d], base, e);
                if d < last {
                    assert(adds_edge(names, i, init[d], base, e));
                }
            }
            if found_before {
                let d = choose|d: int| 0 <= d < init.len() && #[trigger] adds_edge(names, i, init[d], base, e);
                assert(adds_edge(names, i, deps[d], base, e));
            }
        }
        match name_index(names, resolve_dependency(names[i], deps.last())) {
            Some(j) => {
                let x = ((i + base) as usize, (j + base) as usize);
                assert(adds_edge(names, i, deps[last], base, e) == (e == x)) by {
                    reveal(adds_edge);
                }
                assert(full == prev.push(x));
                assert(full.contains(e) == (prev.contains(e) || e == x)) by {
                    if full.contains(e) {
                        let k = choose|k: int| 0 <= k < full.len() && full[k] == e;
                        if k < prev.len() {
                            assert(prev[k] == e);
                        }
                    }
                    if prev.contains(e) {
                        let k = choose|k: int| 0 <= k < prev.len() && prev[k] == e;
                        assert(full[k] == e);
                    }
                    if e == x {
                        assert(full[prev.len() as int] == e);
                    }
                }
            },
            None => {
                assert(!adds_edge(names, i, deps[last], base, e)) by {
                    reveal(adds_edge);
                }
                assert(full == prev);
            },
        }
    }
}

proof fn lemma_concat_contains(a: Seq<(usize, usize)>, b: Seq<(usize, usize)>, e: (usize, usize))
    ensures
        (a + b).contains(e) == (a.contains(e) || b.contains(e)),
{
    if (a + b).contains(e) {
        let k = choose|k: int| 0 <= k < (a + b).len() && (a + b)[k] == e;
        if k < a.len() {
            assert(a[k] == e);
        } else {
            assert(b[k - a.len()] == e);
        }
    }
    if a.contains(e) {
        let k = choose|k: int| 0 <= k < a.len() && a[k] == e;
        assert((a + b)[k] == e);
    }
    if b.contains(e) {
        let k = choose|k: int| 0 <= k < b.len() && b[k] == e;
        assert((a + b)[a.len() + k] == e);
    }
}

proof fn lemma_dependency_edges_contains(
    names: Seq<Seq<char>>,
    depends: Seq<Seq<Seq<char>>>,
    k: int,
    base: int,
    e: (usize, usize),
)
    requires
        0 <= k <= depends.len(),
    ensures
        dependency_edges(names, depends, k, base).contains(e) <==> exists|i: int, d: int|
            0 <= i < k && 0 <= d < depends[i].len() && #[trigger] adds_edge(names, i, depends[i][d], base, e),
    decreases k,
{
    if k > 0 {
        lemma_dependency_edges_contains(names, depends, k - 1, base, e);
        lemma_dependency_edges_of_contains(names, k - 1, depends[k - 1], base, e);
        let prev = dependency_edges(names, depends, k - 1, base);
        let last = dependency_edges_of(names, k - 1, depends[k - 1], base);
        lemma_concat_contains(prev, last, e);
        let found = exists|i: int, d: int|
            0 <= i < k && 0 <= d < depends[i].len() && #[trigger] adds_edge(names, i, depends[i][d], base, e);
        if found {
            let (i, d) = choose|i: int, d: int|
                0 <= i < k && 0 <= d < depends[i].len() && #[trigger] adds_edge(names, i, depends[i][d], base, e);
            if i == k - 1 {
                assert(adds_edge(names, k - 1, depends[k - 1][d], base, e));
            }
        }
    }
}

/// Whether a dependency of the `a`-th manifest names the `b`-th: resolved
/// against the name of the `a`-th, it is the name of the `b`-th, and no
/// earlier manifest has that name.
pub open spec fn depends_on(entries: Seq<(String, Manifest)>, a: int, b: int) -> bool {
    &&& 0 <= a < entries.len()
    &&& exists|d: int|
        0 <= d < entries[a].1.depends@.len() && #[trigger] name_index(
            entry_names(entries),
            resolve_dependency(entries[a].0@, entries[a].1.depends@[d]@),
        ) == Some(b)
}

proof fn lemma_added_edge_depends(entries: Seq<(String, Manifest)>, i: int, d: int, e: (usize, usize))
    requires
        entries.len() <= usize::MAX,
        0 <= i < entries.len(),
        0 <= d < entries[i].1.depends@.len(),
        adds_edge(entry_names(entries), i, entry_depends(entries)[i][d], 0, e),
    ensures
        depends_on(entries, e.0 as int, e.1 as int),
{
    let names = entry_names(entries);
    let dep = entries[i].1.depends@[d]@;
    assert(entry_depends(entries)[i][d] == dep);
    let target = resolve_dependency(entries[i].0@, dep);
    assert(names[i] == entries[i].0@);
    lemma_name_index_found(names, target);
    reveal(adds_edge);
    let j = name_index(names, target)->0;
    assert(e.0 as int == i);
    assert(e.1 as int == j);
    assert(name_index(entry_names(entries), resolve_dependency(entries[i].0@, entries[i].1.depends@[d]@)) == Some(
        j,
    ));
}

proof fn lemma_depends_adds_edge(entries: Seq<(String, Manifest)>, e: (usize, usize)) -> (r: (int, int))
    requires
        depends_on(entries, e.0 as int, e.1 as int),
    ensures
        0 <= r.0 < entries.len(),
        0 <= r.1 < entry_depends(entries)[r.0].len(),
        adds_edge(entry_names(entries), r.0, entry_depends(entries)[r.0][r.1], 0, e),
{
    let i = e.0 as int;
    let d = choose|d: int|
        0 <= d < entries[i].1.depends@.len() && #[trigger] name_index(
            entry_names(entries),
            resolve_dependency(entries[i].0@, entries[i].1.depends@[d]@),
        ) == Some(e.1 as int);
    assert(entry_depends(entries)[i][d] == entries[i].1.depends@[d]@);
    assert(entry_names(entries)[i] == entries[i].0@);
    assert(adds_edge(entry_names(entries), i, entry_depends(entries)[i][d], 0, e)) by {
        reveal(adds_edge);
    }
    (i, d)
}

/// The edges among the manifests, numbered from 0, are exactly the pairs
/// in which the first depends on the second.
pub proof fn lemma_dependency_edges_exact(entries: Seq<(String, Manifest)>, e: (usize, usize))
    requires
        entries.len() <= usize::MAX,
    ensures
        dependency_edges(entry_names(entries), entry_depends(entries), entries.len() as int, 0).contains(e)
            <==> depends_on(entries, e.0 as int, e.1 as int),
{
    let names = entry_names(entries);
    let depends = entry_depends(entries);
    let n = entries.len() as int;
    lemma_dependency_edges_contains(names, depends, n, 0, e);
    if dependency_edges(names, depends, n, 0).contains(e) {
        let (i, d) = choose|i: int, d: int|
            0 <= i < n && 0 <= d < depends[i].len() && #[trigger] adds_edge(names, i, depends[i][d], 0, e);
        lemma_added_edge_depends(entries, i, d, e);
    }
    if depends_on(entries, e.0 as int, e.1 as int) {
        let (i, d) = lemma_depends_adds_edge(entries, e);
        assert(0 <= i < n && 0 <= d < depends[i].len() && adds_edge(names, i, depends[i][d], 0, e));
    }
}

/// The name that `dependency`, written in the manifest `name`, stands for.
pub fn resolve_dependency_name(name: &str, dependency: &str) -> (r: String)
    ensures
        r@ == resolve_dependency(name@, dependency@),
{
    let prefix = match find_last_char(name, '.') {
        Some(i) => name.substring_char(0, i),
        None => name,
    };
    let rep = String::from_str(prefix).concat(".");
    let pat = "./";
    proof {
        reveal_strlit("./");
    }
    replace_text(dependency, pat, rep.as_str())
}

/// The position of the first entry named `name`.
pub fn find_entry(entries: &Vec<(String, Manifest)>, name: &str) -> (r: Option<usize>)
    ensures
        r == (match name_index(entry_names(entries@), name@) {
            Some(i) => Some(i as usize),
            None => None::<usize>,
        }),
        r matches Some(i) ==> i < entries@.len() && entries@[i as int].0@ == name@ && forall|l: int|
            0 <= l < i ==> entry_names(entries@)[l] != name@,
{
    let ghost names = entry_names(entries@);
    let mut i: usize = 0;
    while i < entries.len()
        invariant
            i <= entries.len(),
            names == entry_names(entries@),
            forall|j: int| 0 <= j < i ==> names[j] != name@,
        decreases entries.len() - i,
    {
        if str_eq(entries[i].0.as_str(), name) {
            assert(names[i as int] == name@);
            proof {
                lemma_name_index(names, name@, i as int);
            }
            return Some(i);
        }
        i = i + 1;
    }
    None
}

pub(crate) proof fn lemma_total_dependencies_grows(entries: Seq<(String, Manifest)>, a: int, b: int)
    requires
        0 <= a <= b <= entries.len(),
    ensures
        total_dependencies(entries, a) <= total_dependencies(entries, b),
    decreases b - a,
{
    if a < b {
        lemma_total_dependencies_grows(entries, a, b - 1);
    }
}

proof fn lemma_dependency_edges_of_len(names: Seq<Seq<char>>, i: int, deps: Seq<Seq<char>>, base: int)
    ensures
        dependency_edges_of(names, i, deps, base).len() <= deps.len(),
    decreases deps.len(),
{
    if deps.len() > 0 {
        lemma_dependency_edges_of_len(names, i, deps.drop_last(), base);
    }
}

pub(crate) proof fn lemma_dependency_edges_len(names: Seq<Seq<char>>, entries: Seq<(String, Manifest)>, k: int, base: int)
    requires
        0 <= k <= entries.len(),
    ensures
        dependency_edges(names, entry_depends(entries), k, base).len() <= total_dependencies(entries, k),
    decreases k,
{
    if k > 0 {
        lemma_dependency_edges_len(names, entries, k - 1, base);
        lemma_dependency_edges_of_len(names, k - 1, entry_depends(entries)[k - 1], base);
    }
}

/// The edge, if any, that the dependency `dep` of the `i`-th manifest adds.
pub open spec fn dependency_edge(names: Seq<Seq<char>>, i: int, dep: Seq<char>, base: int) -> Seq<(usize, usize)> {
    match name_index(names, resolve_dependency(names[i], dep)) {
        Some(j) => seq![((i + base) as usize, (j + base) as usize)],
        None => seq![],
    }
}

proof fn lemma_dependency_edges_of_step(names: Seq<Seq<char>>, i: int, deps: Seq<Seq<char>>, d: int, base: int)
    requires
        0 <= d < deps.len(),
    ensures
        dependency_edges_of(names, i, deps.subrange(0, d + 1), base) == dependency_edges_of(
            names,
            i,
            deps.subrange(0, d),
            base,
        ) + dependency_edge(names, i, deps[d], base),
{
    assert(deps.subrange(0, d + 1).drop_last() =~= deps.subrange(0, d));
    let prev = dependency_edges_of(names, i, deps.subrange(0, d), base);
    match name_index(names, resolve_dependency(names[i], deps[d])) {
        Some(j) => {
            assert(prev.push(((i + base) as usize, (j + base) as usize)) =~= prev + seq![
                ((i + base) as usize, (j + base) as usize),
            ]);
        },
        None => {
            assert(prev =~= prev + Seq::<(usize, usize)>::empty());
        },
    }
}

pub(crate) fn add_dependency_edges(g: &mut Graph<usize, u32>, entries: &Vec<(String, Manifest)>, i: usize, base: usize)
    requires
        i < entries@.len(),
        base <= 1,
        entries@.len() < u32::MAX,
        dag_weights(*old(g)).len() == entries@.len() + base,
        dag_edges(*old(g)).len() + entries@[i as int].1.depends@.len() < u32::MAX,
    ensures
        dag_weights(*final(g)) == dag_weights(*old(g)),
        dag_edges(*final(g)) == dag_edges(*old(g)) + dependency_edges_of(
            entry_names(entries@),
            i as int,
            entry_depends(entries@)[i as int],
            base as int,
        ),
{
    let ghost names = entry_names(entries@);
    let ghost start = dag_edges(*g);
    let name = &entries[i].0;
    let deps = &entries[i].1.depends;
    let mut d: usize = 0;
    assert(deps.deep_view().subrange(0, 0) =~= Seq::<Seq<char>>::empty());
    assert(names[i as int] == name@);
    while d < deps.len()
        invariant
            i < entries@.len(),
            base <= 1,
            entries@.len() < u32::MAX,
            names == entry_names(entries@),
            names[i as int] == name@,
            d <= deps@.len(),
            deps == &entries@[i as int].1.depends,
            dag_weights(*g) == dag_weights(*old(g)),
            dag_weights(*g).len() == entries@.len() + base,
            start.len() + deps@.len() < u32::MAX,
            dag_edges(*g) == start + dependency_edges_of(
                names,
                i as int,
                deps.deep_view().subrange(0, d as int),
                base as int,
            ),
        decreases deps.len() - d,
    {
        let resolved = resolve_dependency_name(name.as_str(), deps[d].as_str());
        let ghost before = deps.deep_view().subrange(0, d as int);
        let ghost edge = dependency_edge(names, i as int, deps.deep_view()[d as int], base as int);
        proof {
            lemma_dependency_edges_of_len(names, i as int, before, base as int);
            lemma_dependency_edges_of_step(names, i as int, deps.deep_view(), d as int, base as int);
        }
        let ghost prev_edges = dag_edges(*g);
        assert(deps.deep_view()[d as int] == deps@[d as int]@);
        assert(resolved@ == resolve_dependency(names[i as int], deps.deep_view()[d as int]));
        match find_entry(entries, resolved.as_str()) {
            Some(j) => {
                graph_add_edge(g, i + base, j + base);
                proof {
                    lemma_name_index(names, resolved@, j as int);
                }
                assert(edge == seq![((i + base) as usize, (j + base) as usize)]);
                assert(dag_edges(*g) =~= prev_edges + edge);
            },
            None => {
                assert(edge == Seq::<(usize, usize)>::empty());
                assert(dag_edges(*g) =~= prev_edges + edge);
            },
        }
        assert(start + dependency_edges_of(names, i as int, before, base as int) + edge =~= start + (
        dependency_edges_of(names, i as int, before, base as int) + edge));
        d = d + 1;
    }
    assert(deps.deep_view().subrange(0, deps@.len() as int) =~= entry_depends(entries@)[i as int]);
}

/// Builds the graph of the manifests: node 0 is the root, node `i + 1` the
/// `i`-th entry; the root has an edge to every manifest, and each manifest
/// one to each manifest that a dependency of it resolves to. A dependency
/// that resolves to no manifest adds no edge.
pub fn build_graph(entries: &Vec<(String, Manifest)>) -> (g: Graph<usize, u32>)
    requires
        entries@.len() + total_dependencies(entries@, entries@.len() as int) < u32::MAX,
    ensures
        dag_weights(g) == Seq::new((entries@.len() + 1) as nat, |i: int| i as usize),
        dag_edges(g) == manifest_edges(entry_names(entries@), entry_depends(entries@)),
{
    let ghost names = entry_names(entries@);
    let ghost depends = entry_depends(entries@);
    let n = entries.len();
    proof {
        lemma_total_dependencies_grows(entries@, 0, n as int);
    }
    let mut g = new_graph();
    let root = graph_add_node(&mut g, 0);
    assert(dag_weights(g) =~= Seq::new(1, |k: int| k as usize));
    let mut i: usize = 0;
    while i < n
        invariant
            n == entries@.len(),
            n < u32::MAX,
            i <= n,
            dag_weights(g) == Seq::new((i + 1) as nat, |k: int| k as usize),
            dag_edges(g) == Seq::<(usize, usize)>::empty(),
        decreases n - i,
    {
        let idx = graph_add_node(&mut g, i + 1);
        assert(dag_weights(g) =~= Seq::new((i + 2) as nat, |k: int| k as usize));
        i = i + 1;
    }
    i = 0;
    while i < n
        invariant
            n == entries@.len(),
            n < u32::MAX,
            i <= n,
            dag_weights(g) == Seq::new((n + 1) as nat, |k: int| k as usize),
            dag_edges(g) == Seq::new(i as nat, |k: int| (0usize, (k + 1) as usize)),
        decreases n - i,
    {
        graph_add_edge(&mut g, 0, i + 1);
        assert(dag_edges(g) =~= Seq::new((i + 1) as nat, |k: int| (0usize, (k + 1) as usize)));
        i = i + 1;
    }
    let ghost roots = Seq::new(n as nat, |k: int| (0usize, (k + 1) as usize));
    assert(dag_edges(g) == roots + dependency_edges(names, depends, 0, 1));
    i = 0;
    while i < n
        invariant
            n == entries@.len(),
            names == entry_names(entries@),
            depends == entry_depends(entries@),
            n + total_dependencies(entries@, n as int) < u32::MAX,
            i <= n,
            dag_weights(g) == Seq::new((n + 1) as nat, |k: int| k as usize),
            dag_edges(g) == roots + dependency_edges(names, depends, i as int, 1),
            roots.len() == n,
        decreases n - i,
    {
        proof {
            lemma_dependency_edges_len(names, entries@, i as int, 1);
            lemma_total_dependencies_grows(entries@, i as int + 1, n as int);
        }
        add_dependency_edges(&mut g, entries, i, 1);
        assert(dag_edges(g) =~= roots + dependency_edges(names, depends, i + 1, 1));
        i = i + 1;
    }
    g
}

/// The nodes that the traversal from `start` visits, in postorder: each
/// once, `start` last, with every manifest that a visited one depends on,
/// and, where the dependencies form no cycle, each after those it depends
/// on.
pub fn visit_order(g: &Graph<usize, u32>, start: usize) -> (order: Vec<usize>)
    requires
        start < dag_weights(*g).len(),
        dag_weights(*g).len() <= u32::MAX,
    ensures
        order@ == post_order(dag_weights(*g).len(), dag_edges(*g), start),
        order@.last() == start,
        order@.no_duplicates(),
        forall|i: int| 0 <= i < order@.len() ==> #[trigger] order@[i] < dag_weights(*g).len(),
        closed_under_edges(order@, dag_edges(*g)),
        has_ranking(dag_weights(*g).len(), dag_edges(*g)) ==> targets_come_first(order@, dag_edges(*g)),
{
    graph_post_order(g, start)
}
/// A dependency in which `./` does not occur is taken as written.
pub proof fn lemma_plain_dependency_is_kept(name: Seq<char>, dependency: Seq<char>)
    requires
        !contains_text(dependency, "./"@),
    ensures
        resolve_dependency(name, dependency) == dependency,
{
    reveal_strlit("./");
    lemma_replace_without_match(dependency, "./"@, local_prefix(name) + "."@);
}

proof fn lemma_replace_without_match(s: Seq<char>, pat: Seq<char>, rep: Seq<char>)
    requires
        pat.len() > 0,
        !contains_text(s, pat),
    ensures
        replace_all(s, pat, rep) == s,
    decreases s.len(),
{
    if s.len() >= pat.len() {
        assert(!occurs_at(s, pat, 0));
        assert(s.subrange(0, pat.len() as int) != pat);
        let t = s.subrange(1, s.len() as int);
        assert forall|i: int| !occurs_at(t, pat, i) by {
            if occurs_at(t, pat, i) {
                assert(s.subrange(i + 1, i + 1 + pat.len()) =~= t.subrange(i, i + pat.len()));
                assert(occurs_at(s, pat, i + 1));
            }
        }
        lemma_replace_without_match(t, pat, rep);
        assert(seq![s[0]] + t =~= s);
    }
}

} // verus!
