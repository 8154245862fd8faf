//! The graph of manifests by dependency, in which every manifest is a node
//! and each resolved dependency an edge from the manifest to the one it
//! depends on; manifests are ordered so that each comes after those it
//! depends on.
use crate::dag::{
    add_dependency_edges, dag_edges, dag_weights, dependency_edges, depends_on, entry_depends, entry_names,
    has_ranking, lemma_dependency_edges_exact, lemma_name_index_found, name_index,
    graph_add_node, graph_node_weight, lemma_dependency_edges_len, lemma_total_dependencies_grows,
    new_graph, targets_come_first, total_dependencies,
};
use crate::dag::resolve_dependency;
use crate::keyed::{keyed_get, keyed_insert, keyed_map, keys_of};
use crate::manifest::{needs_password, ActionKind, Manifest};
use petgraph::graph::NodeIndex;
use petgraph::visit::{Reversed, Topo};
use petgraph::Direction;
use petgraph::Graph;
use vstd::prelude::*;

verus! {

/// The order in which `petgraph::visit::Topo` visits the graph of
/// `node_count` nodes with these edges taken in reverse.
pub uninterp spec fn reversed_topo_order(node_count: nat, edges: Seq<(usize, usize)>) -> Seq<usize>;

/// The nodes that `petgraph::Graph::neighbors_directed` lists for `node` in
/// the `Incoming` direction, over a graph of `node_count` nodes with these
/// edges.
pub uninterp spec fn incoming_neighbors(node_count: nat, edges: Seq<(usize, usize)>, node: usize) -> Seq<usize>;

/// Runs `petgraph::visit::Topo` over the graph with its edges reversed, to
/// its end, and lists the nodes it visits. The list is named; no node is
/// listed twice, every listed node exists, and a node is listed only after
/// every node it has an edge to (in the reversed graph, those are its
/// predecessors, and `Topo` visits a node only once all of them have been
/// visited). Where the graph has no cycle, every node is listed: `Topo`
/// starts from every node without predecessors and, after each visit, goes
/// on to each neighbour whose predecessors have all been visited.
#[verifier::external_body]
fn graph_reversed_topo(g: &Graph<usize, u32>) -> (order: Vec<usize>)
    ensures
        order@ == reversed_topo_order(dag_weights(*g).len(), dag_edges(*g)),
        order@.no_duplicates(),
        forall|i: int| 0 <= i < order@.len() ==> #[trigger] order@[i] < dag_weights(*g).len(),
        targets_come_first(order@, dag_edges(*g)),
        has_ranking(dag_weights(*g).len(), dag_edges(*g)) ==> forall|x: usize|
            x < dag_weights(*g).len() ==> #[trigger] order@.contains(x),
{
    let reversed = Reversed(g);
    let mut topo = Topo::new(reversed);
    std::iter::from_fn(|| topo.next(reversed)).map(|n: NodeIndex| n.index()).collect()
}

/// Calls `petgraph::Graph::neighbors_directed` for `node` in the `Incoming`
/// direction and lists the nodes: the named list holds exactly the nodes
/// with an edge to `node`.
#[verifier::external_body]
fn graph_incoming(g: &Graph<usize, u32>, node: usize) -> (sources: Vec<usize>)
    requires
        node < dag_weights(*g).len(),
    ensures
        sources@ == incoming_neighbors(dag_weights(*g).len(), dag_edges(*g), node),
        forall|i: int| 0 <= i < sources@.len() ==> #[trigger] sources@[i] < dag_weights(*g).len(),
        forall|i: int|
            0 <= i < sources@.len() ==> exists|e: int|
                0 <= e < dag_edges(*g).len() && dag_edges(*g)[e].0 == #[trigger] sources@[i] && dag_edges(*g)[e].1
                    == node,
        forall|e: int|
            0 <= e < dag_edges(*g).len() && #[trigger] dag_edges(*g)[e].1 == node ==> sources@.contains(
                dag_edges(*g)[e].0,
            ),
{
    g.neighbors_directed(NodeIndex::new(node), Direction::Incoming).map(|n| n.index()).collect()
}

/// The node that adding a manifest named `name` gives, and the names with
/// their nodes afterwards, where `count` nodes were there before: the node
/// the name already has, with the names unchanged, or else the new node,
/// recorded under the name.
pub open spec fn added_node(names: Map<Seq<char>, usize>, name: Seq<char>, count: nat) -> (usize, Map<Seq<char>, usize>) {
    if names.dom().contains(name) {
        (names[name], names)
    } else {
        (count as usize, names.insert(name, count as usize))
    }
}

/// Adding a manifest whose name is already known gives the node that name
/// has and changes no name; so adding two manifests of one name gives the
/// same node both times. Either way every other name keeps its node.
pub proof fn lemma_add_manifest_keeps_names(names: Map<Seq<char>, usize>, name: Seq<char>, first: nat, second: nat)
    ensures
        ({
            let (idx, after) = added_node(names, name, first);
            &&& after.dom().contains(name) && after[name] == idx
            &&& added_node(after, name, second) == (idx, after)
            &&& forall|other: Seq<char>|
                other != name ==> (#[trigger] after.dom().contains(other) == names.dom().contains(other) && (
                names.dom().contains(other) ==> after[other] == names[other]))
        }),
{
}

/// On the graph that `DependencyGraph::new` builds (node `i`, of weight
/// `i`, for the `i`-th manifest, and an edge for each dependency), the
/// order that `get_ordered_manifests` gives puts every manifest after each
/// manifest it depends on.
pub proof fn lemma_dependencies_come_first(
    entries: Seq<(String, Manifest)>,
    edges: Seq<(usize, usize)>,
    order: Seq<usize>,
    r: Seq<usize>,
)
    requires
        entries.len() <= usize::MAX,
        forall|e: (usize, usize)| #[trigger] edges.contains(e) <==> depends_on(entries, e.0 as int, e.1 as int),
        forall|i: int| 0 <= i < order.len() ==> #[trigger] order[i] < entries.len(),
        targets_come_first(order, edges),
        r == Seq::new(order.len(), |a: int| Seq::new(entries.len(), |i: int| i as usize)[order[a] as int]),
    ensures
        forall|a: int, b: int|
            0 <= a < r.len() && #[trigger] depends_on(entries, r[a] as int, b) ==> exists|c: int|
                0 <= c < a && r[c] as int == b,
{
    assert forall|a: int, b: int|
        0 <= a < r.len() && #[trigger] depends_on(entries, r[a] as int, b) implies exists|c: int|
            0 <= c < a && r[c] as int == b by {
        assert(r[a] == order[a]);
        let d = choose|d: int|
            0 <= d < entries[r[a] as int].1.depends@.len() && #[trigger] name_index(
                entry_names(entries),
                resolve_dependency(entries[r[a] as int].0@, entries[r[a] as int].1.depends@[d]@),
            ) == Some(b);
        lemma_name_index_found(
            entry_names(entries),
            resolve_dependency(entries[r[a] as int].0@, entries[r[a] as int].1.depends@[d]@),
        );
        let e = (r[a], b as usize);
        assert(depends_on(entries, e.0 as int, e.1 as int));
        assert(edges.contains(e));
        let k = choose|k: int| 0 <= k < edges.len() && edges[k] == e;
        assert(edges[k].0 == order[a]);
        let c = choose|c: int| 0 <= c < a && order[c] == edges[k].1;
        assert(r[c] == order[c]);
    }
}

/// The manifests as a graph, with the node of each manifest by name.
pub struct DependencyGraph {
    pub graph: Graph<usize, u32>,
    pub name_to_idx: Vec<(String, usize)>,
}

/// Whether some action of some manifest needs the user's password.
pub open spec fn any_needs_password(entries: Seq<(String, Manifest)>) -> bool {
    exists|i: int, k: int|
        0 <= i < entries.len() && 0 <= k < entries[i].1.actions@.len() && needs_password(
            #[trigger] entries[i].1.actions@[k],
        )
}

/// Whether some of the actions needs the user's password.
fn actions_need_password(actions: &Vec<ActionKind>) -> (r: bool)
    ensures
        r == exists|k: int| 0 <= k < actions@.len() && needs_password(#[trigger] actions@[k]),
{
    let mut k: usize = 0;
    while k < actions.len()
        invariant
            k <= actions@.len(),
            forall|j: int| 0 <= j < k ==> !needs_password(#[trigger] actions@[j]),
        decreases actions.len() - k,
    {
        if actions[k].needs_password() {
            return true;
        }
        k = k + 1;
    }
    false
}

impl DependencyGraph {
    /// Names map to existing nodes, each name once.
    pub open spec fn wf(&self) -> bool {
        &&& keys_of(self.name_to_idx@).no_duplicates()
        &&& forall|k: Seq<char>| #[trigger]
            keyed_map(self.name_to_idx@).dom().contains(k) ==> keyed_map(self.name_to_idx@)[k] < dag_weights(
                self.graph,
            ).len()
        &&& dag_weights(self.graph).len() < u32::MAX
    }

    /// Adds a node for the manifest `name`, whose weight is `weight`, and
    /// gives the node of that name: the new node, or the one the name had
    /// (a node is added either way).
    pub fn add_manifest(&mut self, name: String, weight: usize) -> (idx: usize)
        requires
            old(self).wf(),
            dag_weights(old(self).graph).len() + 1 < u32::MAX,
        ensures
            final(self).wf(),
            dag_weights(final(self).graph) == dag_weights(old(self).graph).push(weight),
            dag_edges(final(self).graph) == dag_edges(old(self).graph),
            keyed_map(old(self).name_to_idx@).dom().contains(name@) ==> idx == keyed_map(
                old(self).name_to_idx@,
            )[name@] && keyed_map(final(self).name_to_idx@) == keyed_map(old(self).name_to_idx@),
            !keyed_map(old(self).name_to_idx@).dom().contains(name@) ==> idx == dag_weights(old(self).graph).len()
                && keyed_map(final(self).name_to_idx@) == keyed_map(old(self).name_to_idx@).insert(name@, idx),
            (idx, keyed_map(final(self).name_to_idx@)) == added_node(
                keyed_map(old(self).name_to_idx@),
                name@,
                dag_weights(old(self).graph).len(),
            ),
    {
        let node = graph_add_node(&mut self.graph, weight);
        match keyed_get(&self.name_to_idx, name.as_str()) {
            Some(existing) => *existing,
            None => {
                keyed_insert(&mut self.name_to_idx, name, node);
                node
            },
        }
    }

    /// The node of the manifest `name`, which must have one.
    pub fn get_node_from_manifest(&self, name: &str) -> (idx: usize)
        requires
            self.wf(),
            keyed_map(self.name_to_idx@).dom().contains(name@),
        ensures
            idx == keyed_map(self.name_to_idx@)[name@],
            idx < dag_weights(self.graph).len(),
    {
        *keyed_get(&self.name_to_idx, name).unwrap()
    }

    /// The graph of the manifests: node `i` for the `i`-th entry, with the
    /// entry's position as weight; an edge from each manifest to each
    /// manifest that a dependency of it resolves to. Also whether some
    /// action of some manifest needs the user's password.
    pub fn new(entries: &Vec<(String, Manifest)>) -> (r: (DependencyGraph, bool))
        requires
            keys_of(entries@).no_duplicates(),
            entries@.len() + total_dependencies(entries@, entries@.len() as int) + 1 < u32::MAX,
        ensures
            r.0.wf(),
            dag_weights(r.0.graph) == Seq::new(entries@.len(), |i: int| i as usize),
            dag_edges(r.0.graph) == dependency_edges(
                entry_names(entries@),
                entry_depends(entries@),
                entries@.len() as int,
                0,
            ),
            forall|i: int|
                0 <= i < entries@.len() ==> #[trigger] keyed_map(r.0.name_to_idx@).dom().contains(entries@[i].0@)
                    && keyed_map(r.0.name_to_idx@)[entries@[i].0@] == i,
            forall|x: Seq<char>| #[trigger]
                keyed_map(r.0.name_to_idx@).dom().contains(x) ==> exists|i: int|
                    0 <= i < entries@.len() && entries@[i].0@ == x,
            forall|e: (usize, usize)| #[trigger]
                dag_edges(r.0.graph).contains(e) <==> depends_on(entries@, e.0 as int, e.1 as int),
            r.1 == any_needs_password(entries@),
    {
        let ghost names = entry_names(entries@);
        let ghost depends = entry_depends(entries@);
        let n = entries.len();
        proof {
            lemma_total_dependencies_grows(entries@, 0, n as int);
        }
        let mut this = DependencyGraph { graph: new_graph(), name_to_idx: Vec::new() };
        assert(keyed_map(this.name_to_idx@) =~= Map::<Seq<char>, usize>::empty());
        let mut i: usize = 0;
        while i < n
            invariant
                n == entries@.len(),
                n + 1 < u32::MAX,
                i <= n,
                keys_of(entries@).no_duplicates(),
                this.wf(),
                dag_weights(this.graph) == Seq::new(i as nat, |k: int| k as usize),
                dag_edges(this.graph) == Seq::<(usize, usize)>::empty(),
                forall|k: int| 0 <= k < i ==> #[trigger] keyed_map(this.name_to_idx@).dom().contains(entries@[k].0@)
                    && keyed_map(this.name_to_idx@)[entries@[k].0@] == k,
                forall|x: Seq<char>| #[trigger]
                    keyed_map(this.name_to_idx@).dom().contains(x) ==> exists|k: int|
                        0 <= k < i && entries@[k].0@ == x,
            decreases n - i,
        {
            let name = entries[i].0.clone();
            proof {
                if keyed_map(this.name_to_idx@).dom().contains(name@) {
                    let k = choose|k: int| 0 <= k < i && entries@[k].0@ == name@;
                    assert(keys_of(entries@)[k] == keys_of(entries@)[i as int]);
                }
            }
            let idx = this.add_manifest(name, i);
            assert(dag_weights(this.graph) =~= Seq::new((i + 1) as nat, |k: int| k as usize));
            i = i + 1;
        }
        assert(dag_edges(this.graph) == dependency_edges(names, depends, 0, 0));
        i = 0;
        while i < n
            invariant
                n == entries@.len(),
                names == entry_names(entries@),
                depends == entry_depends(entries@),
                n + total_dependencies(entries@, n as int) + 1 < u32::MAX,
                i <= n,
                this.wf(),
                dag_weights(this.graph) == Seq::new(n as nat, |k: int| k as usize),
                dag_edges(this.graph) == dependency_edges(names, depends, i as int, 0),
                forall|k: int| 0 <= k < n ==> #[trigger] keyed_map(this.name_to_idx@).dom().contains(entries@[k].0@)
                    && keyed_map(this.name_to_idx@)[entries@[k].0@] == k,
                forall|x: Seq<char>| #[trigger]
                    keyed_map(this.name_to_idx@).dom().contains(x) ==> exists|k: int|
                        0 <= k < n && entries@[k].0@ == x,
            decreases n - i,
        {
            proof {
                lemma_dependency_edges_len(names, entries@, i as int, 0);
                lemma_total_dependencies_grows(entries@, i as int + 1, n as int);
            }
            add_dependency_edges(&mut this.graph, entries, i, 0);
            assert(dag_edges(this.graph) =~= dependency_edges(names, depends, i + 1, 0));
            i = i + 1;
        }
        assert forall|e: (usize, usize)| #[trigger]
            dag_edges(this.graph).contains(e) <==> depends_on(entries@, e.0 as int, e.1 as int) by {
            lemma_dependency_edges_exact(entries@, e);
        }
        let mut ask = false;
        i = 0;
        while i < n
            invariant
                n == entries@.len(),
                i <= n,
                ask == exists|j: int, k: int|
                    0 <= j < i && 0 <= k < entries@[j].1.actions@.len() && needs_password(
                        #[trigger] entries@[j].1.actions@[k],
                    ),

            decreases n - i,
        {
            if !ask && actions_need_password(&entries[i].1.actions) {
                ask = true;
            }
            proof {
                if ask {
                    if exists|j: int, k: int|
                        0 <= j < i && 0 <= k < entries@[j].1.actions@.len() && needs_password(
                            #[trigger] entries@[j].1.actions@[k],
                        ) {
                    } else {
                        let k = choose|k: int|
                            0 <= k < entries@[i as int].1.actions@.len() && needs_password(
                                #[trigger] entries@[i as int].1.actions@[k],
                            );
                        assert(needs_password(entries@[i as int].1.actions@[k]));
                    }
                }
            }
            i = i + 1;
        }
        (this, ask)
    }

    /// The nodes in an order in which each comes after every node it has an
    /// edge to (a node on a cycle is left out): each node once, and every
    /// node where the graph has no cycle.
    pub fn ordered_nodes(&self) -> (order: Vec<usize>)
        ensures
            order@ == reversed_topo_order(dag_weights(self.graph).len(), dag_edges(self.graph)),
            order@.no_duplicates(),
            forall|i: int| 0 <= i < order@.len() ==> #[trigger] order@[i] < dag_weights(self.graph).len(),
            targets_come_first(order@, dag_edges(self.graph)),
            has_ranking(dag_weights(self.graph).len(), dag_edges(self.graph)) ==> forall|x: usize|
                x < dag_weights(self.graph).len() ==> #[trigger] order@.contains(x),
    {
        graph_reversed_topo(&self.graph)
    }

    /// The weights of the nodes in that order: each manifest after those it
    /// depends on, each node once, and every node where the graph has no
    /// cycle.
    pub fn get_ordered_manifests(&self) -> (r: Vec<usize>)
        ensures
            ({
                let order = reversed_topo_order(dag_weights(self.graph).len(), dag_edges(self.graph));
                &&& r@ == Seq::new(order.len(), |a: int| dag_weights(self.graph)[order[a] as int])
                &&& order.no_duplicates()
                &&& forall|i: int| 0 <= i < order.len() ==> #[trigger] order[i] < dag_weights(self.graph).len()
                &&& targets_come_first(order, dag_edges(self.graph))
                &&& has_ranking(dag_weights(self.graph).len(), dag_edges(self.graph)) ==> forall|x: usize|
                    x < dag_weights(self.graph).len() ==> #[trigger] order.contains(x)
            }),
    {
        let order = self.ordered_nodes();
        let mut r: Vec<usize> = Vec::new();
        let mut a: usize = 0;
        while a < order.len()
            invariant
                a <= order@.len(),
                forall|i: int| 0 <= i < order@.len() ==> #[trigger] order@[i] < dag_weights(self.graph).len(),
                r@ == Seq::new(a as nat, |x: int| dag_weights(self.graph)[order@[x] as int]),
            decreases order.len() - a,
        {
            let w = self.weight(order[a]);
            r.push(w);
            assert(r@ =~= Seq::new((a + 1) as nat, |x: int| dag_weights(self.graph)[order@[x] as int]));
            a = a + 1;
        }
        r
    }

    fn weight(&self, node: usize) -> (w: usize)
        requires
            node < dag_weights(self.graph).len(),
        ensures
            w == dag_weights(self.graph)[node as int],
    {
        graph_node_weight(&self.graph, node)
    }

    /// The weights of the manifests that depend on the manifest `name`: the
    /// sources of the edges to its node.
    pub fn get_successors(&self, name: &str) -> (r: Vec<usize>)
        requires
            self.wf(),
            keyed_map(self.name_to_idx@).dom().contains(name@),
        ensures
            ({
                let node = keyed_map(self.name_to_idx@)[name@];
                let sources = incoming_neighbors(dag_weights(self.graph).len(), dag_edges(self.graph), node);
                r@ == Seq::new(sources.len(), |a: int| dag_weights(self.graph)[sources[a] as int])
            }),
    {
        let node = self.get_node_from_manifest(name);
        let sources = graph_incoming(&self.graph, node);
        let mut r: Vec<usize> = Vec::new();
        let mut a: usize = 0;
        while a < sources.len()
            invariant
                a <= sources@.len(),
                forall|i: int| 0 <= i < sources@.len() ==> #[trigger] sources@[i] < dag_weights(self.graph).len(),
                r@ == Seq::new(a as nat, |x: int| dag_weights(self.graph)[sources@[x] as int]),
            decreases sources.len() - a,
        {
            let w = self.weight(sources[a]);
            r.push(w);
            assert(r@ =~= Seq::new((a + 1) as nat, |x: int| dag_weights(self.graph)[sources@[x] as int]));
            a = a + 1;
        }
        r
    }
}

} // verus!
