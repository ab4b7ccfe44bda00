use vstd::prelude::*;

use petgraph::graph::DiGraph;
use petgraph::graph::NodeIndex;

verus! {

#[verifier::external_type_specification]
#[verifier::external_body]
#[verifier::reject_recursive_types(N)]
#[verifier::reject_recursive_types(E)]
#[verifier::reject_recursive_types(Ty)]
#[verifier::reject_recursive_types(Ix)]
pub struct ExGraph<N, E, Ty, Ix>(petgraph::graph::Graph<N, E, Ty, Ix>);

#[verifier::external_type_specification]
#[verifier::external_body]
pub struct ExDirected(petgraph::Directed);

/// A node of a behavior graph: its name and the type key of each of its
/// actions, in order.
#[derive(Debug, Clone)]
pub struct WillyBehaviorNode {
    pub name: String,
    pub actions: Vec<u64>,
}

/// The node weights of a petgraph graph, in the order of their node indices.
pub uninterp spec fn graph_nodes(g: DiGraph<WillyBehaviorNode, ()>) -> Seq<WillyBehaviorNode>;

/// The edges of a petgraph graph as (source, target) node indices, in the
/// order of their edge indices.
pub uninterp spec fn graph_edges(g: DiGraph<WillyBehaviorNode, ()>) -> Seq<(usize, usize)>;

/// petgraph's `Graph::new`: a directed graph with no nodes and no edges.
#[verifier::external_body]
fn graph_new() -> (g: DiGraph<WillyBehaviorNode, ()>)
    ensures
        graph_nodes(g) == Seq::<WillyBehaviorNode>::empty(),
        graph_edges(g) == Seq::<(usize, usize)>::empty(),
{
    DiGraph::new()
}

/// petgraph's `Graph::node_count`: the number of nodes.
#[verifier::external_body]
fn graph_node_count(g: &DiGraph<WillyBehaviorNode, ()>) -> (n: usize)
    ensures
        n == graph_nodes(*g).len(),
{
    g.node_count()
}

/// petgraph's `Graph::add_node`: appends a node and returns its index. It
/// panics when the graph already holds `u32::MAX` nodes.
#[verifier::external_body]
fn graph_add_node(g: &mut DiGraph<WillyBehaviorNode, ()>, weight: WillyBehaviorNode) -> (i: usize)
    requires
        graph_nodes(*old(g)).len() < u32::MAX,
    ensures
        i == graph_nodes(*old(g)).len(),
        graph_nodes(*final(g)) == graph_nodes(*old(g)).push(weight),
        graph_edges(*final(g)) == graph_edges(*old(g)),
{
    g.add_node(weight).index()
}

/// petgraph's `Graph::add_edge` with a unit weight: appends the edge from
/// node `a` to node `b`. It panics when either node is missing or when the
/// graph already holds `u32::MAX` edges.
#[verifier::external_body]
fn graph_add_edge(g: &mut DiGraph<WillyBehaviorNode, ()>, a: usize, b: usize)
    requires
        a < graph_nodes(*old(g)).len(),
        b < graph_nodes(*old(g)).len(),
        a < u32::MAX,
        b < u32::MAX,
        graph_edges(*old(g)).len() < u32::MAX,
    ensures
        graph_nodes(*final(g)) == graph_nodes(*old(g)),
        graph_edges(*final(g)) == graph_edges(*old(g)).push((a, b)),
{
    g.add_edge(NodeIndex::new(a), NodeIndex::new(b), ());
}

/// petgraph's `Index<NodeIndex>` on a graph: the weight of node `i`.
#[verifier::external_body]
fn graph_node(g: &DiGraph<WillyBehaviorNode, ()>, i: usize) -> (n: &WillyBehaviorNode)
    requires
        i < graph_nodes(*g).len(),
        i < u32::MAX,
    ensures
        *n == graph_nodes(*g)[i as int],
{
    &g[NodeIndex::new(i)]
}

/// petgraph's `IndexMut<NodeIndex>` on a graph, used to replace the name of
/// node `i`; nothing else of the graph changes.
#[verifier::external_body]
fn graph_set_node_name(g: &mut DiGraph<WillyBehaviorNode, ()>, i: usize, name: String)
    requires
        i < graph_nodes(*old(g)).len(),
        i < u32::MAX,
    ensures
        graph_nodes(*final(g)) == graph_nodes(*old(g)).update(
            i as int,
            WillyBehaviorNode { name: name, actions: graph_nodes(*old(g))[i as int].actions },
        ),
        graph_edges(*final(g)) == graph_edges(*old(g)),
{
    g[NodeIndex::new(i)].name = name;
}

/// The character of a decimal digit.
pub open spec fn digit_char(d: nat) -> char {
    (48 + d) as char
}

/// The decimal notation of `n`, without leading zeros.
pub open spec fn decimal(n: nat) -> Seq<char>
    decreases n,
{
    if n < 10 {
        seq![digit_char(n)]
    } else {
        decimal(n / 10).push(digit_char(n % 10))
    }
}

/// The name that [`WillyBehaviorGraph::with_indexed_names`] gives node `i`.
pub open spec fn indexed_name(i: nat) -> Seq<char> {
    seq!['N', 'o', 'd', 'e', ' '] + decimal(i)
}

fn digit_str(d: usize) -> (s: &'static str)
    requires
        d < 10,
    ensures
        s@ == seq![digit_char(d as nat)],
{
    proof {
        reveal_strlit("0");
        reveal_strlit("1");
        reveal_strlit("2");
        reveal_strlit("3");
        reveal_strlit("4");
        reveal_strlit("5");
        reveal_strlit("6");
        reveal_strlit("7");
        reveal_strlit("8");
        reveal_strlit("9");
    }
    if d == 0 {
        "0"
    } else if d == 1 {
        "1"
    } else if d == 2 {
        "2"
    } else if d == 3 {
        "3"
    } else if d == 4 {
        "4"
    } else if d == 5 {
        "5"
    } else if d == 6 {
        "6"
    } else if d == 7 {
        "7"
    } else if d == 8 {
        "8"
    } else {
        "9"
    }
}

fn push_decimal(s: &mut String, n: usize)
    ensures
        final(s)@ == old(s)@ + decimal(n as nat),
    decreases n,
{
    if n >= 10 {
        push_decimal(s, n / 10);
    }
    s.append(digit_str(n % 10));
    proof {
        if n >= 10 {
            assert(decimal(n as nat) == decimal((n / 10) as nat).push(digit_char((n % 10) as nat)));
        }
    }
}

/// The name `Node {i}`.
fn indexed_name_string(i: usize) -> (s: String)
    ensures
        s@ == indexed_name(i as nat),
{
    let mut s = String::from_str("Node ");
    proof {
        reveal_strlit("Node ");
    }
    push_decimal(&mut s, i);
    s
}

/// The type keys of all actions of `nodes`, node by node, each node's
/// actions in their order.
pub open spec fn all_actions(nodes: Seq<WillyBehaviorNode>) -> Seq<u64>
    decreases nodes.len(),
{
    if nodes.len() == 0 {
        seq![]
    } else {
        all_actions(nodes.drop_last()) + nodes.last().actions@
    }
}

/// Every key of `keys` is in `registered`.
pub open spec fn all_registered(keys: Seq<u64>, registered: Seq<u64>) -> bool {
    forall|j: int| 0 <= j < keys.len() ==> registered.contains(#[trigger] keys[j])
}

/// `key` is the first of `keys` that `registered` lacks.
pub open spec fn first_unregistered(keys: Seq<u64>, registered: Seq<u64>, key: u64) -> bool {
    exists|j: int|
        0 <= j < keys.len() && keys[j] == key && !registered.contains(key) && all_registered(
            keys.take(j),
            registered,
        )
}

/// The action types that a prefab can hold, by type key.
#[derive(Debug, Clone)]
pub struct TypeRegistry {
    pub types: Vec<u64>,
}

impl TypeRegistry {
    pub fn contains(&self, key: u64) -> (r: bool)
        ensures
            r == self.types@.contains(key),
    {
        let n = self.types.len();
        for i in 0..n
            invariant
                n == self.types@.len(),
                forall|j: int| 0 <= j < i ==> self.types@[j] != key,
        {
            if self.types[i] == key {
                assert(self.types@[i as int] == key);
                return true;
            }
        }
        false
    }
}

/// Why a behavior graph cannot become a prefab.
#[derive(Debug, Clone, Copy, PartialEq, Eq, Structural)]
pub enum GraphError {
    /// The graph has no node, so no root entity.
    NoRootEntity,
    /// An action of the graph has a type that the registry lacks.
    TypeNotRegistered(u64),
}

/// A behavior graph checked against the registry of the action types it uses.
#[derive(Debug)]
pub struct BehaviorGraphPrefab {
    graph: WillyBehaviorGraph,
    registry: TypeRegistry,
}

impl BehaviorGraphPrefab {
    pub closed spec fn spec_graph(&self) -> WillyBehaviorGraph {
        self.graph
    }

    pub closed spec fn spec_registry(&self) -> TypeRegistry {
        self.registry
    }

    pub fn graph(&self) -> (g: &WillyBehaviorGraph)
        ensures
            *g == self.spec_graph(),
    {
        &self.graph
    }

    pub fn registry(&self) -> (r: &TypeRegistry)
        ensures
            *r == self.spec_registry(),
    {
        &self.registry
    }
}

/// A graph of behaviors; node 0 is the root.
#[derive(Debug)]
pub struct WillyBehaviorGraph(pub DiGraph<WillyBehaviorNode, ()>);

impl WillyBehaviorGraph {
    pub open spec fn spec_nodes(&self) -> Seq<WillyBehaviorNode> {
        graph_nodes(self.0)
    }

    pub open spec fn spec_edges(&self) -> Seq<(usize, usize)> {
        graph_edges(self.0)
    }

    /// Every node has an index that a graph with `u32` indices can hold.
    pub open spec fn wf(&self) -> bool {
        self.spec_nodes().len() <= u32::MAX
    }

    /// The graph with no nodes and no edges.
    pub fn new() -> (g: Self)
        ensures
            g.spec_nodes() == Seq::<WillyBehaviorNode>::empty(),
            g.spec_edges() == Seq::<(usize, usize)>::empty(),
    {
        WillyBehaviorGraph(graph_new())
    }

    pub fn node_count(&self) -> (n: usize)
        ensures
            n == self.spec_nodes().len(),
    {
        graph_node_count(&self.0)
    }

    /// Appends a node and returns its index.
    pub fn add_node(&mut self, node: WillyBehaviorNode) -> (i: usize)
        requires
            old(self).spec_nodes().len() < u32::MAX,
        ensures
            i == old(self).spec_nodes().len(),
            final(self).spec_nodes() == old(self).spec_nodes().push(node),
            final(self).spec_edges() == old(self).spec_edges(),
    {
        graph_add_node(&mut self.0, node)
    }

    /// Appends the edge from node `parent` to node `child`.
    pub fn add_edge(&mut self, parent: usize, child: usize)
        requires
            parent < old(self).spec_nodes().len(),
            child < old(self).spec_nodes().len(),
            old(self).wf(),
            old(self).spec_edges().len() < u32::MAX,
        ensures
            final(self).spec_nodes() == old(self).spec_nodes(),
            final(self).spec_edges() == old(self).spec_edges().push((parent, child)),
    {
        graph_add_edge(&mut self.0, parent, child)
    }

    /// The node at index `i`.
    pub fn node(&self, i: usize) -> (n: &WillyBehaviorNode)
        requires
            i < self.spec_nodes().len(),
            self.wf(),
        ensures
            *n == self.spec_nodes()[i as int],
    {
        graph_node(&self.0, i)
    }

    /// Scenes are not produced from a graph: this does nothing.
    pub fn into_scene(&self) {
    }

    /// Names every node after its index: node `i` becomes `Node {i}`.
    pub fn with_indexed_names(self) -> (g: Self)
        requires
            self.wf(),
        ensures
            g.spec_nodes().len() == self.spec_nodes().len(),
            forall|i: int|
                0 <= i < g.spec_nodes().len() ==> (#[trigger] g.spec_nodes()[i]).name@ == indexed_name(i as nat)
                    && g.spec_nodes()[i].actions == self.spec_nodes()[i].actions,
            g.spec_edges() == self.spec_edges(),
    {
        let mut g = self;
        let n = g.node_count();
        for i in 0..n
            invariant
                n == self.spec_nodes().len(),
                g.spec_nodes().len() == n,
                n <= u32::MAX,
                g.spec_edges() == self.spec_edges(),
                forall|j: int|
                    0 <= j < n ==> (#[trigger] g.spec_nodes()[j]).actions == self.spec_nodes()[j].actions,
                forall|j: int| 0 <= j < i ==> (#[trigger] g.spec_nodes()[j]).name@ == indexed_name(j as nat),
        {
            let name = indexed_name_string(i);
            graph_set_node_name(&mut g.0, i, name);
        }
        g
    }

    /// Checks that the registry holds the type of every action of the graph;
    /// otherwise reports the first action type it lacks.
    fn get_checked_type_registry(&self, registry: TypeRegistry) -> (r: Result<TypeRegistry, GraphError>)
        requires
            self.wf(),
        ensures
            r matches Ok(reg) ==> reg == registry,
            r is Ok <==> all_registered(all_actions(self.spec_nodes()), registry.types@),
            r matches Err(e) ==> e matches GraphError::TypeNotRegistered(key) && first_unregistered(
                all_actions(self.spec_nodes()),
                registry.types@,
                key,
            ),
    {
        let ghost nodes = self.spec_nodes();
        let ghost reg = registry.types@;
        let n = self.node_count();
        for i in 0..n
            invariant
                n == nodes.len(),
                n <= u32::MAX,
                nodes == self.spec_nodes(),
                reg == registry.types@,
                all_registered(all_actions(nodes.take(i as int)), reg),
        {
            let node = self.node(i);
            let ghost before = all_actions(nodes.take(i as int));
            proof {
                assert(nodes.take(i + 1).drop_last() == nodes.take(i as int));
                assert(nodes.take(i + 1).last() == nodes[i as int]);
            }
            let m = node.actions.len();
            for a in 0..m
                invariant
                    m == node.actions@.len(),
                    i < n,
                    n == nodes.len(),
                    nodes == self.spec_nodes(),
                    reg == registry.types@,
                    *node == nodes[i as int],
                    before == all_actions(nodes.take(i as int)),
                    all_actions(nodes.take(i + 1)) == before + node.actions@,
                    all_registered(before, reg),
                    all_registered(node.actions@.take(a as int), reg),
            {
                let key = node.actions[a];
                if !registry.contains(key) {
                    proof {
                        let acts = node.actions@;
                        lemma_all_actions_prefix(nodes, i + 1);
                        let all = all_actions(nodes);
                        let pre = before + acts;
                        let j = before.len() + a;
                        assert(pre[j] == key);
                        assert(all[j] == pre[j]);
                        assert forall|k: int| 0 <= k < j implies reg.contains(#[trigger] all[k]) by {
                            assert(all[k] == pre[k]);
                            if k < before.len() {
                                assert(pre[k] == before[k]);
                                assert(reg.contains(before[k]));
                            } else {
                                assert(pre[k] == acts.take(a as int)[k - before.len()]);
                                assert(reg.contains(acts.take(a as int)[k - before.len()]));
                            }
                        }
                        assert(first_unregistered(all, reg, key));
                    }
                    return Err(GraphError::TypeNotRegistered(key));
                }
                proof {
                    let acts = node.actions@;
                    assert forall|k: int| 0 <= k < a + 1 implies reg.contains(#[trigger] acts.take(a + 1)[k]) by {
                        if k < a {
                            assert(acts.take(a + 1)[k] == acts.take(a as int)[k]);
                        }
                    }
                }
            }
            proof {
                let acts = node.actions@;
                let pre = before + acts;
                assert(acts.take(m as int) == acts);
                assert forall|j: int| 0 <= j < pre.len() implies reg.contains(#[trigger] pre[j]) by {
                    if j < before.len() {
                        assert(pre[j] == before[j]);
                    } else {
                        assert(pre[j] == acts[j - before.len()]);
                    }
                }
            }
        }
        assert(nodes.take(n as int) == nodes);
        Ok(registry)
    }

    /// Turns the graph into a prefab: it needs a root node, and the registry
    /// must hold the type of every action of the graph.
    pub fn into_prefab(self, registry: TypeRegistry) -> (r: Result<BehaviorGraphPrefab, GraphError>)
        requires
            self.wf(),
        ensures
            self.spec_nodes().len() == 0 <==> r == Err::<BehaviorGraphPrefab, GraphError>(GraphError::NoRootEntity),
            r matches Ok(p) ==> p.spec_graph() == self && p.spec_registry() == registry,
            self.spec_nodes().len() > 0 ==> (r is Ok <==> all_registered(
                all_actions(self.spec_nodes()),
                registry.types@,
            )),
            r matches Err(GraphError::TypeNotRegistered(key)) ==> self.spec_nodes().len() > 0
                && first_unregistered(all_actions(self.spec_nodes()), registry.types@, key),
    {
        if self.node_count() == 0 {
            return Err(GraphError::NoRootEntity);
        }
        match self.get_checked_type_registry(registry) {
            Ok(registry) => Ok(BehaviorGraphPrefab { graph: self, registry }),
            Err(e) => Err(e),
        }
    }
}

impl Default for WillyBehaviorGraph {
    fn default() -> (g: Self)
        ensures
            g.spec_nodes() == Seq::<WillyBehaviorNode>::empty(),
            g.spec_edges() == Seq::<(usize, usize)>::empty(),
    {
        WillyBehaviorGraph::new()
    }
}

/// The actions of a prefix of the nodes are a prefix of all the actions.
proof fn lemma_all_actions_prefix(nodes: Seq<WillyBehaviorNode>, i: int)
    requires
        0 <= i <= nodes.len(),
    ensures
        all_actions(nodes.take(i)).len() <= all_actions(nodes).len(),
        forall|j: int|
            0 <= j < all_actions(nodes.take(i)).len() ==> #[trigger] all_actions(nodes.take(i))[j]
                == all_actions(nodes)[j],
    decreases nodes.len() - i,
{
    if i < nodes.len() {
        lemma_all_actions_prefix(nodes, i + 1);
        assert(nodes.take(i + 1).drop_last() == nodes.take(i));
        let a = all_actions(nodes.take(i));
        let b = all_actions(nodes.take(i + 1));
        assert(b == a + nodes[i].actions@);
        assert forall|j: int| 0 <= j < a.len() implies #[trigger] a[j] == all_actions(nodes)[j] by {
            assert(a[j] == b[j]);
        }
    } else {
        assert(nodes.take(i) == nodes);
    }
}

} // verus!
