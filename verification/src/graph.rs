//! Pipeline graphs.
//!
//! Nodes are stored in registration order and connected by index. `N` is what a
//! node holds, `T` the tag of the packet type it puts out.
use vstd::prelude::*;

verus! {

/// Role of a node.
#[derive(Clone, Copy, Debug, PartialEq, Eq, Structural)]
pub enum NodeKind {
    Source,
    Processor,
    Sink,
}

/// A node with its type erased.
#[derive(Debug)]
pub struct ErasedNode<N, T> {
    pub name: String,
    pub output_type: T,
    pub kind: NodeKind,
    pub node: N,
}

/// A connection between two nodes.
#[derive(Clone, Copy, Debug, PartialEq, Eq, Structural)]
pub struct Edge {
    pub from_node: usize,
    pub from_pad: usize,
    pub to_node: usize,
}

/// What is wrong with a graph.
#[derive(Clone, Copy, Debug, PartialEq, Eq, Structural)]
pub struct MalformedGraph;

/// A pipeline graph under construction.
#[derive(Debug)]
pub struct PipelineGraph<N, T> {
    nodes: Vec<ErasedNode<N, T>>,
    edges: Vec<Edge>,
    /// Where the next node is connected.
    tail: usize,
}

/// The shape of a graph.
#[verifier::ext_equal]
pub struct GraphView<N, T> {
    pub nodes: Seq<ErasedNode<N, T>>,
    pub edges: Seq<Edge>,
    pub tail: int,
}

impl<N, T> GraphView<N, T> {
    /// Whether the first node alone is a source.
    pub open spec fn nodes_wf(self) -> bool {
        &&& self.nodes.len() > 0
        &&& self.nodes[0].kind == NodeKind::Source
        &&& forall|i: int|
            1 <= i < self.nodes.len() ==> (#[trigger] self.nodes[i]).kind != NodeKind::Source
    }

    /// Whether the edge into node `i + 1` comes from the first pad of an earlier
    /// node that puts something out.
    pub open spec fn edge_wf(self, i: int) -> bool {
        let e = self.edges[i];
        &&& e.to_node == i + 1
        &&& e.from_node <= i
        &&& e.from_pad == 0
        &&& self.nodes[e.from_node as int].kind != NodeKind::Sink
    }

    /// Whether the graph is a tree rooted at its source, whose sinks are leaves,
    /// and the tail a node that can be continued.
    pub open spec fn wf(self) -> bool {
        &&& self.nodes_wf()
        &&& self.edges.len() == self.nodes.len() - 1
        &&& forall|i: int| 0 <= i < self.edges.len() ==> #[trigger] self.edge_wf(i)
        &&& 0 <= self.tail < self.nodes.len()
        &&& self.nodes[self.tail].kind != NodeKind::Sink
    }

    /// The graph with a node connected behind node `from`.
    pub open spec fn appended(self, from: int, node: ErasedNode<N, T>) -> GraphView<N, T> {
        GraphView {
            nodes: self.nodes.push(node),
            edges: self.edges.push(
                Edge { from_node: from as usize, from_pad: 0, to_node: self.nodes.len() as usize },
            ),
            ..self
        }
    }

    /// The graph with another tail.
    pub open spec fn with_tail(self, tail: int) -> GraphView<N, T> {
        GraphView { tail, ..self }
    }
}

impl<N, T> View for PipelineGraph<N, T> {
    type V = GraphView<N, T>;

    closed spec fn view(&self) -> GraphView<N, T> {
        GraphView { nodes: self.nodes@, edges: self.edges@, tail: self.tail as int }
    }
}

/// Connecting a node behind one that can be continued keeps a graph well-formed.
pub proof fn lemma_append_keeps_wf<N, T>(g: GraphView<N, T>, from: int, node: ErasedNode<N, T>)
    requires
        g.wf(),
        0 <= from < g.nodes.len(),
        g.nodes[from].kind != NodeKind::Sink,
        node.kind != NodeKind::Source,
        g.nodes.len() <= usize::MAX,
    ensures
        g.appended(from, node).wf(),
{
    let h = g.appended(from, node);
    assert forall|i: int| 0 <= i < h.edges.len() implies #[trigger] h.edge_wf(i) by {
        if i < g.edges.len() {
            assert(g.edge_wf(i));
        }
    }
    assert forall|i: int| 1 <= i < h.nodes.len() implies (#[trigger] h.nodes[i]).kind
        != NodeKind::Source by {
        if i < g.nodes.len() {
            assert(g.nodes[i].kind != NodeKind::Source);
        }
    }
}

impl<N, T> PipelineGraph<N, T> {
    /// A graph of a source alone.
    pub fn new(source: N, output_type: T, name: String) -> (r: Self)
        ensures
            r@.wf(),
            r@ == (GraphView {
                nodes: seq![ErasedNode { name, output_type, kind: NodeKind::Source, node: source }],
                edges: Seq::empty(),
                tail: 0,
            }),
    {
        let mut nodes: Vec<ErasedNode<N, T>> = Vec::new();
        nodes.push(ErasedNode { name, output_type, kind: NodeKind::Source, node: source });
        let r = PipelineGraph { nodes, edges: Vec::new(), tail: 0 };
        assert(r@ =~= GraphView {
            nodes: seq![ErasedNode { name, output_type, kind: NodeKind::Source, node: source }],
            edges: Seq::empty(),
            tail: 0,
        });
        r
    }

    /// Connects a processor behind the tail, and makes it the tail. Returns its
    /// index.
    pub fn push_processor(&mut self, processor: N, output_type: T, name: String) -> (r: usize)
        requires
            old(self)@.wf(),
        ensures
            final(self)@.wf(),
            r == old(self)@.nodes.len(),
            final(self)@ == old(self)@.appended(
                old(self)@.tail,
                ErasedNode { name, output_type, kind: NodeKind::Processor, node: processor },
            ).with_tail(r as int),
    {
        let idx: usize = self.nodes.len();
        proof {
            lemma_append_keeps_wf(
                self@,
                self@.tail,
                ErasedNode { name, output_type, kind: NodeKind::Processor, node: processor },
            );
        }
        self.edges.push(Edge { from_node: self.tail, from_pad: 0, to_node: idx });
        self.nodes.push(
            ErasedNode { name, output_type, kind: NodeKind::Processor, node: processor },
        );
        self.tail = idx;
        assert(forall|i: int| 0 <= i < self@.edges.len() ==> #[trigger] self@.edge_wf(i)) by {
            let h = old(self)@.appended(
                old(self)@.tail,
                ErasedNode { name, output_type, kind: NodeKind::Processor, node: processor },
            );
            assert forall|i: int| 0 <= i < self@.edges.len() implies #[trigger] self@.edge_wf(
                i,
            ) by {
                assert(h.edge_wf(i));
            }
        }
        idx
    }

    /// Connects a sink behind the tail; the tail stays.
    pub fn push_sink(&mut self, sink: N, output_type: T, name: String)
        requires
            old(self)@.wf(),
        ensures
            final(self)@.wf(),
            final(self)@ == old(self)@.appended(
                old(self)@.tail,
                ErasedNode { name, output_type, kind: NodeKind::Sink, node: sink },
            ),
    {
        let idx: usize = self.nodes.len();
        proof {
            lemma_append_keeps_wf(
                self@,
                self@.tail,
                ErasedNode { name, output_type, kind: NodeKind::Sink, node: sink },
            );
        }
        self.edges.push(Edge { from_node: self.tail, from_pad: 0, to_node: idx });
        self.nodes.push(ErasedNode { name, output_type, kind: NodeKind::Sink, node: sink });
    }

    /// Checks that the graph is well-formed.
    pub fn validate(&self) -> (r: Result<(), MalformedGraph>)
        ensures
            r is Ok <==> self@.wf(),
    {
        if self.nodes.len() == 0 || self.edges.len() != self.nodes.len() - 1 || self.tail
            >= self.nodes.len() {
            return Err(MalformedGraph);
        }
        if !matches!(self.nodes[0].kind, NodeKind::Source) {
            return Err(MalformedGraph);
        }
        if matches!(self.nodes[self.tail].kind, NodeKind::Sink) {
            return Err(MalformedGraph);
        }
        let mut i: usize = 0;
        while i < self.edges.len()
            invariant
                i <= self.edges@.len(),
                self.edges@.len() == self.nodes@.len() - 1,
                self.nodes@.len() > 0,
                forall|k: int| 0 <= k < i ==> #[trigger] self@.edge_wf(k),
                forall|k: int|
                    1 <= k <= i ==> (#[trigger] self@.nodes[k]).kind != NodeKind::Source,
            decreases self.edges@.len() - i,
        {
            let e: Edge = self.edges[i];
            assert(self@.edges[i as int] == e);
            if e.to_node != i + 1 || e.from_node > i || e.from_pad != 0 {
                assert(!self@.edge_wf(i as int));
                return Err(MalformedGraph);
            }
            if matches!(self.nodes[e.from_node].kind, NodeKind::Sink) {
                assert(!self@.edge_wf(i as int));
                return Err(MalformedGraph);
            }
            assert(self@.edge_wf(i as int));
            if matches!(self.nodes[i + 1].kind, NodeKind::Source) {
                assert(self@.nodes[i + 1].kind == NodeKind::Source);
                return Err(MalformedGraph);
            }
            i = i + 1;
        }
        Ok(())
    }

    /// Number of nodes.
    pub fn node_count(&self) -> (r: usize)
        ensures
            r == self@.nodes.len(),
    {
        self.nodes.len()
    }

    /// The node at an index.
    pub fn node(&self, index: usize) -> (r: Option<&ErasedNode<N, T>>)
        ensures
            match r {
                Some(n) => index < self@.nodes.len() && *n == self@.nodes[index as int],
                None => index >= self@.nodes.len(),
            },
    {
        if index < self.nodes.len() {
            Some(&self.nodes[index])
        } else {
            None
        }
    }

    /// The nodes, in registration order.
    pub fn into_nodes(self) -> (r: Vec<ErasedNode<N, T>>)
        ensures
            r@ == self@.nodes,
    {
        self.nodes
    }

    /// The edges, in the order in which their nodes were added.
    pub fn edges(&self) -> (r: &[Edge])
        ensures
            r@ == self@.edges,
    {
        self.edges.as_slice()
    }
}

/// Builds the main chain of a graph.
#[derive(Debug)]
pub struct PipelineBuilder<N, T> {
    graph: PipelineGraph<N, T>,
}

/// Builds a branch of a graph. It keeps a tail of its own, so the main chain is
/// not moved.
#[derive(Debug)]
pub struct BranchBuilder<N, T> {
    graph: PipelineGraph<N, T>,
    branch_tail: usize,
}

impl<N, T> View for PipelineBuilder<N, T> {
    type V = GraphView<N, T>;

    closed spec fn view(&self) -> GraphView<N, T> {
        self.graph@
    }
}

impl<N, T> View for BranchBuilder<N, T> {
    type V = GraphView<N, T>;

    closed spec fn view(&self) -> GraphView<N, T> {
        self.graph@
    }
}

impl<N, T> PipelineBuilder<N, T> {
    /// Starts a pipeline with a source.
    pub fn new(source: N, output_type: T, name: String) -> (r: Self)
        ensures
            r@.wf(),
            r@ == (GraphView {
                nodes: seq![ErasedNode { name, output_type, kind: NodeKind::Source, node: source }],
                edges: Seq::empty(),
                tail: 0,
            }),
    {
        PipelineBuilder { graph: PipelineGraph::new(source, output_type, name) }
    }

    /// Appends a processor to the main chain.
    pub fn chain(self, processor: N, output_type: T, name: String) -> (r: Self)
        requires
            self@.wf(),
        ensures
            r@.wf(),
            r@ == self@.appended(
                self@.tail,
                ErasedNode { name, output_type, kind: NodeKind::Processor, node: processor },
            ).with_tail(self@.nodes.len() as int),
    {
        let mut graph = self.graph;
        let _ = graph.push_processor(processor, output_type, name);
        PipelineBuilder { graph }
    }

    /// Opens a branch at the current position.
    pub fn branch(self) -> (r: BranchBuilder<N, T>)
        requires
            self@.wf(),
        ensures
            r@ == self@,
            r.wf(),
            r.tail() == self@.tail,
    {
        let branch_tail: usize = self.graph.tail;
        BranchBuilder { graph: self.graph, branch_tail }
    }

    /// Ends the main chain with a sink.
    pub fn sink(self, sink: N, output_type: T, name: String) -> (r: PipelineGraph<N, T>)
        requires
            self@.wf(),
        ensures
            r@.wf(),
            r@ == self@.appended(
                self@.tail,
                ErasedNode { name, output_type, kind: NodeKind::Sink, node: sink },
            ),
    {
        let mut graph = self.graph;
        graph.push_sink(sink, output_type, name);
        graph
    }
}

impl<N, T> BranchBuilder<N, T> {
    /// Where the branch is continued.
    pub closed spec fn tail(&self) -> int {
        self.branch_tail as int
    }

    /// Whether the graph is well-formed and the branch can be continued.
    pub open spec fn wf(&self) -> bool {
        &&& self@.wf()
        &&& 0 <= self.tail() < self@.nodes.len()
        &&& self@.nodes[self.tail()].kind != NodeKind::Sink
    }

    /// Appends a processor to the branch.
    pub fn chain(self, processor: N, output_type: T, name: String) -> (r: Self)
        requires
            self.wf(),
        ensures
            r.wf(),
            r@ == self@.appended(
                self.tail(),
                ErasedNode { name, output_type, kind: NodeKind::Processor, node: processor },
            ),
            r.tail() == self@.nodes.len(),
    {
        let mut graph = self.graph;
        let saved_tail: usize = graph.tail;
        graph.tail = self.branch_tail;
        proof {
            lemma_tail_keeps_wf(self@, self.tail());
        }
        let idx: usize = graph.push_processor(processor, output_type, name);
        let ghost pushed = graph@;
        graph.tail = saved_tail;
        let r = BranchBuilder { graph, branch_tail: idx };
        proof {
            lemma_tail_keeps_wf(pushed, saved_tail as int);
        }
        r
    }

    /// Ends the branch with a sink and returns to the main chain, whose tail is
    /// where it was.
    pub fn sink(self, sink: N, output_type: T, name: String) -> (r: PipelineBuilder<N, T>)
        requires
            self.wf(),
        ensures
            r@.wf(),
            r@ == self@.appended(
                self.tail(),
                ErasedNode { name, output_type, kind: NodeKind::Sink, node: sink },
            ),
    {
        let mut graph = self.graph;
        let saved_tail: usize = graph.tail;
        graph.tail = self.branch_tail;
        proof {
            lemma_tail_keeps_wf(self@, self.tail());
        }
        graph.push_sink(sink, output_type, name);
        let ghost pushed = graph@;
        graph.tail = saved_tail;
        proof {
            lemma_tail_keeps_wf(pushed, saved_tail as int);
        }
        PipelineBuilder { graph }
    }
}

/// Moving the tail to a node that can be continued keeps a graph well-formed.
pub proof fn lemma_tail_keeps_wf<N, T>(g: GraphView<N, T>, tail: int)
    requires
        g.wf(),
        0 <= tail < g.nodes.len(),
        g.nodes[tail].kind != NodeKind::Sink,
    ensures
        g.with_tail(tail).wf(),
{
    let h = g.with_tail(tail);
    assert forall|i: int| 0 <= i < h.edges.len() implies #[trigger] h.edge_wf(i) by {
        assert(g.edge_wf(i));
    }
}

/// The node that a node is fed by; the source is fed by none and stands for
/// itself.
pub open spec fn feeder<N, T>(g: GraphView<N, T>, n: int) -> int {
    if 1 <= n < g.nodes.len() {
        g.edges[n - 1].from_node as int
    } else {
        n
    }
}

/// The source that a node is fed by in the end, going up by feeders.
pub open spec fn root<N, T>(g: GraphView<N, T>, n: int) -> int
    decreases n,
{
    if n <= 0 || !(0 <= feeder(g, n) < n) {
        n
    } else {
        root(g, feeder(g, n))
    }
}

/// Every node of a well-formed graph is reached from the source, and by one edge
/// only.
pub proof fn law_every_node_is_fed_once<N, T>(g: GraphView<N, T>, n: int)
    requires
        g.wf(),
        0 <= n < g.nodes.len(),
    ensures
        root(g, n) == 0,
        n > 0 ==> forall|i: int|
            0 <= i < g.edges.len() ==> ((#[trigger] g.edges[i]).to_node == n <==> i == n - 1),
    decreases n,
{
    if n > 0 {
        assert(g.edge_wf(n - 1));
        law_every_node_is_fed_once(g, feeder(g, n));
        assert forall|i: int| 0 <= i < g.edges.len() implies ((#[trigger] g.edges[i]).to_node == n
            <==> i == n - 1) by {
            assert(g.edge_wf(i));
        }
    }
}

/// Building only adds: the nodes and edges that were there stay in place, and a
/// branch leaves the tail of the main chain where it was.
pub proof fn law_branch_keeps_main_chain<N, T>(
    g: GraphView<N, T>,
    from: int,
    node: ErasedNode<N, T>,
)
    ensures
        g.appended(from, node).tail == g.tail,
        g.nodes.is_prefix_of(g.appended(from, node).nodes),
        g.edges.is_prefix_of(g.appended(from, node).edges),
{
    assert(g.appended(from, node).nodes.take(g.nodes.len() as int) =~= g.nodes);
    assert(g.appended(from, node).edges.take(g.edges.len() as int) =~= g.edges);
}

/// A node is connected by one edge, from the first pad of the node it stands behind, and
/// gets the next index.
pub proof fn law_append_connects<N, T>(g: GraphView<N, T>, from: usize, node: ErasedNode<N, T>)
    requires
        g.nodes.len() <= usize::MAX,
    ensures
        ({
            let h = g.appended(from as int, node);
            &&& h.nodes.len() == g.nodes.len() + 1
            &&& h.nodes.last() == node
            &&& h.edges.len() == g.edges.len() + 1
            &&& h.edges.last().from_node == from
            &&& h.edges.last().from_pad == 0
            &&& h.edges.last().to_node == g.nodes.len()
        }),
        g.with_tail(from as int).tail == from,
        g.with_tail(from as int).nodes == g.nodes && g.with_tail(from as int).edges == g.edges,
{
}

/// A graph that is accepted has one source, its first node; every edge leads from the
/// first pad of a node to one behind it, and none comes out of a sink.
pub proof fn law_accepted_graphs<N, T>(
    g: PipelineGraph<N, T>,
    r: Result<(), MalformedGraph>,
    i: int,
)
    requires
        call_ensures(PipelineGraph::<N, T>::validate, (&g,), r),
        r is Ok,
        0 <= i < g@.nodes.len(),
    ensures
        g@.nodes[i].kind == NodeKind::Source <==> i == 0,
        g@.edges.len() + 1 == g@.nodes.len(),
        i > 0 ==> {
            let e = g@.edges[i - 1];
            &&& e.to_node == i
            &&& e.from_node < i
            &&& e.from_pad == 0
            &&& g@.nodes[e.from_node as int].kind != NodeKind::Sink
        },
        g@.nodes[g@.tail].kind != NodeKind::Sink,
{
    if i > 0 {
        assert(g@.edge_wf(i - 1));
    }
}

} // verus!
