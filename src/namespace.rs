use vstd::prelude::*;
use crate::error::EngineError;
use crate::names::{file_stem, namespace_name, stem_of, is_identifier};

verus! {

/// What a name in the namespace graph stands for.
#[derive(PartialEq, Eq, Structural, Clone, Copy, Debug)]
pub enum NodeKind {
    /// A nested namespace object; a directory on disk.
    Namespace,
    /// A constructible factory; a module file on disk.
    Factory,
}

/// One name in the graph. Node 0 is the root (the global object); every
/// other node hangs under an earlier namespace node.
pub struct Node {
    pub parent: usize,
    pub name: String,
    pub kind: NodeKind,
}

pub struct NodeView {
    pub parent: nat,
    pub name: Seq<char>,
    pub kind: NodeKind,
}

impl View for Node {
    type V = NodeView;

    open spec fn view(&self) -> NodeView {
        NodeView { parent: self.parent as nat, name: self.name@, kind: self.kind }
    }
}

/// The namespace graph that the loader builds, kept as an arena of nodes and
/// mirrored into the script-visible global object.
pub struct NamespaceGraph {
    pub nodes: Vec<Node>,
}

impl View for NamespaceGraph {
    type V = Seq<NodeView>;

    open spec fn view(&self) -> Seq<NodeView> {
        self.nodes@.map_values(|n: Node| n@)
    }
}

pub open spec fn root_view() -> NodeView {
    NodeView { parent: 0, name: Seq::empty(), kind: NodeKind::Namespace }
}

/// Some node other than the root is called `name` under `parent`.
pub open spec fn has_child(g: Seq<NodeView>, parent: nat, name: Seq<char>) -> bool {
    exists|i: int| 1 <= i < g.len() && g[i].parent == parent && #[trigger] g[i].name == name
}

/// The root is a namespace, each node hangs under an earlier namespace, and
/// siblings have distinct names.
pub open spec fn graph_wf(g: Seq<NodeView>) -> bool {
    &&& g.len() >= 1
    &&& g[0].kind == NodeKind::Namespace
    &&& forall|i: int|
        1 <= i < g.len() ==> #[trigger] g[i].parent < i && g[g[i].parent as int].kind
            == NodeKind::Namespace
    &&& forall|i: int, j: int|
        #![trigger g[i], g[j]]
        1 <= i < j < g.len() && g[i].parent == g[j].parent ==> g[i].name != g[j].name
}

/// One entry of a directory listing. `dir` is the node that holds it: 0 for
/// the root directory, `k + 1` for the directory listed at position `k`.
pub struct ListedEntry {
    pub dir: usize,
    pub file_name: String,
    pub is_dir: bool,
}

pub struct ListedEntryView {
    pub dir: nat,
    pub file_name: Seq<char>,
    pub is_dir: bool,
}

impl View for ListedEntry {
    type V = ListedEntryView;

    open spec fn view(&self) -> ListedEntryView {
        ListedEntryView { dir: self.dir as nat, file_name: self.file_name@, is_dir: self.is_dir }
    }
}

pub open spec fn listing_view(l: Seq<ListedEntry>) -> Seq<ListedEntryView> {
    l.map_values(|e: ListedEntry| e@)
}

/// Each entry sits in the root or in a directory listed before it.
pub open spec fn listing_wf(l: Seq<ListedEntryView>) -> bool {
    forall|k: int|
        0 <= k < l.len() ==> #[trigger] l[k].dir <= k && (l[k].dir == 0 || l[l[k].dir - 1].is_dir)
}

pub open spec fn kind_of(is_dir: bool) -> NodeKind {
    if is_dir {
        NodeKind::Namespace
    } else {
        NodeKind::Factory
    }
}

/// The node that a listed entry becomes.
pub open spec fn entry_node(e: ListedEntryView) -> NodeView {
    NodeView { parent: e.dir, name: stem_of(e.file_name), kind: kind_of(e.is_dir) }
}

/// Why a load stopped, by the position of the entry at fault.
pub enum LoadFailure {
    InvalidName(int),
    Duplicate(int),
}

/// The graph after loading the first `n` entries of a listing, in order.
pub open spec fn load_prefix(l: Seq<ListedEntryView>, n: nat) -> Result<Seq<NodeView>, LoadFailure>
    decreases n,
{
    if n == 0 {
        Ok(seq![root_view()])
    } else {
        match load_prefix(l, (n - 1) as nat) {
            Err(f) => Err(f),
            Ok(g) => {
                let e = l[n - 1];
                if e.is_dir && !is_identifier(stem_of(e.file_name)) {
                    Err(LoadFailure::InvalidName(n - 1))
                } else if has_child(g, e.dir, stem_of(e.file_name)) {
                    Err(LoadFailure::Duplicate(n - 1))
                } else {
                    Ok(g.push(entry_node(e)))
                }
            },
        }
    }
}

pub open spec fn load_all(l: Seq<ListedEntryView>) -> Result<Seq<NodeView>, LoadFailure> {
    load_prefix(l, l.len())
}

/// The error that `load_listing` reports for a failure.
pub open spec fn reports(e: EngineError, f: LoadFailure, l: Seq<ListedEntryView>) -> bool {
    match f {
        LoadFailure::InvalidName(k) => e matches EngineError::InvalidNamespaceName(s) && s@
            == l[k].file_name,
        LoadFailure::Duplicate(k) => e matches EngineError::DuplicateNamespaceEntry(s) && s@
            == stem_of(l[k].file_name),
    }
}

/// A successful load of a well-formed listing yields a well-formed graph in
/// which node `k + 1` is the `k`-th entry.
proof fn lemma_load_prefix(l: Seq<ListedEntryView>, n: nat)
    requires
        listing_wf(l),
        n <= l.len(),
    ensures
        load_prefix(l, n) matches Ok(g) ==> {
            &&& graph_wf(g)
            &&& g.len() == n + 1
            &&& g[0] == root_view()
            &&& forall|k: int| 0 <= k < n ==> #[trigger] g[k + 1] == entry_node(l[k])
        },
    decreases n,
{
    if n > 0 {
        lemma_load_prefix(l, (n - 1) as nat);
        if let Ok(g0) = load_prefix(l, (n - 1) as nat) {
            let e = l[n - 1];
            if !(e.is_dir && !is_identifier(stem_of(e.file_name))) && !has_child(
                g0,
                e.dir,
                stem_of(e.file_name),
            ) {
                let g = g0.push(entry_node(e));
                assert(l[n - 1].dir <= n - 1);
                if e.dir > 0 {
                    let k = e.dir - 1;
                    assert(g0[k + 1] == entry_node(l[k]));
                }
                assert forall|i: int, j: int|
                    #![trigger g[i], g[j]]
                    1 <= i < j < g.len() && g[i].parent == g[j].parent implies g[i].name
                    != g[j].name by {
                    if j == g.len() - 1 {
                        assert(g[i] == g0[i]);
                    }
                }
                assert forall|k: int| 0 <= k < n implies #[trigger] g[k + 1] == entry_node(
                    l[k],
                ) by {
                    if k < n - 1 {
                        assert(g[k + 1] == g0[k + 1]);
                    }
                }
            }
        }
    }
}

/// Loading a well-formed listing is a function of the listing alone: any two
/// loads of it succeed or fail together, and when they succeed they give the
/// same names, the same nesting and the same namespace/factory split, with
/// node `k + 1` standing for the `k`-th entry.
pub proof fn lemma_load_isomorphic(l: Seq<ListedEntryView>, g1: Seq<NodeView>, g2: Seq<NodeView>)
    requires
        listing_wf(l),
        load_all(l) == Ok::<Seq<NodeView>, LoadFailure>(g1),
        load_all(l) == Ok::<Seq<NodeView>, LoadFailure>(g2),
    ensures
        g1 == g2,
        graph_wf(g1),
        g1.len() == l.len() + 1,
        forall|k: int| 0 <= k < l.len() ==> #[trigger] g1[k + 1] == entry_node(l[k]),
{
    lemma_load_prefix(l, l.len());
}

/// The dotted path of node `i` from the root, as script code writes it.
pub open spec fn path_of(g: Seq<NodeView>, i: int) -> Seq<char>
    decreases i,
{
    if i <= 0 || i >= g.len() || g[i].parent >= i {
        Seq::empty()
    } else if g[i].parent == 0 {
        g[i].name
    } else {
        path_of(g, g[i].parent as int) + seq!['.'] + g[i].name
    }
}

impl NamespaceGraph {
    /// The dotted path of a node below the root, e.g. `ns.b`.
    pub fn qualified_name(&self, i: usize) -> (r: String)
        requires
            graph_wf(self@),
            1 <= i < self@.len(),
        ensures
            r@ == path_of(self@, i as int),
        decreases i,
    {
        let node = &self.nodes[i];
        assert(self@[i as int] == node@);
        assert(self@[i as int].parent < i);
        if node.parent == 0 {
            node.name.clone()
        } else {
            let mut p = self.qualified_name(node.parent);
            proof {
                reveal_strlit(".");
            }
            p.append(".");
            p.append(node.name.as_str());
            p
        }
    }

    /// A graph holding only the root namespace.
    pub fn new() -> (r: Self)
        ensures
            r@ == seq![root_view()],
            graph_wf(r@),
    {
        let mut nodes: Vec<Node> = Vec::new();
        nodes.push(Node { parent: 0, name: String::new(), kind: NodeKind::Namespace });
        let r = NamespaceGraph { nodes };
        assert(r@ =~= seq![root_view()]);
        r
    }

    /// The node called `name` under `parent`, if there is one.
    pub fn find_child(&self, parent: usize, name: &String) -> (r: Option<usize>)
        ensures
            r is None <==> !has_child(self@, parent as nat, name@),
            r matches Some(i) ==> 1 <= i < self@.len() && self@[i as int].parent == parent
                && self@[i as int].name == name@,
    {
        let n = self.nodes.len();
        let mut i: usize = 1;
        while i < n
            invariant
                n == self.nodes@.len(),
                1 <= i <= n || n == 0,
                forall|k: int| 1 <= k < i ==> !(#[trigger] self@[k].parent == parent as nat
                    && self@[k].name == name@),
            decreases n - i,
        {
            let node = &self.nodes[i];
            assert(self@[i as int] == node@);
            if node.parent == parent && node.name == *name {
                assert(self@[i as int].name == name@);
                assert(has_child(self@, parent as nat, name@));
                return Some(i);
            }
            i = i + 1;
        }
        proof {
            if has_child(self@, parent as nat, name@) {
                let k = choose|k: int|
                    1 <= k < self@.len() && self@[k].parent == parent && #[trigger] self@[k].name
                        == name@;
                assert(!(self@[k].parent == parent as nat && self@[k].name == name@));
            }
        }
        None
    }

    /// Hangs `name` under the namespace `parent`; a sibling of the same name
    /// is an error and leaves the graph as it was.
    pub fn attach(&mut self, parent: usize, name: String, kind: NodeKind) -> (r: Result<
        usize,
        EngineError,
    >)
        requires
            graph_wf(old(self)@),
            parent < old(self)@.len(),
            old(self)@[parent as int].kind == NodeKind::Namespace,
        ensures
            graph_wf(final(self)@),
            has_child(old(self)@, parent as nat, name@) ==> (r matches Err(
                EngineError::DuplicateNamespaceEntry(s),
            ) && s@ == name@ && final(self)@ == old(self)@),
            !has_child(old(self)@, parent as nat, name@) ==> r == Ok::<usize, EngineError>(
                old(self)@.len() as usize,
            ) && final(self)@ == old(self)@.push(
                NodeView { parent: parent as nat, name: name@, kind },
            ),
    {
        match self.find_child(parent, &name) {
            Some(_) => Err(EngineError::DuplicateNamespaceEntry(name)),
            None => {
                let idx = self.nodes.len();
                let ghost g0 = self@;
                self.nodes.push(Node { parent, name, kind });
                proof {
                    let g = self@;
                    assert(g =~= g0.push(NodeView { parent: parent as nat, name: g[idx as int].name, kind }));
                    assert forall|i: int, j: int|
                        #![trigger g[i], g[j]]
                        1 <= i < j < g.len() && g[i].parent == g[j].parent implies g[i].name
                        != g[j].name by {
                        if j == idx {
                            assert(g[i] == g0[i]);
                        }
                    }
                }
                Ok(idx)
            },
        }
    }

    /// Adds the entry `file_name` of the directory `parent`: a directory
    /// becomes a namespace named by its stem, which must be an identifier; a
    /// file becomes a factory named by its stem.
    pub fn add_entry(&mut self, parent: usize, file_name: &String, is_dir: bool) -> (r: Result<
        usize,
        EngineError,
    >)
        requires
            graph_wf(old(self)@),
            parent < old(self)@.len(),
            old(self)@[parent as int].kind == NodeKind::Namespace,
        ensures
            graph_wf(final(self)@),
            is_dir && !is_identifier(stem_of(file_name@)) ==> (r matches Err(
                EngineError::InvalidNamespaceName(s),
            ) && s@ == file_name@ && final(self)@ == old(self)@),
            !(is_dir && !is_identifier(stem_of(file_name@))) && has_child(
                old(self)@,
                parent as nat,
                stem_of(file_name@),
            ) ==> (r matches Err(EngineError::DuplicateNamespaceEntry(s)) && s@ == stem_of(
                file_name@,
            ) && final(self)@ == old(self)@),
            !(is_dir && !is_identifier(stem_of(file_name@))) && !has_child(
                old(self)@,
                parent as nat,
                stem_of(file_name@),
            ) ==> r == Ok::<usize, EngineError>(old(self)@.len() as usize) && final(self)@
                == old(self)@.push(
                NodeView { parent: parent as nat, name: stem_of(file_name@), kind: kind_of(is_dir) },
            ),
    {
        if is_dir {
            let name = namespace_name(file_name.as_str())?;
            self.attach(parent, name, NodeKind::Namespace)
        } else {
            let name = file_stem(file_name.as_str());
            self.attach(parent, name, NodeKind::Factory)
        }
    }

    /// Adds a module file whose compilation has already been tried: a failed
    /// compilation is handed back and the graph gets no entry for the file.
    pub fn add_factory(
        &mut self,
        parent: usize,
        file_name: &String,
        compiled: Result<(), EngineError>,
    ) -> (r: Result<usize, EngineError>)
        requires
            graph_wf(old(self)@),
            parent < old(self)@.len(),
            old(self)@[parent as int].kind == NodeKind::Namespace,
        ensures
            graph_wf(final(self)@),
            compiled matches Err(e) ==> r == Err::<usize, EngineError>(e) && final(self)@ == old(self)@,
            compiled is Ok && has_child(old(self)@, parent as nat, stem_of(file_name@)) ==> (
            r matches Err(EngineError::DuplicateNamespaceEntry(s)) && s@ == stem_of(file_name@)
                && final(self)@ == old(self)@),
            compiled is Ok && !has_child(old(self)@, parent as nat, stem_of(file_name@))
                ==> r == Ok::<usize, EngineError>(old(self)@.len() as usize) && final(self)@
                == old(self)@.push(
                NodeView { parent: parent as nat, name: stem_of(file_name@), kind: NodeKind::Factory },
            ),
    {
        match compiled {
            Err(e) => Err(e),
            Ok(()) => self.add_entry(parent, file_name, false),
        }
    }

    /// Loads a whole directory listing into a fresh graph, entry by entry,
    /// stopping at the first invalid name or collision.
    pub fn load_listing(listing: &Vec<ListedEntry>) -> (r: Result<NamespaceGraph, EngineError>)
        requires
            listing_wf(listing_view(listing@)),
        ensures
            load_all(listing_view(listing@)) matches Ok(g) ==> (r matches Ok(x) && x@ == g),
            load_all(listing_view(listing@)) matches Err(f) ==> (r matches Err(e) && reports(
                e,
                f,
                listing_view(listing@),
            )),
    {
        let ghost l = listing_view(listing@);
        let mut graph = NamespaceGraph::new();
        let n = listing.len();
        let mut i: usize = 0;
        while i < n
            invariant
                n == listing@.len(),
                l == listing_view(listing@),
                listing_wf(l),
                i <= n,
                load_prefix(l, i as nat) == Ok::<Seq<NodeView>, LoadFailure>(graph@),
            decreases n - i,
        {
            proof {
                lemma_load_prefix(l, i as nat);
            }
            let e = &listing[i];
            assert(l[i as int] == e@);
            assert(e.dir <= i);
            if e.dir > 0 {
                let ghost k = e.dir - 1;
                assert(graph@[k + 1] == entry_node(l[k]));
            }
            match graph.add_entry(e.dir, &e.file_name, e.is_dir) {
                Ok(_) => {},
                Err(err) => {
                    proof {
                        assert(load_prefix(l, (i + 1) as nat) == load_prefix(l, n as nat)) by {
                            lemma_failure_sticks(l, (i + 1) as nat, n as nat);
                        }
                    }
                    return Err(err);
                },
            }
            i = i + 1;
        }
        Ok(graph)
    }
}

proof fn lemma_failure_sticks(l: Seq<ListedEntryView>, m: nat, n: nat)
    requires
        m <= n,
        load_prefix(l, m) is Err,
    ensures
        load_prefix(l, n) == load_prefix(l, m),
    decreases n - m,
{
    if m < n {
        lemma_failure_sticks(l, m, (n - 1) as nat);
    }
}

} // verus!
