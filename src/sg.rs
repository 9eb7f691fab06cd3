//! Scene graph: a tree of nodes, each holding data and properties, with
//! identifiers handed out in creation order (the root is `0`).

use vstd::prelude::*;

verus! {

/// Identifier of a node within its graph.
pub type SceneId = u64;

/// A node: its data and properties, its parent and its children.
pub struct Node<T, P> {
    parent: Option<SceneId>,
    pub data: T,
    pub props: P,
    children: Vec<SceneId>,
}

impl<T, P> Node<T, P> {
    /// The parent's identifier; `None` for the root.
    pub closed spec fn parent_id(&self) -> Option<SceneId> {
        self.parent
    }

    pub closed spec fn node_data(&self) -> T {
        self.data
    }

    pub closed spec fn node_props(&self) -> P {
        self.props
    }

    /// The children's identifiers, in the order they were added.
    pub closed spec fn child_ids(&self) -> Seq<SceneId> {
        self.children@
    }

    pub fn parent(&self) -> (r: Option<SceneId>)
        ensures
            r == self.parent_id(),
    {
        self.parent
    }

    pub fn children(&self) -> (r: &[SceneId])
        ensures
            r@ == self.child_ids(),
    {
        self.children.as_slice()
    }
}

/// The graph: its nodes, indexed by identifier.
pub struct SceneGraph<T, P> {
    nodes: Vec<Node<T, P>>,
}

impl<T, P> SceneGraph<T, P> {
    pub closed spec fn nodes(&self) -> Seq<Node<T, P>> {
        self.nodes@
    }

    /// There is a root without parent; every other node's parent was created
    /// before it; each child listed by a node has that node as its parent.
    pub closed spec fn wf(&self) -> bool {
        &&& self.nodes@.len() >= 1
        &&& self.nodes@[0].parent is None
        &&& forall|i: int|
            0 < i < self.nodes@.len() ==> ((#[trigger] self.nodes@[i]).parent matches Some(p) && p < i)
        &&& forall|i: int, k: int|
            0 <= i < self.nodes@.len() && 0 <= k < self.nodes@[i].children@.len() ==> {
                let c = #[trigger] self.nodes@[i].children@[k];
                &&& c < self.nodes@.len()
                &&& self.nodes@[c as int].parent == Some(i as SceneId)
            }
    }

    /// A graph with only a root, holding `root` and `props`.
    pub fn new_with_props(root: T, props: P) -> (r: SceneGraph<T, P>)
        ensures
            r.wf(),
            r.nodes().len() == 1,
            r.nodes()[0].node_data() == root,
            r.nodes()[0].node_props() == props,
            r.nodes()[0].child_ids() == Seq::<SceneId>::empty(),
    {
        let mut nodes: Vec<Node<T, P>> = Vec::new();
        nodes.push(Node { parent: None, data: root, props, children: Vec::new() });
        SceneGraph { nodes }
    }

    /// The root node.
    pub fn root(&self) -> (r: &Node<T, P>)
        requires
            self.wf(),
        ensures
            *r == self.nodes()[0],
    {
        &self.nodes[0]
    }

    /// The node `id`, if the graph has one.
    pub fn node(&self, id: SceneId) -> (r: Option<&Node<T, P>>)
        ensures
            id < self.nodes().len() ==> r == Some(&self.nodes()[id as int]),
            id >= self.nodes().len() ==> r is None,
    {
        if id < self.nodes.len() as u64 {
            Some(&self.nodes[id as usize])
        } else {
            None
        }
    }

    /// The properties of node `id`, to change in place.
    pub fn props_mut(&mut self, id: SceneId) -> (r: &mut P)
        requires
            id < old(self).nodes().len(),
        ensures
            *r == old(self).nodes()[id as int].node_props(),
            final(self).nodes().len() == old(self).nodes().len(),
            final(self).nodes()[id as int].node_props() == *final(r),
            final(self).nodes()[id as int].node_data() == old(self).nodes()[id as int].node_data(),
            final(self).nodes()[id as int].parent_id() == old(self).nodes()[id as int].parent_id(),
            final(self).nodes()[id as int].child_ids() == old(self).nodes()[id as int].child_ids(),
            forall|i: int| 0 <= i < old(self).nodes().len() && i != id ==> final(self).nodes()[i] == old(self).nodes()[i],
            old(self).wf() ==> final(self).wf(),
    {
        let n = self.nodes.len();
        assert(id < n);
        let i = id as usize;
        &mut self.nodes[i].props
    }

    /// The data of node `id`, to change in place.
    pub fn data_mut(&mut self, id: SceneId) -> (r: &mut T)
        requires
            id < old(self).nodes().len(),
        ensures
            *r == old(self).nodes()[id as int].node_data(),
            final(self).nodes().len() == old(self).nodes().len(),
            final(self).nodes()[id as int].node_data() == *final(r),
            final(self).nodes()[id as int].node_props() == old(self).nodes()[id as int].node_props(),
            final(self).nodes()[id as int].parent_id() == old(self).nodes()[id as int].parent_id(),
            final(self).nodes()[id as int].child_ids() == old(self).nodes()[id as int].child_ids(),
            forall|i: int| 0 <= i < old(self).nodes().len() && i != id ==> final(self).nodes()[i] == old(self).nodes()[i],
            old(self).wf() ==> final(self).wf(),
    {
        let n = self.nodes.len();
        assert(id < n);
        let i = id as usize;
        &mut self.nodes[i].data
    }

    /// Adds a child holding `data` and `props` under node `parent`, as its
    /// last child, and returns the child's identifier: the next one in
    /// creation order.
    pub fn push_with_props(&mut self, parent: SceneId, data: T, props: P) -> (r: SceneId)
        requires
            old(self).wf(),
            parent < old(self).nodes().len(),
            old(self).nodes().len() < u64::MAX,
        ensures
            final(self).wf(),
            r == old(self).nodes().len(),
            final(self).nodes().len() == old(self).nodes().len() + 1,
            final(self).nodes()[r as int].node_data() == data,
            final(self).nodes()[r as int].node_props() == props,
            final(self).nodes()[r as int].parent_id() == Some(parent),
            final(self).nodes()[r as int].child_ids() == Seq::<SceneId>::empty(),
            final(self).nodes()[parent as int].child_ids() == old(self).nodes()[parent as int].child_ids().push(r),
            final(self).nodes()[parent as int].node_data() == old(self).nodes()[parent as int].node_data(),
            final(self).nodes()[parent as int].node_props() == old(self).nodes()[parent as int].node_props(),
            final(self).nodes()[parent as int].parent_id() == old(self).nodes()[parent as int].parent_id(),
            forall|i: int|
                0 <= i < old(self).nodes().len() && i != parent ==> final(self).nodes()[i] == old(self).nodes()[i],
    {
        let id = self.nodes.len() as u64;
        self.nodes.push(Node { parent: Some(parent), data, props, children: Vec::new() });
        self.nodes[parent as usize].children.push(id);
        proof {
            let n = self.nodes@;
            assert forall|i: int, k: int|
                0 <= i < n.len() && 0 <= k < n[i].children@.len() implies {
                    let c = #[trigger] n[i].children@[k];
                    &&& c < n.len()
                    &&& n[c as int].parent == Some(i as SceneId)
                } by {
                if i == parent && k == n[i].children@.len() - 1 {
                    assert(n[i].children@[k] == id);
                } else {
                    assert(n[i].children@[k] == old(self).nodes@[i].children@[k]);
                }
            }
        }
        id
    }
}

impl<T, P: Default> SceneGraph<T, P> {
    /// A graph with only a root, holding `root` and default properties.
    pub fn new(root: T) -> (r: SceneGraph<T, P>)
        ensures
            r.wf(),
            r.nodes().len() == 1,
            r.nodes()[0].node_data() == root,
            call_ensures(P::default, (), r.nodes()[0].node_props()),
            r.nodes()[0].child_ids() == Seq::<SceneId>::empty(),
    {
        SceneGraph::new_with_props(root, P::default())
    }

    /// Adds a child holding `data` and default properties under `parent`.
    pub fn push(&mut self, parent: SceneId, data: T) -> (r: SceneId)
        requires
            old(self).wf(),
            parent < old(self).nodes().len(),
            old(self).nodes().len() < u64::MAX,
        ensures
            final(self).wf(),
            r == old(self).nodes().len(),
            final(self).nodes().len() == old(self).nodes().len() + 1,
            final(self).nodes()[r as int].node_data() == data,
            call_ensures(P::default, (), final(self).nodes()[r as int].node_props()),
            final(self).nodes()[r as int].parent_id() == Some(parent),
            final(self).nodes()[r as int].child_ids() == Seq::<SceneId>::empty(),
            final(self).nodes()[parent as int].child_ids() == old(self).nodes()[parent as int].child_ids().push(r),
            final(self).nodes()[parent as int].node_data() == old(self).nodes()[parent as int].node_data(),
            final(self).nodes()[parent as int].node_props() == old(self).nodes()[parent as int].node_props(),
            final(self).nodes()[parent as int].parent_id() == old(self).nodes()[parent as int].parent_id(),
            forall|i: int|
                0 <= i < old(self).nodes().len() && i != parent ==> final(self).nodes()[i] == old(self).nodes()[i],
    {
        self.push_with_props(parent, data, P::default())
    }
}

} // verus!
