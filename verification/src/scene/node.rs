//! The node hierarchy of a scene.
//!
//! The nodes of a scene form a tree. A [`NodeTree`] owns all of them and
//! numbers them: the root is node 0, and every other node has a larger number
//! than its parent. A [`Node`] is a view of one node of a tree; it borrows
//! the tree.

use crate::math::Matrix4x4;
use crate::string::AiString;
use vstd::prelude::*;

verus! {

/// What a tree stores for one node.
struct NodeData {
    name: AiString,
    transformation: Matrix4x4,
    parent: Option<usize>,
    children: Vec<usize>,
    meshes: Vec<u32>,
}

/// The nodes of a scene.
pub struct NodeTree {
    nodes: Vec<NodeData>,
}

/// A node of a tree.
#[derive(Clone, Copy)]
pub struct Node<'a> {
    tree: &'a NodeTree,
    id: usize,
}

/// A cursor over the children of a node.
pub struct NodeIter<'a> {
    tree: &'a NodeTree,
    children: &'a [usize],
    idx: usize,
}

/// Whether node `i` of `nodes` is well formed: its name is text, its counts
/// fit in 32 bits, its parent comes before it and lists it as a child, and
/// its children come after it, in increasing order, each with this node as
/// its parent.
spec fn node_wf(nodes: Seq<NodeData>, i: int) -> bool {
    let d = nodes[i];
    &&& d.name.wf()
    &&& d.name.is_utf8()
    &&& d.children@.len() <= u32::MAX
    &&& d.meshes@.len() <= u32::MAX
    &&& i == 0 ==> d.parent is None
    &&& i > 0 ==> d.parent is Some && d.parent->0 < i && lists(
        nodes[d.parent->0 as int].children@,
        i,
    )
    &&& forall|k: int|
        0 <= k < d.children@.len() ==> i < #[trigger] d.children@[k] < nodes.len()
            && nodes[d.children@[k] as int].parent is Some
            && nodes[d.children@[k] as int].parent->0 == i
    &&& forall|j: int, k: int|
        0 <= j < k < d.children@.len() ==> #[trigger] d.children@[j] < #[trigger] d.children@[k]
}

/// Whether `children` names node `i`.
spec fn lists(children: Seq<usize>, i: int) -> bool {
    exists|w: int| 0 <= w < children.len() && #[trigger] children[w] == i
}

spec fn nodes_wf(nodes: Seq<NodeData>) -> bool {
    &&& nodes.len() >= 1
    &&& forall|i: int| 0 <= i < nodes.len() ==> #[trigger] node_wf(nodes, i)
}

/// Appends a node under `parent`.
fn attach(
    nodes: &mut Vec<NodeData>,
    parent: usize,
    name: AiString,
    transformation: Matrix4x4,
    meshes: Vec<u32>,
) -> (id: usize)
    requires
        nodes_wf(old(nodes)@),
        parent < old(nodes)@.len(),
        name.wf(),
        name.is_utf8(),
        meshes@.len() <= u32::MAX,
        old(nodes)@[parent as int].children@.len() < u32::MAX,
    ensures
        nodes_wf(final(nodes)@),
        id == old(nodes)@.len(),
        final(nodes)@.len() == old(nodes)@.len() + 1,
        final(nodes)@[id as int].name == name,
        final(nodes)@[id as int].transformation == transformation,
        final(nodes)@[id as int].parent == Some(parent),
        final(nodes)@[id as int].children@ == Seq::<usize>::empty(),
        final(nodes)@[id as int].meshes@ == meshes@,
        final(nodes)@[parent as int].children@ == old(nodes)@[parent as int].children@.push(id),
        forall|i: int|
            0 <= i < old(nodes)@.len() ==> {
                &&& (#[trigger] final(nodes)@[i]).name == old(nodes)@[i].name
                &&& final(nodes)@[i].transformation == old(nodes)@[i].transformation
                &&& final(nodes)@[i].parent == old(nodes)@[i].parent
                &&& final(nodes)@[i].meshes@ == old(nodes)@[i].meshes@
                &&& i != parent ==> final(nodes)@[i].children@ == old(nodes)@[i].children@
            },
{
    let id = nodes.len();
    let ghost before = nodes@;
    nodes.push(NodeData { name, transformation, parent: Some(parent), children: Vec::new(), meshes });
    nodes[parent].children.push(id);
    proof {
        let after = nodes@;
        let kids = before[parent as int].children@;
        assert forall|i: int| 0 <= i < after.len() implies #[trigger] node_wf(after, i) by {
            if i == id {
                assert(after[parent as int].children@[kids.len() as int] == i);
            } else {
                assert(node_wf(before, i));
                let d = before[i];
                if i > 0 {
                    let q = d.parent->0 as int;
                    let w = choose|w: int|
                        0 <= w < before[q].children@.len() && #[trigger] before[q].children@[w]
                            == i;
                    assert(after[q].children@[w] == i);
                }
            }
        }
    }
    id
}

impl NodeTree {
    /// Whether the tree is well formed. Every tree that the functions
    /// below give is.
    pub closed spec fn wf(&self) -> bool {
        nodes_wf(self.nodes@)
    }

    /// Number of nodes.
    pub closed spec fn size(&self) -> nat {
        self.nodes@.len()
    }

    /// The parent of node `i`; the root has none.
    pub closed spec fn parent_of(&self, i: int) -> Option<int> {
        match self.nodes@[i].parent {
            Some(p) => Some(p as int),
            None => None,
        }
    }

    /// The children of node `i`, in the order in which they were added.
    pub closed spec fn children_of(&self, i: int) -> Seq<int> {
        self.nodes@[i].children@.map_values(|c: usize| c as int)
    }

    /// The name of node `i`.
    pub closed spec fn name_of(&self, i: int) -> AiString {
        self.nodes@[i].name
    }

    /// The transformation of node `i` relative to its parent.
    pub closed spec fn transformation_of(&self, i: int) -> Matrix4x4 {
        self.nodes@[i].transformation
    }

    /// The meshes of node `i`, as indices into the meshes of the scene.
    pub closed spec fn meshes_of(&self, i: int) -> Seq<u32> {
        self.nodes@[i].meshes@
    }

    /// What makes the nodes a tree with node 0 at the root: only the root
    /// has no parent; the parent of a node comes before it and lists it
    /// among its children; the children of a node come after it, are listed
    /// once each, and have the node as their parent.
    pub open spec fn is_tree(&self) -> bool {
        &&& self.size() >= 1
        &&& forall|i: int|
            0 <= i < self.size() ==> {
                &&& (#[trigger] self.parent_of(i) is None <==> i == 0)
                &&& self.parent_of(i) is Some ==> 0 <= self.parent_of(i)->0 < i
                    && self.children_of(self.parent_of(i)->0).contains(i)
            }
        &&& forall|i: int, k: int|
            0 <= i < self.size() && 0 <= k < self.children_of(i).len() ==> {
                &&& i < (#[trigger] self.children_of(i)[k]) < self.size()
                &&& self.parent_of(self.children_of(i)[k]) == Some(i)
            }
        &&& forall|i: int, j: int, k: int|
            0 <= i < self.size() && 0 <= j < k < self.children_of(i).len() ==> (
            #[trigger] self.children_of(i)[j]) < (#[trigger] self.children_of(i)[k])
        &&& forall|i: int|
            0 <= i < self.size() ==> {
                &&& (#[trigger] self.name_of(i)).wf()
                &&& self.name_of(i).is_utf8()
            }
        &&& forall|i: int| 0 <= i < self.size() ==> (#[trigger] self.children_of(i)).len() <= u32::MAX
        &&& forall|i: int| 0 <= i < self.size() ==> (#[trigger] self.meshes_of(i)).len() <= u32::MAX
    }

    /// A well-formed tree is a tree.
    pub proof fn lemma_is_tree(&self)
        requires
            self.wf(),
        ensures
            self.is_tree(),
    {
        let nodes = self.nodes@;
        assert forall|i: int| 0 <= i < self.size() implies {
            &&& (#[trigger] self.parent_of(i) is None <==> i == 0)
            &&& self.parent_of(i) is Some ==> 0 <= self.parent_of(i)->0 < i && self.children_of(
                self.parent_of(i)->0,
            ).contains(i)
        } by {
            assert(node_wf(nodes, i));
            if i > 0 {
                let q = nodes[i].parent->0 as int;
                let w = choose|w: int|
                    0 <= w < nodes[q].children@.len() && #[trigger] nodes[q].children@[w] == i;
                assert(self.children_of(q)[w] == i);
            }
        }
        assert forall|i: int, k: int|
            0 <= i < self.size() && 0 <= k < self.children_of(i).len() implies {
            &&& i < (#[trigger] self.children_of(i)[k]) < self.size()
            &&& self.parent_of(self.children_of(i)[k]) == Some(i)
        } by {
            assert(node_wf(nodes, i));
        }
        assert forall|i: int, j: int, k: int|
            0 <= i < self.size() && 0 <= j < k < self.children_of(i).len() implies (
        #[trigger] self.children_of(i)[j]) < (#[trigger] self.children_of(i)[k]) by {
            assert(node_wf(nodes, i));
        }
        assert forall|i: int| 0 <= i < self.size() implies {
            &&& (#[trigger] self.name_of(i)).wf()
            &&& self.name_of(i).is_utf8()
        } by {
            assert(node_wf(nodes, i));
        }
        assert forall|i: int| 0 <= i < self.size() implies (#[trigger] self.children_of(i)).len()
            <= u32::MAX by {
            assert(node_wf(nodes, i));
        }
        assert forall|i: int| 0 <= i < self.size() implies (#[trigger] self.meshes_of(i)).len()
            <= u32::MAX by {
            assert(node_wf(nodes, i));
        }
    }

    /// A tree of one node, the root. Returns `None` when the name is not
    /// UTF-8 or the meshes are more than a 32-bit count can say.
    pub fn new(name: AiString, transformation: Matrix4x4, meshes: Vec<u32>) -> (r: Option<NodeTree>)
        ensures
            r is Some <==> name.is_utf8() && meshes@.len() <= u32::MAX,
            r is Some ==> {
                let t = r->0;
                &&& t.wf()
                &&& t.size() == 1
                &&& t.name_of(0) == name
                &&& t.transformation_of(0) == transformation
                &&& t.meshes_of(0) == meshes@
                &&& t.children_of(0) == Seq::<int>::empty()
                &&& t.parent_of(0) is None
            },
    {
        proof {
            use_type_invariant(&name);
        }
        if name.to_str().is_none() || meshes.len() > u32::MAX as usize {
            return None;
        }
        let mut nodes: Vec<NodeData> = Vec::new();
        nodes.push(NodeData { name, transformation, parent: None, children: Vec::new(), meshes });
        Some(NodeTree { nodes })
    }

    /// Whether a node with this name and these meshes can be added under
    /// `parent`: the parent is a node of the tree with room for one more
    /// child, the name is UTF-8, and the meshes are no more than a 32-bit
    /// count can say.
    pub open spec fn can_add(&self, parent: usize, name: AiString, meshes: Seq<u32>) -> bool {
        &&& parent < self.size()
        &&& self.children_of(parent as int).len() < u32::MAX
        &&& name.is_utf8()
        &&& meshes.len() <= u32::MAX
    }

    /// Adds a node as the last child of `parent` and returns its number, or
    /// returns `None` and leaves the tree as it is when the node cannot be
    /// added.
    pub fn add_child(
        &mut self,
        parent: usize,
        name: AiString,
        transformation: Matrix4x4,
        meshes: Vec<u32>,
    ) -> (r: Option<usize>)
        requires
            old(self).wf(),
        ensures
            final(self).wf(),
            r is Some <==> old(self).can_add(parent, name, meshes@),
            r is None ==> *final(self) == *old(self),
            r is Some ==> {
                let id = r->0 as int;
                &&& id == old(self).size()
                &&& final(self).size() == old(self).size() + 1
                &&& final(self).name_of(id) == name
                &&& final(self).transformation_of(id) == transformation
                &&& final(self).meshes_of(id) == meshes@
                &&& final(self).parent_of(id) == Some(parent as int)
                &&& final(self).children_of(id) == Seq::<int>::empty()
                &&& final(self).children_of(parent as int) == old(self).children_of(
                    parent as int,
                ).push(id)
                &&& forall|i: int|
                    0 <= i < old(self).size() ==> {
                        &&& #[trigger] final(self).name_of(i) == old(self).name_of(i)
                        &&& #[trigger] final(self).transformation_of(i) == old(
                            self,
                        ).transformation_of(i)
                        &&& #[trigger] final(self).meshes_of(i) == old(self).meshes_of(i)
                        &&& #[trigger] final(self).parent_of(i) == old(self).parent_of(i)
                        &&& i != parent ==> #[trigger] final(self).children_of(i) == old(
                            self,
                        ).children_of(i)
                    }
            },
    {
        proof {
            use_type_invariant(&name);
        }
        if parent >= self.nodes.len() {
            return None;
        }
        if self.nodes[parent].children.len() >= u32::MAX as usize {
            return None;
        }
        if name.to_str().is_none() || meshes.len() > u32::MAX as usize {
            return None;
        }
        let id = attach(&mut self.nodes, parent, name, transformation, meshes);
        proof {
            assert(self.children_of(parent as int) =~= old(self).children_of(parent as int).push(
                id as int,
            ));
        }
        Some(id)
    }

    /// Number of nodes.
    pub fn len(&self) -> (n: usize)
        ensures
            n == self.size(),
    {
        self.nodes.len()
    }

    /// The root of the tree.
    pub fn root(&self) -> (r: Node)
        requires
            self.wf(),
        ensures
            r.tree() == self,
            r.index() == 0,
    {
        Node { tree: self, id: 0 }
    }

    /// Node `id` of the tree, or `None` when the tree has no such node.
    pub fn node(&self, id: usize) -> (r: Option<Node>)
        requires
            self.wf(),
        ensures
            r is Some <==> id < self.size(),
            r is Some ==> r->0.tree() == self && r->0.index() == id,
    {
        if id < self.nodes.len() {
            Some(Node { tree: self, id })
        } else {
            None
        }
    }
}

impl<'a> Node<'a> {
    #[verifier::type_invariant]
    pub closed spec fn wf(&self) -> bool {
        self.id < self.tree.nodes@.len() && self.tree.wf()
    }

    /// The tree that the node belongs to.
    pub closed spec fn tree(&self) -> &'a NodeTree {
        self.tree
    }

    /// The number of the node in its tree.
    pub closed spec fn index(&self) -> int {
        self.id as int
    }

    /// The number of the node in its tree.
    pub fn id(&self) -> (r: usize)
        ensures
            r == self.index(),
            r < self.tree().size(),
    {
        proof {
            use_type_invariant(self);
        }
        self.id
    }

    /// The name of the node.
    pub fn name(&self) -> (r: &'a str)
        ensures
            r@ == self.tree().name_of(self.index())@,
    {
        proof {
            use_type_invariant(self);
            assert(node_wf(self.tree.nodes@, self.id as int));
        }
        self.tree.nodes[self.id].name.as_str()
    }

    /// The transformation of the node relative to its parent.
    pub fn transformation(&self) -> (r: Matrix4x4)
        ensures
            r == self.tree().transformation_of(self.index()),
    {
        proof {
            use_type_invariant(self);
        }
        self.tree.nodes[self.id].transformation
    }

    /// The parent of the node, or `None` when the node is the root.
    pub fn parent(&self) -> (r: Option<Node<'a>>)
        ensures
            r is None <==> self.index() == 0,
            r is Some <==> self.tree().parent_of(self.index()) is Some,
            r is Some ==> r->0.tree() == self.tree() && Some(r->0.index()) == self.tree().parent_of(
                self.index(),
            ),
    {
        proof {
            use_type_invariant(self);
            assert(node_wf(self.tree.nodes@, self.id as int));
        }
        match self.tree.nodes[self.id].parent {
            Some(p) => Some(Node { tree: self.tree, id: p }),
            None => None,
        }
    }

    /// Number of children of the node.
    pub fn num_children(&self) -> (n: u32)
        ensures
            n == self.tree().children_of(self.index()).len(),
    {
        proof {
            use_type_invariant(self);
            assert(node_wf(self.tree.nodes@, self.id as int));
        }
        self.tree.nodes[self.id].children.len() as u32
    }

    /// A cursor over the children of the node.
    pub fn child_iter(&self) -> (it: NodeIter<'a>)
        ensures
            it.tree() == self.tree(),
            it.remaining() == self.tree().children_of(self.index()),
    {
        proof {
            use_type_invariant(self);
            assert(node_wf(self.tree.nodes@, self.id as int));
        }
        NodeIter {
            tree: self.tree,
            children: self.tree.nodes[self.id].children.as_slice(),
            idx: 0,
        }
    }

    /// Number of meshes of the node.
    pub fn num_meshes(&self) -> (n: u32)
        ensures
            n == self.tree().meshes_of(self.index()).len(),
    {
        proof {
            use_type_invariant(self);
            assert(node_wf(self.tree.nodes@, self.id as int));
        }
        self.tree.nodes[self.id].meshes.len() as u32
    }

    /// The meshes of the node, as indices into the meshes of the scene.
    pub fn meshes(&self) -> (r: &'a [u32])
        ensures
            r@ == self.tree().meshes_of(self.index()),
    {
        proof {
            use_type_invariant(self);
        }
        self.tree.nodes[self.id].meshes.as_slice()
    }
}

impl<'a> NodeIter<'a> {
    #[verifier::type_invariant]
    pub closed spec fn wf(&self) -> bool {
        &&& self.tree.wf()
        &&& self.idx <= self.children@.len()
        &&& forall|k: int|
            0 <= k < self.children@.len() ==> #[trigger] self.children@[k] < self.tree.nodes@.len()
    }

    /// The tree whose nodes the cursor yields.
    pub closed spec fn tree(&self) -> &'a NodeTree {
        self.tree
    }

    /// The numbers of the nodes that the cursor has yet to yield, in order.
    pub closed spec fn remaining(&self) -> Seq<int> {
        self.children@.skip(self.idx as int).map_values(|c: usize| c as int)
    }

    /// Yields the front node and moves past it, or yields `None` at the end.
    pub fn next(&mut self) -> (r: Option<Node<'a>>)
        ensures
            final(self).tree() == old(self).tree(),
            old(self).remaining().len() == 0 ==> r is None && final(self).remaining() == old(
                self,
            ).remaining(),
            old(self).remaining().len() > 0 ==> r is Some && r->0.tree() == old(self).tree()
                && r->0.index() == old(self).remaining()[0] && final(self).remaining() == old(
                self,
            ).remaining().skip(1),
    {
        proof {
            use_type_invariant(&*self);
        }
        if self.idx < self.children.len() {
            let id = self.children[self.idx];
            self.idx = self.idx + 1;
            Some(Node { tree: self.tree, id })
        } else {
            None
        }
    }

    /// Number of nodes yet to be yielded.
    pub fn len(&self) -> (n: usize)
        ensures
            n == self.remaining().len(),
    {
        proof {
            use_type_invariant(self);
        }
        self.children.len() - self.idx
    }
}

} // verus!
