//! Syntax trees as the analysis reads them.
//!
//! A tree is stored flat, in document order: a node is followed by its
//! descendants, and records where they end. Walking the vector from front to
//! back therefore visits the tree depth first, parents before children.

use vstd::prelude::*;

verus! {

/// Largest number of nodes a tree can hold.
pub const MAX_NODES: usize = 0x4000_0000;

/// Largest row a node can start or end on.
pub const MAX_ROW: usize = 0xFFFF_FFFE;

/// The role a node plays in its parent, as far as the analysis asks for it.
#[derive(Clone, Copy, Debug, PartialEq, Eq, Structural)]
pub enum Field {
    /// No role the analysis looks for.
    Unnamed,
    /// The declared name of a function, class or variable.
    Name,
    /// The type an implementation block is written for.
    Type,
    /// The key of a key-value pair.
    Key,
    /// The declared return type of a function.
    ReturnType,
}

/// One node of a syntax tree.
#[derive(Clone, Copy, Debug)]
pub struct Node {
    /// Kind of the node, in the numbering of its grammar.
    pub kind_id: u16,
    /// Row on which the node starts, counted from zero.
    pub start_row: usize,
    /// Row on which the node ends, counted from zero.
    pub end_row: usize,
    /// Offset of the node's first byte in the source.
    pub start_byte: usize,
    /// Offset one past the node's last byte in the source.
    pub end_byte: usize,
    /// Role of the node in its parent.
    pub field: Field,
    /// Position of the parent in the tree; `None` for the root.
    pub parent: Option<usize>,
    /// Position one past the node's last descendant.
    pub end: usize,
}

/// A syntax tree in document order.
#[derive(Clone, Debug)]
pub struct Tree {
    /// The nodes, each followed by its descendants.
    pub nodes: Vec<Node>,
}

/// Whether the node at position `i` is consistent with the nodes around it.
pub open spec fn node_ok(nodes: Seq<Node>, i: int) -> bool
    recommends
        0 <= i < nodes.len(),
{
    let n = nodes[i];
    &&& i < n.end <= nodes.len()
    &&& n.start_row <= n.end_row <= MAX_ROW
    &&& n.start_byte <= n.end_byte
    &&& (i == 0 ==> n.parent is None && n.end == nodes.len())
    &&& (i > 0 ==> n.parent is Some && {
        let p = n.parent->0 as int;
        &&& p < i < nodes[p].end <= nodes.len()
        &&& n.end <= nodes[p].end
        &&& (n.end < nodes[p].end ==> nodes[n.end as int].parent == Some(p as usize))
    })
    &&& (i + 1 < n.end ==> nodes[i + 1].parent == Some(i as usize))
}

/// Whether `nodes` lists a tree in document order.
pub open spec fn nodes_ok(nodes: Seq<Node>) -> bool {
    &&& 1 <= nodes.len() <= MAX_NODES
    &&& forall|i: int| 0 <= i < nodes.len() ==> #[trigger] node_ok(nodes, i)
}

/// Number of children of the node at `i`, counting from its child at `c` on.
pub open spec fn count_children_from(nodes: Seq<Node>, i: int, c: int) -> nat
    decreases nodes.len() - c,
{
    if 0 <= i < c < nodes[i].end <= nodes.len() && c < nodes[c].end <= nodes.len() {
        1 + count_children_from(nodes, i, nodes[c].end as int)
    } else {
        0
    }
}

/// Position of the first child of the node at `i`, from its child at `c` on,
/// that plays the role `field`; `None` if there is none.
pub open spec fn find_field_from(nodes: Seq<Node>, i: int, c: int, field: Field) -> Option<usize>
    decreases nodes.len() - c,
{
    if 0 <= i < c < nodes[i].end <= nodes.len() && c < nodes[c].end <= nodes.len() {
        if nodes[c].field == field {
            Some(c as usize)
        } else {
            find_field_from(nodes, i, nodes[c].end as int, field)
        }
    } else {
        None
    }
}

/// Whether the node at `i` has, from its child at `c` on, a child of kind `kind`.
pub open spec fn has_child_kind_from(nodes: Seq<Node>, i: int, c: int, kind: u16) -> bool
    decreases nodes.len() - c,
{
    if 0 <= i < c < nodes[i].end <= nodes.len() && c < nodes[c].end <= nodes.len() {
        if nodes[c].kind_id == kind {
            true
        } else {
            has_child_kind_from(nodes, i, nodes[c].end as int, kind)
        }
    } else {
        false
    }
}

/// Whether every node lies within a source of `len` bytes.
pub open spec fn fits(nodes: Seq<Node>, len: nat) -> bool {
    forall|i: int| 0 <= i < nodes.len() ==> (#[trigger] nodes[i]).end_byte <= len
}

impl Tree {
    /// The nodes as a sequence.
    pub open spec fn view(&self) -> Seq<Node> {
        self.nodes@
    }

    /// Whether the tree is well formed.
    pub open spec fn wf(&self) -> bool {
        nodes_ok(self@)
    }

    /// Checks one node against its neighbours.
    fn check_node(nodes: &Vec<Node>, i: usize) -> (ok: bool)
        requires
            i < nodes.len(),
        ensures
            ok == node_ok(nodes@, i as int),
    {
        let len = nodes.len();
        let n = nodes[i];
        if !(i < n.end && n.end <= len) {
            return false;
        }
        if !(n.start_row <= n.end_row && n.end_row <= MAX_ROW && n.start_byte <= n.end_byte) {
            return false;
        }
        if i + 1 < n.end {
            match nodes[i + 1].parent {
                Some(q) => {
                    if q != i {
                        return false;
                    }
                },
                None => {
                    return false;
                },
            }
        }
        if i == 0 {
            n.parent.is_none() && n.end == len
        } else {
            match n.parent {
                None => false,
                Some(p) => {
                    if !(p < i) {
                        return false;
                    }
                    let pe = nodes[p].end;
                    if !(i < pe && pe <= len && n.end <= pe) {
                        return false;
                    }
                    if n.end < pe {
                        match nodes[n.end].parent {
                            Some(q) => q == p,
                            None => false,
                        }
                    } else {
                        true
                    }
                },
            }
        }
    }

    /// Builds a tree from nodes listed in document order.
    ///
    /// Returns `None` when the nodes do not describe a tree.
    pub fn new(nodes: Vec<Node>) -> (tree: Option<Tree>)
        ensures
            tree is Some <==> nodes_ok(nodes@),
            tree is Some ==> tree->0@ == nodes@,
    {
        let len = nodes.len();
        if len < 1 || len > MAX_NODES {
            return None;
        }
        let mut i: usize = 0;
        while i < len
            invariant
                len == nodes.len(),
                i <= len,
                forall|j: int| 0 <= j < i ==> #[trigger] node_ok(nodes@, j),
            decreases len - i,
        {
            if !Self::check_node(&nodes, i) {
                return None;
            }
            i += 1;
        }
        Some(Tree { nodes })
    }

    /// Tells whether every node lies within a source of `len` bytes.
    pub fn fits(&self, len: usize) -> (r: bool)
        ensures
            r == fits(self@, len as nat),
    {
        let n = self.nodes.len();
        let mut i: usize = 0;
        while i < n
            invariant
                n == self@.len(),
                i <= n,
                forall|j: int| 0 <= j < i ==> (#[trigger] self@[j]).end_byte <= len,
            decreases n - i,
        {
            if self.nodes[i].end_byte > len {
                return false;
            }
            i += 1;
        }
        true
    }

    /// Number of nodes.
    pub fn len(&self) -> (n: usize)
        ensures
            n == self@.len(),
    {
        self.nodes.len()
    }

    /// The node at position `i`.
    pub fn node(&self, i: usize) -> (n: Node)
        requires
            i < self@.len(),
        ensures
            n == self@[i as int],
    {
        self.nodes[i]
    }

    /// The parent of the node at position `i`, if it has one.
    pub fn parent(&self, i: usize) -> (p: Option<usize>)
        requires
            self.wf(),
            i < self@.len(),
        ensures
            p == self@[i as int].parent,
            p is Some ==> p->0 < i,
    {
        assert(node_ok(self@, i as int));
        self.nodes[i].parent
    }

    /// Number of children of the node at position `i`.
    pub fn child_count(&self, i: usize) -> (n: usize)
        requires
            self.wf(),
            i < self@.len(),
        ensures
            n == count_children_from(self@, i as int, i + 1),
    {
        let end = self.nodes[i].end;
        let mut c: usize = i + 1;
        let mut n: usize = 0;
        assert(node_ok(self@, i as int));
        while c < end
            invariant
                self.wf(),
                i < self@.len(),
                end == self@[i as int].end,
                i < c,
                end <= self@.len(),
                c < end ==> self@[c as int].parent == Some(i),
                n <= c,
                n + count_children_from(self@, i as int, c as int) == count_children_from(
                    self@,
                    i as int,
                    i + 1,
                ),
            decreases end - c,
        {
            assert(node_ok(self@, c as int));
            c = self.nodes[c].end;
            n += 1;
        }
        n
    }

    /// The first child of the node at position `i` that plays the role `field`.
    pub fn child_by_field(&self, i: usize, field: Field) -> (r: Option<usize>)
        requires
            self.wf(),
            i < self@.len(),
        ensures
            r == find_field_from(self@, i as int, i + 1, field),
            r is Some ==> i < r->0 < self@.len() && self@[r->0 as int].field == field,
    {
        let end = self.nodes[i].end;
        let mut c: usize = i + 1;
        assert(node_ok(self@, i as int));
        while c < end
            invariant
                self.wf(),
                i < self@.len(),
                end == self@[i as int].end,
                i < c,
                end <= self@.len(),
                c < end ==> self@[c as int].parent == Some(i),
                find_field_from(self@, i as int, c as int, field) == find_field_from(
                    self@,
                    i as int,
                    i + 1,
                    field,
                ),
            decreases end - c,
        {
            assert(node_ok(self@, c as int));
            if self.nodes[c].field == field {
                return Some(c);
            }
            c = self.nodes[c].end;
        }
        None
    }

    /// Whether the node at position `i` has a child of kind `kind`.
    pub fn is_child(&self, i: usize, kind: u16) -> (r: bool)
        requires
            self.wf(),
            i < self@.len(),
        ensures
            r == has_child_kind_from(self@, i as int, i + 1, kind),
    {
        let end = self.nodes[i].end;
        let mut c: usize = i + 1;
        assert(node_ok(self@, i as int));
        while c < end
            invariant
                self.wf(),
                i < self@.len(),
                end == self@[i as int].end,
                i < c,
                end <= self@.len(),
                c < end ==> self@[c as int].parent == Some(i),
                has_child_kind_from(self@, i as int, c as int, kind) == has_child_kind_from(
                    self@,
                    i as int,
                    i + 1,
                    kind,
                ),
            decreases end - c,
        {
            assert(node_ok(self@, c as int));
            if self.nodes[c].kind_id == kind {
                return true;
            }
            c = self.nodes[c].end;
        }
        false
    }
}

} // verus!
