//! Node handles: a node of a syntax tree as a value that keeps its tree
//! alive.

use vstd::prelude::*;
use tree_sitter::Tree;
use crate::binding::{cursor_field_id, tree_view};
use crate::position::Position;
use crate::walk::{copy_path, seek};

verus! {

/// A node of a syntax tree, kept alive by the handle itself.
///
/// The handle owns a share of the tree and remembers the way from the root
/// to its node, so it stays usable whatever happens to other handles on the
/// same tree.
pub struct NodeHandle {
    tree: Tree,
    path: Vec<usize>,
}

/// What a field name says, if there is one.
pub open spec fn name_text(name: Option<&str>) -> Option<Seq<char>> {
    match name {
        Some(text) => Some(text@),
        None => None,
    }
}

impl View for NodeHandle {
    type V = Position;

    closed spec fn view(&self) -> Position {
        Position { tree: tree_view(self.tree), path: self.path@ }
    }
}

impl Clone for NodeHandle {
    /// A second handle for the same node, with its own share of the tree.
    fn clone(&self) -> (copy: NodeHandle)
        ensures
            copy@ == self@,
    {
        proof {
            use_type_invariant(self);
        }
        NodeHandle { tree: self.tree.clone(), path: copy_path(&self.path) }
    }
}

impl NodeHandle {
    #[verifier::type_invariant]
    spec fn well_placed(self) -> bool {
        tree_view(self.tree).root.has(self.path@)
    }

    /// The handle for the node that `path` leads to in `tree`.
    pub(crate) fn place(tree: Tree, path: Vec<usize>) -> (node: NodeHandle)
        requires
            tree_view(tree).root.has(path@),
        ensures
            node@ == (Position { tree: tree_view(tree), path: path@ }),
    {
        NodeHandle { tree, path }
    }

    /// The tree that the handle owns a share of.
    pub(crate) fn tree(&self) -> (tree: &Tree)
        ensures
            tree_view(*tree) == self@.tree,
            self@.valid(),
    {
        proof {
            use_type_invariant(self);
        }
        &self.tree
    }

    /// The way from the root to the node.
    pub(crate) fn path(&self) -> (path: &Vec<usize>)
        ensures
            path@ == self@.path,
            self@.valid(),
    {
        proof {
            use_type_invariant(self);
        }
        &self.path
    }

    /// The handle for the root of `tree`.
    pub fn root(tree: &Tree) -> (node: NodeHandle)
        ensures
            node@ == Position::root(tree_view(*tree)),
    {
        NodeHandle { tree: tree.clone(), path: Vec::new() }
    }

    /// The numeric id of the node's kind in the grammar.
    pub fn kind_id(&self) -> (kind: u16)
        ensures
            self@.valid(),
            kind == self@.kind(),
    {
        proof {
            use_type_invariant(self);
        }
        let walker = seek(&self.tree, &self.path);
        walker.node().kind_id()
    }

    /// The offset of the node's first byte in the source text.
    pub fn start_byte(&self) -> (offset: usize)
        ensures
            self@.valid(),
            offset == self@.byte_range().0,
    {
        proof {
            use_type_invariant(self);
        }
        let walker = seek(&self.tree, &self.path);
        walker.node().start_byte()
    }

    /// The offset just past the node's last byte.
    pub fn end_byte(&self) -> (offset: usize)
        ensures
            self@.valid(),
            offset == self@.byte_range().1,
    {
        proof {
            use_type_invariant(self);
        }
        let walker = seek(&self.tree, &self.path);
        walker.node().end_byte()
    }

    /// Whether `other` shows the same node as far as nodes can be compared:
    /// by kind and by byte range.
    pub fn same_node(&self, other: &NodeHandle) -> (same: bool)
        ensures
            same == self@.same_node(other@),
    {
        self.kind_id() == other.kind_id() && self.start_byte() == other.start_byte()
            && self.end_byte() == other.end_byte()
    }

    /// The id of the field that the node fills under its parent, or `None`
    /// where it fills none.
    pub fn field_id(&self) -> (id: Option<u16>)
        ensures
            self@.valid(),
            id == self@.field_id(),
    {
        proof {
            use_type_invariant(self);
        }
        let walker = seek(&self.tree, &self.path);
        cursor_field_id(&walker)
    }

    /// The grammar's name for the field that the node fills under its
    /// parent, or `None` where it fills none.
    pub fn field_name(&self) -> (name: Option<&str>)
        ensures
            self@.valid(),
            name_text(name) == self@.field_name(),
    {
        proof {
            use_type_invariant(self);
        }
        let walker = seek(&self.tree, &self.path);
        walker.field_name()
    }
}

} // verus!
