//! A place in a tree as plain coordinates, and the moves between places.

use vstd::prelude::*;
use crate::syntax::{Syntax, SyntaxTree, any_beyond, first_beyond};

verus! {

/// A place in a syntax tree: the tree, and the child indices that lead from
/// its root to a node. This is what a node handle and a cursor stand for.
pub ghost struct Position {
    /// What the tree holds that the place lies in.
    pub tree: SyntaxTree,
    /// The child index taken at each level on the way down from the root.
    pub path: Seq<usize>,
}

impl Position {
    /// The place at the root of `tree`.
    pub open spec fn root(tree: SyntaxTree) -> Position {
        Position { tree, path: Seq::empty() }
    }

    /// Whether the path leads to a node of the tree.
    pub open spec fn valid(self) -> bool {
        self.tree.root.has(self.path)
    }

    /// The node at this place.
    pub open spec fn node(self) -> Syntax {
        self.tree.root.at(self.path)
    }

    /// The numeric kind of the node at this place.
    pub open spec fn kind(self) -> u16 {
        self.node().kind
    }

    /// The byte range of the node at this place, as its start and its end.
    pub open spec fn byte_range(self) -> (usize, usize) {
        (self.node().start, self.node().end)
    }

    /// How many children the node at this place has.
    pub open spec fn child_count(self) -> nat {
        self.node().children.len()
    }

    /// The place of the child with the given index.
    pub open spec fn child(self, index: usize) -> Position {
        Position { tree: self.tree, path: self.path.push(index) }
    }

    /// Whether this is the place of the tree's root.
    pub open spec fn is_root(self) -> bool {
        self.path.len() == 0
    }

    /// The place of the first child, if the node has children.
    pub open spec fn first_child(self) -> Option<Position> {
        if self.child_count() > 0 {
            Some(self.child(0))
        } else {
            None
        }
    }

    /// The place one level up, if this is not the root.
    pub open spec fn parent(self) -> Option<Position> {
        if self.is_root() {
            None
        } else {
            Some(Position { tree: self.tree, path: self.path.drop_last() })
        }
    }

    /// The place of the sibling that directly follows, if there is one.
    /// Child indices are machine integers, so no sibling follows the child
    /// with the largest of them.
    pub open spec fn next_sibling(self) -> Option<Position> {
        match self.parent() {
            Some(parent) if self.path.last() + 1 < parent.child_count() && self.path.last()
                < usize::MAX => Some(parent.child((self.path.last() + 1) as usize)),
            _ => None,
        }
    }

    /// The index of the first child whose end lies beyond the byte offset
    /// `pos`, if there is such a child.
    pub open spec fn child_for_byte(self, pos: usize) -> Option<usize> {
        if any_beyond(self.node().children, pos) {
            Some(choose|index: usize| first_beyond(self.node().children, pos, index as int))
        } else {
            None
        }
    }

    /// The id of the field that the node at this place fills under its
    /// parent, if it fills one.
    pub open spec fn field_id(self) -> Option<u16> {
        self.node().field
    }

    /// The grammar's name for the field that the node at this place fills,
    /// if it fills one.
    pub open spec fn field_name(self) -> Option<Seq<char>> {
        match self.field_id() {
            Some(id) => Some(self.tree.field_names[id]),
            None => None,
        }
    }

    /// Where a cursor stands after it was put on the node at `target`: there,
    /// wherever it stood before.
    pub open spec fn reset(self, target: Position) -> Position {
        target
    }

    /// Where a walk ends that starts here and goes to the next sibling
    /// `moves` times, or `None` if one of those moves cannot be made.
    pub open spec fn walk_siblings(self, moves: nat) -> Option<Position>
        decreases moves,
    {
        if moves == 0 {
            Some(self)
        } else {
            match self.walk_siblings((moves - 1) as nat) {
                Some(place) => place.next_sibling(),
                None => None,
            }
        }
    }

    /// Whether two places show the same node as far as a caller can compare
    /// nodes: by kind and by byte range.
    pub open spec fn same_node(self, other: Position) -> bool {
        self.kind() == other.kind() && self.byte_range() == other.byte_range()
    }
}

} // verus!
