//! The mathematical model of a syntax tree: what a walker can see of it.

use vstd::prelude::*;

verus! {

/// One node of a syntax tree together with everything below it.
///
/// Only what a walker shows is modelled: the numeric kind, the byte range,
/// the field slot that the node fills under its parent, and the children in
/// source order.
pub ghost struct Syntax {
    /// Numeric id of the node's kind in the grammar.
    pub kind: u16,
    /// Offset of the node's first byte in the source text.
    pub start: usize,
    /// Offset just past the node's last byte.
    pub end: usize,
    /// Id of the field that the node fills under its parent, if it fills one.
    pub field: Option<u16>,
    /// The children, first to last.
    pub children: Seq<Syntax>,
}

/// What a parsed tree holds: its nodes, and the names that its grammar gives
/// to field ids.
pub ghost struct SyntaxTree {
    /// The root node with everything below it.
    pub root: Syntax,
    /// The grammar's name for each field id that it knows.
    pub field_names: Map<u16, Seq<char>>,
}

impl Syntax {
    /// Whether `path`, read as one child index per level, names a node below
    /// (or at) `self`. The empty path names `self`.
    pub open spec fn has(self, path: Seq<usize>) -> bool
        decreases path.len(),
    {
        path.len() == 0 || (self.has(path.drop_last()) && path.last() < self.at(
            path.drop_last(),
        ).children.len())
    }

    /// The node that `path` names. Meaningful where `self.has(path)`.
    pub open spec fn at(self, path: Seq<usize>) -> Syntax
        decreases path.len(),
    {
        if path.len() == 0 {
            self
        } else {
            self.at(path.drop_last()).children[path.last() as int]
        }
    }
}

/// Whether `index` is the first child in `children` that reaches beyond the
/// byte offset `pos`: its end lies after `pos`, and no earlier child's does.
pub open spec fn first_beyond(children: Seq<Syntax>, pos: usize, index: int) -> bool {
    &&& 0 <= index < children.len()
    &&& children[index].end > pos
    &&& forall|earlier: int| 0 <= earlier < index ==> (#[trigger] children[earlier]).end <= pos
}

/// Whether some child in `children` reaches beyond the byte offset `pos`.
pub open spec fn any_beyond(children: Seq<Syntax>, pos: usize) -> bool {
    exists|index: int| 0 <= index < children.len() && (#[trigger] children[index]).end > pos
}

/// Whether `after` names the sibling that directly follows the node named by
/// `before`: the same path but for the last step, which is one larger.
pub open spec fn steps_to_next(before: Seq<usize>, after: Seq<usize>) -> bool {
    &&& before.len() > 0
    &&& after.len() == before.len()
    &&& after.drop_last() == before.drop_last()
    &&& after.last() == before.last() + 1
}

/// Every prefix of a path that a tree has is a path that the tree has.
pub proof fn lemma_has_prefix(root: Syntax, path: Seq<usize>, len: int)
    requires
        root.has(path),
        0 <= len <= path.len(),
    ensures
        root.has(path.take(len)),
    decreases path.len(),
{
    if len == path.len() {
        assert(path.take(len) == path);
    } else {
        lemma_has_prefix(root, path.drop_last(), len);
        assert(path.drop_last().take(len) == path.take(len));
    }
}

/// Extending a path by the index of an existing child gives a path that the
/// tree has, and it names that child.
pub proof fn lemma_has_child(root: Syntax, path: Seq<usize>, index: usize)
    requires
        root.has(path),
        index < root.at(path).children.len(),
    ensures
        root.has(path.push(index)),
        root.at(path.push(index)) == root.at(path).children[index as int],
{
    assert(path.push(index).drop_last() == path);
}

} // verus!
