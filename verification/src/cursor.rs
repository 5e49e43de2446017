//! Cursors: a walker over a syntax tree as a value that keeps its tree
//! alive, and the operations that move it and read where it stands.

use vstd::prelude::*;
use tree_sitter::Tree;
use crate::binding::{cursor_field_id, cursor_path, tree_view, walked_tree};
use crate::node::{NodeHandle, name_text};
use crate::position::Position;
use crate::syntax::{any_beyond, first_beyond, lemma_has_child};
use crate::walk::{copy_path, seek};

verus! {

/// A walker over a syntax tree, kept alive by the handle itself.
///
/// Like a [`NodeHandle`] it owns a share of the tree and remembers where it
/// stands; unlike a node handle it can be moved. It walks the whole tree,
/// wherever it was started.
pub struct CursorHandle {
    tree: Tree,
    path: Vec<usize>,
}

/// Where a new cursor starts.
pub enum Start<'a> {
    /// At the root of a tree.
    Root(&'a Tree),
    /// At a node, in the tree that the node belongs to.
    At(&'a NodeHandle),
}

impl View for CursorHandle {
    type V = Position;

    closed spec fn view(&self) -> Position {
        Position { tree: tree_view(self.tree), path: self.path@ }
    }
}

impl<'a> Start<'a> {
    /// The place that a cursor started here stands on.
    pub open spec fn position(self) -> Position {
        match self {
            Start::Root(tree) => Position::root(tree_view(*tree)),
            Start::At(node) => node@,
        }
    }
}

impl CursorHandle {
    #[verifier::type_invariant]
    spec fn well_placed(self) -> bool {
        tree_view(self.tree).root.has(self.path@)
    }
}

/// A new cursor on the given tree or node.
///
/// Started from a tree it stands on the root. Started from a node it stands
/// on that node, in a share of the node's tree that it takes for itself.
pub fn make_cursor(tree_or_node: Start) -> (cursor: CursorHandle)
    ensures
        cursor@ == tree_or_node.position(),
        cursor@.valid(),
{
    match tree_or_node {
        Start::Root(tree) => CursorHandle { tree: tree.clone(), path: Vec::new() },
        Start::At(node) => {
            CursorHandle { tree: node.tree().clone(), path: copy_path(node.path()) }
        },
    }
}

/// A new node handle for the node that `cursor` stands on. The handle takes
/// its own share of the tree, so moving or dropping the cursor afterwards
/// does not touch it.
pub fn current_node(cursor: &CursorHandle) -> (node: NodeHandle)
    ensures
        node@ == cursor@,
        cursor@.valid(),
{
    proof {
        use_type_invariant(cursor);
    }
    NodeHandle::place(cursor.tree.clone(), copy_path(&cursor.path))
}

/// The id of the field that the current node fills under its parent, or
/// `None` where it fills none. The cursor does not move.
pub fn current_field_id(cursor: &CursorHandle) -> (id: Option<u16>)
    ensures
        cursor@.valid(),
        id == cursor@.field_id(),
{
    proof {
        use_type_invariant(cursor);
    }
    let walker = seek(&cursor.tree, &cursor.path);
    cursor_field_id(&walker)
}

/// The grammar's name for the field that the current node fills under its
/// parent, or `None` where it fills none. The cursor does not move.
pub fn current_field_name(cursor: &CursorHandle) -> (name: Option<&str>)
    ensures
        cursor@.valid(),
        name_text(name) == cursor@.field_name(),
        name is Some == cursor@.field_id() is Some,
{
    proof {
        use_type_invariant(cursor);
    }
    let walker = seek(&cursor.tree, &cursor.path);
    walker.field_name()
}

/// Moves `cursor` to the first child of its current node. Returns whether it
/// moved; where the node has no children the cursor stays.
pub fn goto_first_child(cursor: &mut CursorHandle) -> (moved: bool)
    ensures
        old(cursor)@.valid(),
        final(cursor)@.valid(),
        moved == old(cursor)@.first_child() is Some,
        final(cursor)@ == (match old(cursor)@.first_child() {
            Some(child) => child,
            None => old(cursor)@,
        }),
{
    proof {
        use_type_invariant(&*cursor);
    }
    let mut walker = seek(&cursor.tree, &cursor.path);
    let moved = walker.goto_first_child();
    if moved {
        proof {
            lemma_has_child(tree_view(cursor.tree).root, cursor.path@, 0);
        }
        let mut path = copy_path(&cursor.path);
        path.push(0);
        cursor.path = path;
    }
    moved
}

/// Moves `cursor` to the parent of its current node. Returns whether it
/// moved; on the root the cursor stays.
pub fn goto_parent(cursor: &mut CursorHandle) -> (moved: bool)
    ensures
        old(cursor)@.valid(),
        final(cursor)@.valid(),
        moved == old(cursor)@.parent() is Some,
        final(cursor)@ == (match old(cursor)@.parent() {
            Some(parent) => parent,
            None => old(cursor)@,
        }),
{
    proof {
        use_type_invariant(&*cursor);
    }
    let mut walker = seek(&cursor.tree, &cursor.path);
    let moved = walker.goto_parent();
    if moved {
        let mut path = copy_path(&cursor.path);
        path.pop();
        cursor.path = path;
    }
    moved
}

/// Moves `cursor` to the sibling that follows its current node. Returns
/// whether it moved; on a last child, and on the root, the cursor stays.
pub fn goto_next_sibling(cursor: &mut CursorHandle) -> (moved: bool)
    ensures
        old(cursor)@.valid(),
        final(cursor)@.valid(),
        moved == old(cursor)@.next_sibling() is Some,
        final(cursor)@ == (match old(cursor)@.next_sibling() {
            Some(sibling) => sibling,
            None => old(cursor)@,
        }),
{
    proof {
        use_type_invariant(&*cursor);
    }
    let mut walker = seek(&cursor.tree, &cursor.path);
    let moved = walker.goto_next_sibling();
    if moved {
        let last: usize = cursor.path.len() - 1;
        let index: usize = cursor.path[last];
        proof {
            lemma_has_child(
                tree_view(cursor.tree).root,
                cursor.path@.drop_last(),
                (index + 1) as usize,
            );
            assert(cursor.path@.update(last as int, (index + 1) as usize)
                =~= cursor.path@.drop_last().push((index + 1) as usize));
        }
        let mut path = copy_path(&cursor.path);
        path.set(last, index + 1);
        cursor.path = path;
    }
    moved
}

/// Moves `cursor` to the child of its current node with the given index.
fn goto_child(cursor: &mut CursorHandle, index: usize)
    requires
        index < old(cursor)@.child_count(),
    ensures
        old(cursor)@.valid(),
        final(cursor)@.valid(),
        final(cursor)@ == old(cursor)@.child(index),
{
    proof {
        use_type_invariant(&*cursor);
        lemma_has_child(tree_view(cursor.tree).root, cursor.path@, index);
    }
    let mut path = copy_path(&cursor.path);
    path.push(index);
    cursor.path = path;
}

/// The index of the first child of the node at `path` in `tree` whose end
/// lies beyond the byte offset `bytepos`, found by visiting the children in
/// turn.
fn scan_children(tree: &Tree, path: &Vec<usize>, bytepos: usize) -> (found: Option<usize>)
    requires
        tree_view(*tree).root.has(path@),
    ensures
        match found {
            Some(index) => first_beyond(tree_view(*tree).root.at(path@).children, bytepos, index as int),
            None => !any_beyond(tree_view(*tree).root.at(path@).children, bytepos),
        },
{
    let ghost children = tree_view(*tree).root.at(path@).children;
    let mut walker = seek(tree, path);
    if !walker.goto_first_child() {
        return None;
    }
    let mut index: usize = 0;
    loop
        invariant
            index < children.len(),
            children == tree_view(*tree).root.at(path@).children,
            walked_tree(walker) == tree_view(*tree),
            cursor_path(walker) == path@.push(index),
            forall|earlier: int| 0 <= earlier < index ==> (#[trigger] children[earlier]).end <= bytepos,
        decreases children.len() - index,
    {
        proof {
            assert(path@.push(index).drop_last() == path@);
        }
        if walker.node().end_byte() > bytepos {
            return Some(index);
        }
        if !walker.goto_next_sibling() {
            return None;
        }
        index += 1;
    }
}

/// Moves `cursor` to the first child of its current node that reaches beyond
/// the byte offset `bytepos`: the child with the smallest index whose end
/// lies after `bytepos`. Returns the index of that child, or `None` where no
/// child's end lies after `bytepos`, as where there are no children; the
/// cursor then stays.
///
/// The search is tree-sitter's own. Where that one comes back empty-handed,
/// the children are visited in turn to settle whether there is none.
pub fn goto_first_child_for_byte(cursor: &mut CursorHandle, bytepos: usize) -> (found: Option<
    usize,
>)
    ensures
        old(cursor)@.valid(),
        final(cursor)@.valid(),
        found == old(cursor)@.child_for_byte(bytepos),
        match found {
            Some(index) => first_beyond(old(cursor)@.node().children, bytepos, index as int),
            None => !any_beyond(old(cursor)@.node().children, bytepos),
        },
        final(cursor)@ == (match found {
            Some(index) => old(cursor)@.child(index),
            None => old(cursor)@,
        }),
{
    proof {
        use_type_invariant(&*cursor);
    }
    let quick = if bytepos <= u32::MAX as usize {
        let mut walker = seek(&cursor.tree, &cursor.path);
        walker.goto_first_child_for_byte(bytepos)
    } else {
        None
    };
    let found = match quick {
        Some(index) => Some(index),
        None => scan_children(&cursor.tree, &cursor.path, bytepos),
    };
    proof {
        lemma_child_for_byte(cursor@, bytepos, found);
    }
    match found {
        Some(index) => {
            goto_child(cursor, index);
        },
        None => {},
    }
    found
}

/// An answer that is the first child beyond the offset, or `None` where no
/// child is beyond it, is the answer that the place defines.
proof fn lemma_child_for_byte(place: Position, pos: usize, found: Option<usize>)
    requires
        match found {
            Some(index) => first_beyond(place.node().children, pos, index as int),
            None => !any_beyond(place.node().children, pos),
        },
    ensures
        found == place.child_for_byte(pos),
{
    if let Some(index) = found {
        let chosen = choose|index: usize| first_beyond(place.node().children, pos, index as int);
        assert(first_beyond(place.node().children, pos, chosen as int));
    }
}

/// Puts `cursor` on `node`, in a share of the node's tree that the cursor
/// takes for itself. Where the cursor stood before makes no difference, nor
/// which tree it walked.
pub fn reset_cursor(cursor: &mut CursorHandle, node: &NodeHandle)
    ensures
        final(cursor)@ == old(cursor)@.reset(node@),
        final(cursor)@ == node@,
        final(cursor)@.valid(),
{
    *cursor = CursorHandle { tree: node.tree().clone(), path: copy_path(node.path()) };
}

} // verus!
