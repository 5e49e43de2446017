//! What this library takes on trust from the `tree-sitter` crate.
//!
//! Nothing in this file is proved. Each item names a type or a function of
//! that crate and states what the rest of the library relies on; the
//! statements are read off the crate's documentation and its C sources.
//!
//! A tree-sitter tree contains hidden nodes that no walker ever stands on.
//! The model below is the tree of visible nodes only, which is the tree that
//! the crate's own documentation speaks of.

use vstd::prelude::*;
use tree_sitter::{Node, Tree, TreeCursor};
use crate::syntax::{Syntax, SyntaxTree, first_beyond, steps_to_next};

verus! {

/// `tree_sitter::Tree`: a parsed syntax tree, shared by reference count.
#[verifier::external_type_specification]
#[verifier::external_body]
pub struct ExTree(Tree);

/// `tree_sitter::TreeCursor`: a walker over a tree that it borrows.
#[verifier::external_type_specification]
#[verifier::external_body]
pub struct ExTreeCursor<'tree>(TreeCursor<'tree>);

/// `tree_sitter::Node`: one node of a tree that it borrows.
#[verifier::external_type_specification]
#[verifier::external_body]
pub struct ExNode<'tree>(Node<'tree>);

/// What `tree` holds: its visible nodes from the root down, and the names of
/// the fields of the grammar that it was parsed with.
pub uninterp spec fn tree_view(tree: Tree) -> SyntaxTree;

/// What the tree holds that `cursor` walks.
pub uninterp spec fn walked_tree(cursor: TreeCursor) -> SyntaxTree;

/// Where `cursor` stands: the child indices that lead from the root of its
/// tree to its current node.
pub uninterp spec fn cursor_path(cursor: TreeCursor) -> Seq<usize>;

/// What `node` is: itself and everything below it.
pub uninterp spec fn node_syntax(node: Node) -> Syntax;

/// The node that `cursor` stands on.
pub open spec fn cursor_node(cursor: TreeCursor) -> Syntax {
    walked_tree(cursor).root.at(cursor_path(cursor))
}

/// `Tree::clone`: the copy shares the nodes and the grammar of the tree it
/// was made from, so it holds what that tree holds.
pub assume_specification[ <Tree as Clone>::clone ](tree: &Tree) -> (copy: Tree)
    ensures
        tree_view(copy) == tree_view(*tree),
;

/// `Tree::walk`: the new walker walks `tree` and stands on its root.
pub assume_specification[ Tree::walk ](tree: &Tree) -> (cursor: TreeCursor<'_>)
    ensures
        walked_tree(cursor) == tree_view(*tree),
        cursor_path(cursor) == Seq::<usize>::empty(),
;

/// `TreeCursor::goto_first_child`: moves exactly when the current node has a
/// child, and then to the first one.
pub assume_specification<'tree>[ TreeCursor::<'tree>::goto_first_child ](
    cursor: &mut TreeCursor<'tree>,
) -> (moved: bool)
    ensures
        walked_tree(*final(cursor)) == walked_tree(*old(cursor)),
        moved == (cursor_node(*old(cursor)).children.len() > 0),
        moved ==> cursor_path(*final(cursor)) == cursor_path(*old(cursor)).push(0),
        !moved ==> cursor_path(*final(cursor)) == cursor_path(*old(cursor)),
;

/// `TreeCursor::goto_parent`: moves exactly when the walker is not on the
/// root, and then to the node one level up.
pub assume_specification<'tree>[ TreeCursor::<'tree>::goto_parent ](
    cursor: &mut TreeCursor<'tree>,
) -> (moved: bool)
    ensures
        walked_tree(*final(cursor)) == walked_tree(*old(cursor)),
        moved == (cursor_path(*old(cursor)).len() > 0),
        moved ==> cursor_path(*final(cursor)) == cursor_path(*old(cursor)).drop_last(),
        !moved ==> cursor_path(*final(cursor)) == cursor_path(*old(cursor)),
;

/// `TreeCursor::goto_next_sibling`: moves exactly when the current node has
/// a parent with a child after it, and then to that child. Child indices are
/// `usize` throughout the crate, so the index moved to is one.
pub assume_specification<'tree>[ TreeCursor::<'tree>::goto_next_sibling ](
    cursor: &mut TreeCursor<'tree>,
) -> (moved: bool)
    ensures
        walked_tree(*final(cursor)) == walked_tree(*old(cursor)),
        moved == (cursor_path(*old(cursor)).len() > 0 && cursor_path(*old(cursor)).last() + 1
            < walked_tree(*old(cursor)).root.at(
            cursor_path(*old(cursor)).drop_last(),
        ).children.len()),
        moved ==> steps_to_next(cursor_path(*old(cursor)), cursor_path(*final(cursor))),
        !moved ==> cursor_path(*final(cursor)) == cursor_path(*old(cursor)),
;

/// `TreeCursor::goto_first_child_for_byte`: when the answer is an index, that
/// child is the first whose end lies beyond the offset, and the walker has
/// moved to it; when it is `None`, the walker has not moved. Nothing is
/// claimed of when the answer is `None`: the search can give up inside a
/// hidden node although a later child reaches beyond the offset. The crate
/// narrows the offset to 32 bits, so larger ones are left out.
pub assume_specification<'tree>[ TreeCursor::<'tree>::goto_first_child_for_byte ](
    cursor: &mut TreeCursor<'tree>,
    index: usize,
) -> (found: Option<usize>)
    requires
        index <= u32::MAX,
    ensures
        walked_tree(*final(cursor)) == walked_tree(*old(cursor)),
        found matches Some(child) ==> first_beyond(
            cursor_node(*old(cursor)).children,
            index,
            child as int,
        ) && cursor_path(*final(cursor)) == cursor_path(*old(cursor)).push(child),
        found is None ==> cursor_path(*final(cursor)) == cursor_path(*old(cursor)),
;

/// `TreeCursor::node`: the node that the walker stands on.
pub assume_specification<'tree>[ TreeCursor::<'tree>::node ](cursor: &TreeCursor<'tree>) -> (node: Node<'tree>)
    ensures
        node_syntax(node) == cursor_node(*cursor),
;

/// `TreeCursor::field_name`: a name exactly when the current node fills a
/// field, and then the grammar's name for that field's id.
pub assume_specification<'tree>[ TreeCursor::<'tree>::field_name ](
    cursor: &TreeCursor<'tree>,
) -> (name: Option<&'tree str>)
    ensures
        name is Some == cursor_node(*cursor).field is Some,
        name matches Some(text) ==> walked_tree(*cursor).field_names.contains_key(
            cursor_node(*cursor).field.unwrap(),
        ) && text@ == walked_tree(*cursor).field_names[cursor_node(*cursor).field.unwrap()],
;

/// `TreeCursor::field_id`: the id of the field that the current node fills
/// under its parent, if it fills one. The crate hands the id out as a
/// non-zero integer; this gives it as a plain one.
#[verifier::external_body]
pub(crate) fn cursor_field_id(cursor: &TreeCursor) -> (id: Option<u16>)
    ensures
        id == cursor_node(*cursor).field,
{
    match cursor.field_id() {
        Some(id) => Some(id.get()),
        None => None,
    }
}

/// `Node::kind_id`: the numeric id of the node's kind.
pub assume_specification<'tree>[ Node::<'tree>::kind_id ](node: &Node<'tree>) -> (kind: u16)
    ensures
        kind == node_syntax(*node).kind,
;

/// `Node::start_byte`: the offset of the node's first byte.
pub assume_specification<'tree>[ Node::<'tree>::start_byte ](node: &Node<'tree>) -> (offset: usize)
    ensures
        offset == node_syntax(*node).start,
;

/// `Node::end_byte`: the offset just past the node's last byte.
pub assume_specification<'tree>[ Node::<'tree>::end_byte ](node: &Node<'tree>) -> (offset: usize)
    ensures
        offset == node_syntax(*node).end,
;

} // verus!
