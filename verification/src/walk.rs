//! Coordinates, and turning them back into a live walker.

use vstd::prelude::*;
use tree_sitter::{Tree, TreeCursor};
use crate::binding::{cursor_path, tree_view, walked_tree};
use crate::syntax::lemma_has_prefix;

verus! {

/// A copy of `path` with the same steps.
pub(crate) fn copy_path(path: &Vec<usize>) -> (copy: Vec<usize>)
    ensures
        copy@ == path@,
{
    let copy = path.clone();
    assert(copy@ =~= path@);
    copy
}

/// A walker over `tree` that stands on the node that `path` leads to.
///
/// It starts at the root and, level by level, enters the first child and
/// steps over as many siblings as the path says.
pub(crate) fn seek<'tree>(tree: &'tree Tree, path: &Vec<usize>) -> (walker: TreeCursor<'tree>)
    requires
        tree_view(*tree).root.has(path@),
    ensures
        walked_tree(walker) == tree_view(*tree),
        cursor_path(walker) == path@,
{
    let ghost root = tree_view(*tree).root;
    let mut walker = tree.walk();
    let mut depth: usize = 0;
    while depth < path.len()
        invariant
            depth <= path.len(),
            root == tree_view(*tree).root,
            root.has(path@),
            walked_tree(walker) == tree_view(*tree),
            cursor_path(walker) == path@.take(depth as int),
        decreases path.len() - depth,
    {
        let index: usize = path[depth];
        let ghost above = path@.take(depth as int);
        proof {
            lemma_has_prefix(root, path@, depth as int);
            lemma_has_prefix(root, path@, depth + 1);
            assert(path@.take(depth + 1).drop_last() == above);
            assert(path@.take(depth + 1) == above.push(index));
        }
        let entered = walker.goto_first_child();
        assert(entered);
        let mut at: usize = 0;
        while at < index
            invariant
                at <= index,
                root == tree_view(*tree).root,
                index < root.at(above).children.len(),
                walked_tree(walker) == tree_view(*tree),
                cursor_path(walker) == above.push(at),
            decreases index - at,
        {
            proof {
                assert(above.push(at).drop_last() == above);
            }
            let advanced = walker.goto_next_sibling();
            assert(advanced);
            at += 1;
            proof {
                assert(cursor_path(walker) == above.push(at));
            }
        }
        depth += 1;
    }
    assert(path@.take(depth as int) == path@);
    walker
}

} // verus!
