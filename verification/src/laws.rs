//! What holds of the moves between places, whatever the tree.

use vstd::prelude::*;
use crate::position::Position;
use crate::syntax::{Syntax, any_beyond, first_beyond};

verus! {

/// From a node with at least one child, going to the first child and then to
/// the parent leads back to the node: to the same place, and so to the same
/// kind and byte range.
pub proof fn law_first_child_then_parent(start: Position)
    requires
        start.child_count() > 0,
    ensures
        start.first_child() matches Some(child) && child.parent() == Some(start),
        start.first_child().unwrap().parent().unwrap().same_node(start),
{
    assert(start.child(0).path.drop_last() =~= start.path);
}

/// The children of a node follow one another. Starting on the first of
/// `count` children, each of the first `count - 1` moves to the next sibling
/// succeeds and lands on the child with the next index, so the last of them
/// lands on the last child; one move more fails.
pub proof fn law_siblings_in_turn(parent: Position, count: usize)
    requires
        parent.child_count() == count,
        count > 0,
    ensures
        forall|moves: usize|
            moves < count ==> #[trigger] parent.child(0).walk_siblings(moves as nat) == Some(
                parent.child(moves),
            ),
        parent.child(0).walk_siblings((count - 1) as nat) == Some(
            parent.child((count - 1) as usize),
        ),
        parent.child(0).walk_siblings(count as nat) is None,
{
    assert forall|moves: usize| moves < count implies #[trigger] parent.child(0).walk_siblings(
        moves as nat,
    ) == Some(parent.child(moves)) by {
        lemma_walk_reaches(parent, moves);
    }
    let last = (count - 1) as usize;
    lemma_walk_reaches(parent, last);
    assert(parent.child(last).path.drop_last() =~= parent.path);
    assert(parent.child(last).next_sibling() is None);
}

/// Starting on the first child, `moves` moves to the next sibling land on
/// the child with the index `moves`, provided that there is one.
proof fn lemma_walk_reaches(parent: Position, moves: usize)
    requires
        moves < parent.child_count(),
    ensures
        parent.child(0).walk_siblings(moves as nat) == Some(parent.child(moves)),
    decreases moves,
{
    if moves > 0 {
        let before = (moves - 1) as usize;
        lemma_walk_reaches(parent, before);
        assert(parent.child(before).path.drop_last() =~= parent.path);
        assert(parent.child(before).path.last() == before);
        assert(parent.child(before).parent() == Some(parent));
        assert(parent.child(before).next_sibling() == Some(parent.child(moves)));
    }
}

/// The field id and the field name of a place agree: there is a name exactly
/// where there is an id, and the name is the one that the grammar registers
/// for that id.
pub proof fn law_field_name_follows_id(place: Position)
    ensures
        place.field_id() is None <==> place.field_name() is None,
        place.field_id() matches Some(id) ==> place.field_name() == Some(
            place.tree.field_names[id],
        ),
{
}

/// The child that a byte search may settle on is determined: among the
/// children of one node, at most one index is the first to reach beyond a
/// given offset, and none is where no child reaches beyond it, as where
/// there are no children.
pub proof fn law_first_beyond_is_unique(children: Seq<Syntax>, pos: usize, one: int, other: int)
    ensures
        first_beyond(children, pos, one) && first_beyond(children, pos, other) ==> one == other,
        first_beyond(children, pos, one) ==> any_beyond(children, pos),
        children.len() == 0 ==> !any_beyond(children, pos),
{
}

/// A cursor that was reset to a node stands on that node, wherever it stood
/// before: a node read from it right away has the kind and the byte range
/// of the node it was reset to.
pub proof fn law_reset_then_current_node(before: Position, target: Position)
    ensures
        before.reset(target) == target,
        before.reset(target).same_node(target),
{
}

} // verus!
