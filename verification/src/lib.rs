//! Node handles and cursors over tree-sitter syntax trees, as plain values.
//!
//! A tree-sitter node or tree cursor borrows the tree it points into, so it
//! cannot be handed to a caller that stores, copies and drops values in any
//! order. The handles of this library can: each owns a share of its tree and
//! addresses a node by coordinates, the child indices that lead from the
//! root to the node. Whenever a handle is asked something, it walks a fresh
//! tree-sitter cursor to its place and asks there.
//!
//! - [`syntax`] is the model of a tree that the contracts speak of.
//! - [`binding`] states what is taken on trust from tree-sitter.
//! - [`position`] is what a handle stands for, and the moves between places.
//! - `walk` turns coordinates back into a live tree-sitter cursor.
//! - [`node`] and [`cursor`] are the handles and their operations.
//! - [`laws`] proves what holds of the moves on every tree.

pub mod binding;
pub mod cursor;
pub mod laws;
pub mod node;
pub mod position;
pub mod syntax;
mod walk;
