//! Behavior tree nodes and their serial composition.
//!
//! A node takes one input per step and consumes itself: it hands back either
//! a nonterminal value together with its own continuation, or a terminal
//! value and nothing else. A serial branch node runs one variant of a closed
//! family of such nodes at a time, and asks a decider after each step whether
//! to go on with that variant, to start another one afresh, or to end.

pub mod behavior_tree_node;
pub mod homogeneous_serial_node;
pub mod serial_node;
