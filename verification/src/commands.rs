//! Deferred structural commands and the per-session dock state.
//!
//! During the render pass the UI may only append commands to the queue; the
//! processor drains the queue after the pass and applies the mutations, so
//! the tree is never changed while it is being traversed. Commands carry
//! positional references (node index, in-node tab index) that are valid at
//! emission time and are re-validated at processing time.

use vstd::prelude::*;

use crate::tree::DockTree;

verus! {

/// A context-menu command on the tab at (node index, tab index).
#[derive(Clone, Copy, Debug, PartialEq, Eq, Structural)]
pub enum MenuCommand {
    Rename(usize, usize),
    Save(usize, usize),
    Share(usize, usize),
}

/// A tab-strip command.
#[derive(Clone, Copy, Debug, PartialEq, Eq, Structural)]
pub enum TabCommand {
    /// Create a new tab at the given node.
    Add(usize),
    /// A tab was closed by the dock widget; repair the tree if it is now
    /// empty.
    Close,
}

/// A deferred structural command.
#[derive(Clone, Copy, Debug, PartialEq, Eq, Structural)]
pub enum Command {
    MenuCommand(MenuCommand),
    TabCommand(TabCommand),
}

/// An outward action the processor asks the surrounding application to
/// perform: persisting a tab or sharing it with the playground service.
/// Both are fire-and-forget for the core; a collaborator failure surfaces as
/// a notification, never as an aborted frame.
#[derive(Clone, Copy, Debug, PartialEq, Eq, Structural)]
pub enum Effect {
    /// Save the tab at (node index, tab index) to storage.
    Save(usize, usize),
    /// Share the tab at (node index, tab index) with the sharing service.
    Share(usize, usize),
}

/// The per-session dock state: the tree, the never-reused name counter, and
/// the queue of deferred commands.
#[derive(Debug)]
pub struct DockState {
    pub tree: DockTree,
    pub counter: u64,
    pub commands: Vec<Command>,
}

impl DockState {
    /// A fresh session: the default tree, the counter standing at 2 (a
    /// `Scratch 1` already exists), and an empty queue.
    pub fn new() -> (s: DockState)
        ensures
            crate::tree::tree_view(s.tree) == crate::tree::default_tree_v(),
            crate::tree::tree_wf(crate::tree::tree_view(s.tree)),
            s.counter == 2,
            s.commands@ =~= Seq::<Command>::empty(),
    {
        DockState { tree: DockTree::init_default(), counter: 2, commands: Vec::new() }
    }
}

} // verus!
