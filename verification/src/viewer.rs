//! The render pass of the dock: read-only over the tree, emitting deferred
//! commands in response to user interaction.
//!
//! The drawing itself (dock area, buttons, context menu) belongs to the UI
//! layer; this module holds every decision the pass makes: which tab is
//! focused, which command a click emits, and the appending of the emitted
//! commands to the session queue once the pass is over.

use vstd::prelude::*;

use crate::commands::{Command, DockState, MenuCommand, TabCommand};
use crate::hashing::str_hash;
use crate::tab::Tab;
use crate::tree::{spec_active_tab, tree_view, DockTree};

verus! {

/// The identity handed to the render pass when no tab is focused: the
/// identity of the empty name.
pub open spec fn no_focus_id() -> u64 {
    str_hash(Seq::<char>::empty())
}

/// The focused tab's identity, or the empty-name identity when no tab is
/// focused.
pub fn focused_tab_or_default(tree: &DockTree) -> (r: u64)
    ensures
        r == (match spec_active_tab(tree_view(*tree)) {
            Some(id) => id,
            None => no_focus_id(),
        }),
{
    match tree.active_tab_id() {
        Some(id) => id,
        None => {
            proof {
                reveal_strlit("");
            }
            crate::hashing::hash_str("")
        },
    }
}

/// The command sink of one render pass over the dock.
pub struct TabViewer {
    /// Identity of the tab holding focus this frame; drawing passes it on so
    /// that only that tab's editor claims keyboard focus.
    pub focused_tab: u64,
    /// Commands emitted so far this pass, in emission order.
    pub emitted: Vec<Command>,
}

impl TabViewer {
    pub fn new(focused_tab: u64) -> (v: TabViewer)
        ensures
            v.focused_tab == focused_tab,
            v.emitted@ =~= Seq::<Command>::empty(),
    {
        TabViewer { focused_tab, emitted: Vec::new() }
    }

    /// Whether this tab is the one holding focus; the editor of an unfocused
    /// tab must not steal keyboard focus or selection state.
    pub fn is_focused(&self, tab: &Tab) -> (r: bool)
        ensures
            r == (tab.id == self.focused_tab),
    {
        tab.id == self.focused_tab
    }

    /// The "+" button of a node's tab strip: defers adding a tab there.
    pub fn on_add(&mut self, node: usize)
        ensures
            final(self).emitted@ == old(self).emitted@.push(
                Command::TabCommand(TabCommand::Add(node)),
            ),
            final(self).focused_tab == old(self).focused_tab,
    {
        self.emitted.push(Command::TabCommand(TabCommand::Add(node)));
    }

    /// A context-menu interaction over the tab at (`node`, `tab_index`).
    ///
    /// Exactly one command is enqueued per interaction: the first activated
    /// action wins, in the order the menu shows them (Rename, Save, Share).
    /// Returns whether the menu should close, which is a side effect of
    /// command emission, not of hovering.
    pub fn context_menu(
        &mut self,
        rename_clicked: bool,
        save_clicked: bool,
        share_clicked: bool,
        node: usize,
        tab_index: usize,
    ) -> (close_menu: bool)
        ensures
            final(self).focused_tab == old(self).focused_tab,
            rename_clicked ==> final(self).emitted@ == old(self).emitted@.push(
                Command::MenuCommand(MenuCommand::Rename(node, tab_index)),
            ),
            !rename_clicked && save_clicked ==> final(self).emitted@ == old(self).emitted@.push(
                Command::MenuCommand(MenuCommand::Save(node, tab_index)),
            ),
            !rename_clicked && !save_clicked && share_clicked ==> final(self).emitted@ == old(
                self,
            ).emitted@.push(Command::MenuCommand(MenuCommand::Share(node, tab_index))),
            !rename_clicked && !save_clicked && !share_clicked ==> final(self).emitted@ == old(
                self,
            ).emitted@,
            close_menu == (rename_clicked || save_clicked || share_clicked),
    {
        let command: Option<MenuCommand> = if rename_clicked {
            Some(MenuCommand::Rename(node, tab_index))
        } else if save_clicked {
            Some(MenuCommand::Save(node, tab_index))
        } else if share_clicked {
            Some(MenuCommand::Share(node, tab_index))
        } else {
            None
        };
        match command {
            Some(c) => {
                self.emitted.push(Command::MenuCommand(c));
                true
            },
            None => false,
        }
    }

    /// The close button of a tab: defers the empty-tree repair and lets the
    /// dock widget remove the tab (the returned `true`).
    pub fn on_close(&mut self) -> (remove: bool)
        ensures
            final(self).emitted@ == old(self).emitted@.push(
                Command::TabCommand(TabCommand::Close),
            ),
            final(self).focused_tab == old(self).focused_tab,
            remove == true,
    {
        self.emitted.push(Command::TabCommand(TabCommand::Close));
        true
    }
}

/// The dock widget's per-frame entry point, stripped of the drawing.
pub struct Dock;

impl Dock {
    /// Ends a render pass: appends the commands the pass emitted to the
    /// session queue, in emission order, touching nothing else.
    pub fn show(config: &mut DockState, viewer: TabViewer)
        ensures
            final(config).commands@ == old(config).commands@ + viewer.emitted@,
            final(config).tree == old(config).tree,
            final(config).counter == old(config).counter,
    {
        let mut emitted = viewer.emitted;
        config.commands.append(&mut emitted);
    }
}

} // verus!
