//! The command processor: drains the queue after the render pass, in
//! emission order, and applies the deferred structural mutations.
//!
//! Each command's handler decides whether the command stays queued for the
//! next frame (an open rename dialog does) or is removed. Positional
//! references are re-validated before use: a reference the queue made stale
//! is dropped silently rather than indexed out of bounds.

use vstd::prelude::*;

use crate::commands::{Command, DockState, Effect, MenuCommand, TabCommand};
use crate::tab::{tab_id_of, Tab, TabV};
use crate::text::{scratch_label, scratch_name};
use crate::tree::{
    default_tab_v, default_tree_v, lemma_node_le_total, lemma_tabs_from_update, num_tabs_v,
    nv_count, spec_push_focused, spec_rename_tab, spec_set_focused, tree_view, tree_wf, DockTree,
    TreeV,
};

verus! {

/// Whether the node index of an Add command still points at a leaf.
pub open spec fn add_valid(tv: TreeV, v: int) -> bool {
    0 <= v < tv.0.len() && tv.0[v].0
}

/// The tab an Add command at node `v` creates while the counter stands at
/// `counter`: named `Scratch {counter}`, identity derived from the name, the
/// node index and the node's new tab count.
pub open spec fn added_tab_v(tv: TreeV, counter: u64, v: int) -> TabV {
    (
        scratch_name(counter as nat),
        tab_id_of(scratch_name(counter as nat), v as nat, (nv_count(tv.0[v]) + 1) as nat),
        None::<(i64, i64)>,
    )
}

/// Applying an Add command: focus the node, append the new tab there.
pub open spec fn spec_add(tv: TreeV, counter: u64, v: int) -> TreeV {
    spec_push_focused(spec_set_focused(tv, v), added_tab_v(tv, counter, v))
}

/// Applying a Close command: when the tree has become empty, synthesize the
/// default tab at node 0 (replacing the tree by the initial layout when node
/// 0 is not a leaf); otherwise do nothing.
pub open spec fn spec_close(tv: TreeV) -> TreeV {
    if num_tabs_v(tv) != 0 {
        tv
    } else if tv.0.len() > 0 && tv.0[0].0 {
        spec_push_focused(spec_set_focused(tv, 0), default_tab_v())
    } else {
        default_tree_v()
    }
}

/// The outcome of processing one command: whether it stays queued, the tree
/// and counter after it, and the effects it asks the application to perform.
pub open spec fn step_cmd(
    cmd: Command,
    tv: TreeV,
    counter: u64,
    rename: Option<Seq<char>>,
) -> (bool, TreeV, u64, Seq<Effect>) {
    match cmd {
        Command::MenuCommand(m) => match m {
            MenuCommand::Rename(v, t) => match rename {
                None => (true, tv, counter, Seq::empty()),
                Some(name) => (false, spec_rename_tab(tv, v as int, t as int, name), counter, Seq::empty()),
            },
            MenuCommand::Save(v, t) => (false, tv, counter, seq![Effect::Save(v, t)]),
            MenuCommand::Share(v, t) => (false, tv, counter, seq![Effect::Share(v, t)]),
        },
        Command::TabCommand(tc) => match tc {
            TabCommand::Add(v) => if add_valid(tv, v as int) && counter < u64::MAX {
                (false, spec_add(tv, counter, v as int), (counter + 1) as u64, Seq::empty())
            } else {
                (false, tv, counter, Seq::empty())
            },
            TabCommand::Close => (
                false,
                spec_close(tv),
                if num_tabs_v(tv) == 0 {
                    2u64
                } else {
                    counter
                },
                Seq::empty(),
            ),
        },
    }
}

/// Processing the commands from index `i` on: the commands kept for the next
/// frame, the final tree and counter, and the effects, all in order.
pub open spec fn process_from(
    cmds: Seq<Command>,
    tv: TreeV,
    counter: u64,
    rename: Option<Seq<char>>,
    i: int,
) -> (Seq<Command>, TreeV, u64, Seq<Effect>)
    decreases cmds.len() - i,
{
    if i < 0 || i >= cmds.len() {
        (Seq::empty(), tv, counter, Seq::empty())
    } else {
        let s = step_cmd(cmds[i], tv, counter, rename);
        let r = process_from(cmds, s.1, s.2, rename, i + 1);
        (
            (if s.0 {
                seq![cmds[i]]
            } else {
                Seq::empty()
            }) + r.0,
            r.1,
            r.2,
            s.3 + r.3,
        )
    }
}

/// The spec value of the rename dialog's outcome this frame.
pub open spec fn rename_entry_view(rename: Option<String>) -> Option<Seq<char>> {
    match rename {
        None => None,
        Some(s) => Some(s@),
    }
}

/// One processing step keeps the tree well formed, never removes a tab, adds
/// at most one, and leaves at least one tab behind a Close command.
pub proof fn lemma_step_wf(cmd: Command, tv: TreeV, counter: u64, rename: Option<Seq<char>>)
    requires
        tree_wf(tv),
        num_tabs_v(tv) + 1 <= usize::MAX,
    ensures
        ({
            let s = step_cmd(cmd, tv, counter, rename);
            &&& tree_wf(s.1)
            &&& num_tabs_v(tv) <= num_tabs_v(s.1) <= num_tabs_v(tv) + 1
            &&& (cmd matches Command::TabCommand(TabCommand::Close) ==> num_tabs_v(s.1) >= 1)
        }),
{
    let s = step_cmd(cmd, tv, counter, rename);
    match cmd {
        Command::MenuCommand(m) => match m {
            MenuCommand::Rename(v, t) => {
                if let Some(name) = rename {
                    let tv2 = spec_rename_tab(tv, v as int, t as int, name);
                    if 0 <= v < tv.0.len() && tv.0[v as int].0 && 0 <= t < tv.0[v as int].1.len() {
                        lemma_tabs_from_update(tv.0, v as int, tv2.0[v as int], 0);
                        assert(tree_wf(tv2));
                    }
                }
            },
            MenuCommand::Save(..) => {},
            MenuCommand::Share(..) => {},
        },
        Command::TabCommand(tc) => match tc {
            TabCommand::Add(v) => {
                if add_valid(tv, v as int) && counter < u64::MAX {
                    let tv1 = spec_set_focused(tv, v as int);
                    let tab = added_tab_v(tv, counter, v as int);
                    let tv2 = spec_push_focused(tv1, tab);
                    lemma_tabs_from_update(tv1.0, v as int, tv2.0[v as int], 0);
                    assert(tree_wf(tv2));
                }
            },
            TabCommand::Close => {
                if num_tabs_v(tv) == 0 {
                    if tv.0.len() > 0 && tv.0[0].0 {
                        let tv1 = spec_set_focused(tv, 0);
                        let tv2 = spec_push_focused(tv1, default_tab_v());
                        lemma_node_le_total(tv.0, 0);
                        lemma_tabs_from_update(tv1.0, 0, tv2.0[0], 0);
                        assert(tree_wf(tv2));
                    } else {
                        assert(num_tabs_v(default_tree_v()) == 1) by {
                            reveal_with_fuel(crate::tree::tabs_from, 3);
                        }
                        assert(tree_wf(default_tree_v()));
                    }
                }
            },
        },
    }
}

/// The tree is never left without tabs by processing: a nonempty tree stays
/// nonempty, and once a Close command has been processed the tree holds at
/// least one tab whatever follows, so no state the queue hands back to the
/// next frame has zero tabs after a close.
pub proof fn lemma_never_empty(
    cmds: Seq<Command>,
    tv: TreeV,
    counter: u64,
    rename: Option<Seq<char>>,
    i: int,
)
    requires
        tree_wf(tv),
        0 <= i <= cmds.len(),
        num_tabs_v(tv) + (cmds.len() - i) <= usize::MAX,
    ensures
        ({
            let r = process_from(cmds, tv, counter, rename, i);
            &&& tree_wf(r.1)
            &&& num_tabs_v(r.1) >= num_tabs_v(tv)
            &&& (exists|j: int|
                i <= j < cmds.len() && (#[trigger] cmds[j]) matches Command::TabCommand(
                    TabCommand::Close,
                )) ==> num_tabs_v(r.1) >= 1
        }),
    decreases cmds.len() - i,
{
    if i < cmds.len() {
        let s = step_cmd(cmds[i], tv, counter, rename);
        lemma_step_wf(cmds[i], tv, counter, rename);
        lemma_never_empty(cmds, s.1, s.2, rename, i + 1);
    }
}

/// Naming policy, creation side: processing an Add command whose node is
/// still a leaf appends to that node a tab named `Scratch {counter}` and
/// advances the counter by exactly one, so the Nth tab ever created is named
/// `Scratch N` whenever the counter stands at N when its Add is processed.
pub proof fn lemma_add_naming(tv: TreeV, counter: u64, v: usize, rename: Option<Seq<char>>)
    requires
        tree_wf(tv),
        add_valid(tv, v as int),
        counter < u64::MAX,
    ensures
        ({
            let s = step_cmd(Command::TabCommand(TabCommand::Add(v)), tv, counter, rename);
            &&& s.2 == counter + 1
            &&& s.1.0[v as int].1.len() == tv.0[v as int].1.len() + 1
            &&& s.1.0[v as int].1.last().0 == scratch_name(counter as nat)
            &&& s.1.0[v as int].1.last().1 == tab_id_of(
                scratch_name(counter as nat),
                v as nat,
                tv.0[v as int].1.len() + 1,
            )
        }),
{
}

/// Naming policy, reset side: processing a Close command on a tree whose
/// tabs are gone recreates the default tab `Scratch 1` and resets the
/// counter to 2, never to 1, since a `Scratch 1` exists again.
pub proof fn lemma_close_resets(tv: TreeV, counter: u64, rename: Option<Seq<char>>)
    requires
        tree_wf(tv),
        num_tabs_v(tv) == 0,
        num_tabs_v(tv) + 1 <= usize::MAX,
    ensures
        ({
            let s = step_cmd(Command::TabCommand(TabCommand::Close), tv, counter, rename);
            &&& s.2 == 2
            &&& num_tabs_v(s.1) >= 1
            &&& exists|n: int|
                0 <= n < s.1.0.len() && s.1.0[n].1.len() >= 1 && (#[trigger] s.1.0[n].1.last())
                    == default_tab_v()
        }),
{
    let s = step_cmd(Command::TabCommand(TabCommand::Close), tv, counter, rename);
    lemma_step_wf(Command::TabCommand(TabCommand::Close), tv, counter, rename);
    if tv.0.len() > 0 && tv.0[0].0 {
        assert(s.1.0[0].1.last() == default_tab_v());
    } else {
        assert(s.1.0[0].1.last() == default_tab_v());
    }
}

/// The processor of the deferred command queue.
#[derive(Debug)]
pub struct TabEvents;

impl TabEvents {
    /// Applies one command to the tree and the counter, mirroring `step_cmd`
    /// exactly: returns whether the command stays queued and the effect it
    /// asks the application to perform, if any.
    fn apply_command(
        config: &mut DockState,
        cmd: Command,
        rename_entry: &Option<String>,
    ) -> (r: (bool, Option<Effect>))
        requires
            tree_wf(tree_view(old(config).tree)),
            num_tabs_v(tree_view(old(config).tree)) + 1 <= usize::MAX,
            old(config).counter < u64::MAX,
        ensures
            ({
                let s = step_cmd(
                    cmd,
                    tree_view(old(config).tree),
                    old(config).counter,
                    rename_entry_view(*rename_entry),
                );
                &&& tree_view(final(config).tree) == s.1
                &&& final(config).counter == s.2
                &&& final(config).commands == old(config).commands
                &&& r.0 == s.0
                &&& s.3 == (match r.1 {
                    None => Seq::<Effect>::empty(),
                    Some(e) => seq![e],
                })
            }),
    {
        let ghost tv0 = tree_view(config.tree);
        let ghost c0 = config.counter;
        let ghost rnv = rename_entry_view(*rename_entry);
        let ghost s = step_cmd(cmd, tv0, c0, rnv);
        match cmd {
            Command::MenuCommand(m) => match m {
                MenuCommand::Rename(v, t) => match rename_entry {
                    None => (true, None),
                    Some(name) => {
                        config.tree.rename_tab(v, t, name.clone());
                        (false, None)
                    },
                },
                MenuCommand::Save(v, t) => (false, Some(Effect::Save(v, t))),
                MenuCommand::Share(v, t) => (false, Some(Effect::Share(v, t))),
            },
            Command::TabCommand(tc) => match tc {
                TabCommand::Add(v) => {
                    if Self::is_leaf_at(&config.tree, v) {
                        proof {
                            lemma_node_le_total(tv0.0, v as int);
                        }
                        let count = config.tree.tabs_count_at(v) + 1;
                        let name = scratch_label(config.counter);
                        let tab = Tab::at_position(name, v, count);
                        proof {
                            assert(crate::tab::tab_view(tab) == added_tab_v(tv0, c0, v as int));
                        }
                        config.tree.set_focused_node(v);
                        config.tree.push_to_focused_leaf(tab);
                        config.counter = config.counter + 1;
                        proof {
                            assert(tree_view(config.tree) == s.1);
                        }
                    }
                    (false, None)
                },
                TabCommand::Close => {
                    let tabs_now = config.tree.num_tabs();
                    if tabs_now == 0 {
                        if Self::is_leaf_at(&config.tree, 0) {
                            let tab = Tab::with_name_id(scratch_label(1));
                            proof {
                                assert(crate::tab::tab_view(tab) == default_tab_v());
                            }
                            config.tree.set_focused_node(0);
                            config.tree.push_to_focused_leaf(tab);
                        } else {
                            config.tree = DockTree::init_default();
                        }
                        config.counter = 2;
                        proof {
                            assert(tree_view(config.tree) == s.1);
                        }
                    }
                    (false, None)
                },
            },
        }
    }

    /// Drains the queue in emission order, applying each command to the
    /// session's dock state; handlers that return `true` (an open rename
    /// dialog) stay queued. `rename_entry` is the rename dialog's outcome
    /// this frame: `None` while it is still open, the entered name once
    /// confirmed. Returns the effects the application must perform, in
    /// order.
    #[verifier::rlimit(100)]
    pub fn show(config: &mut DockState, rename_entry: &Option<String>) -> (effects: Vec<Effect>)
        requires
            tree_wf(tree_view(old(config).tree)),
            num_tabs_v(tree_view(old(config).tree)) + old(config).commands@.len() <= usize::MAX,
            1 <= old(config).counter,
            old(config).counter + old(config).commands@.len() <= u64::MAX,
        ensures
            ({
                let r = process_from(
                    old(config).commands@,
                    tree_view(old(config).tree),
                    old(config).counter,
                    rename_entry_view(*rename_entry),
                    0,
                );
                &&& final(config).commands@ == r.0
                &&& tree_view(final(config).tree) == r.1
                &&& final(config).counter == r.2
                &&& effects@ == r.3
                &&& tree_wf(tree_view(final(config).tree))
            }),
    {
        let ghost cmds0 = config.commands@;
        let ghost tv0 = tree_view(config.tree);
        let ghost c0 = config.counter;
        let ghost rnv = rename_entry_view(*rename_entry);
        let ghost full = process_from(cmds0, tv0, c0, rnv, 0);

        let mut kept: Vec<Command> = Vec::new();
        let mut effects: Vec<Effect> = Vec::new();
        let n = config.commands.len();
        let mut i: usize = 0;
        while i < n
            invariant
                i <= n,
                n == cmds0.len(),
                config.commands@ == cmds0,
                rnv == rename_entry_view(*rename_entry),
                tree_wf(tree_view(config.tree)),
                num_tabs_v(tree_view(config.tree)) + (n - i) <= usize::MAX,
                1 <= config.counter,
                config.counter + (n - i) <= u64::MAX,
                ({
                    let rest = process_from(
                        cmds0,
                        tree_view(config.tree),
                        config.counter,
                        rnv,
                        i as int,
                    );
                    &&& full.0 == kept@ + rest.0
                    &&& full.1 == rest.1
                    &&& full.2 == rest.2
                    &&& full.3 == effects@ + rest.3
                }),
            decreases n - i,
        {
            let ghost tv_pre = tree_view(config.tree);
            let ghost c_pre = config.counter;
            let ghost kept_pre = kept@;
            let ghost eff_pre = effects@;
            let cmd = config.commands[i];
            proof {
                assert(cmd == cmds0[i as int]);
                lemma_step_wf(cmd, tv_pre, c_pre, rnv);
            }
            let ghost step = step_cmd(cmd, tv_pre, c_pre, rnv);
            let (keep, eff) = Self::apply_command(config, cmd, rename_entry);
            if keep {
                kept.push(cmd);
            }
            match eff {
                Some(e) => {
                    effects.push(e);
                },
                None => {},
            }
            proof {
                let s1: Seq<Command> = if step.0 {
                    seq![cmds0[i as int]]
                } else {
                    Seq::empty()
                };
                let rest_pre = process_from(cmds0, tv_pre, c_pre, rnv, i as int);
                let rest_post = process_from(
                    cmds0,
                    tree_view(config.tree),
                    config.counter,
                    rnv,
                    i + 1,
                );
                assert(tree_view(config.tree) == step.1);
                assert(config.counter == step.2);
                assert(rest_pre.0 == s1 + rest_post.0);
                assert(rest_pre.3 == step.3 + rest_post.3);
                assert(kept@ =~= kept_pre + s1);
                assert(effects@ =~= eff_pre + step.3);
                assert(kept_pre + (s1 + rest_post.0) =~= (kept_pre + s1) + rest_post.0);
                assert(eff_pre + (step.3 + rest_post.3) =~= (eff_pre + step.3) + rest_post.3);
                assert(full.0 == kept@ + rest_post.0);
                assert(full.3 == effects@ + rest_post.3);
            }
            i = i + 1;
        }
        config.commands = kept;
        proof {
            assert(full.0 =~= config.commands@);
            assert(full.3 =~= effects@);
        }
        effects
    }

    /// Whether node `v` of the tree is (still) a leaf.
    fn is_leaf_at(tree: &DockTree, v: usize) -> (r: bool)
        ensures
            r == add_valid(tree_view(*tree), v as int),
    {
        if v < tree.nodes.len() {
            match &tree.nodes[v] {
                crate::tree::DockNode::Leaf { .. } => true,
                crate::tree::DockNode::Split => false,
            }
        } else {
            false
        }
    }
}

} // verus!
