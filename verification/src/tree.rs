//! The dock tree: an ordered sequence of nodes, each a split or a leaf
//! holding an ordered run of tabs, plus the focused-node index.
//!
//! The tree is only ever mutated between frames, by the command processor or
//! by the dock widget's own tab removal; the render pass reads it. Every
//! mutation re-validates the positional reference it was given and does
//! nothing when the reference no longer points at a leaf, so a stale command
//! is dropped silently instead of indexing out of bounds.

use vstd::prelude::*;

use crate::tab::{name_id_of, tab_view, Tab, TabV};
use crate::text::{scratch_label, scratch_name};

verus! {

/// One node of the dock hierarchy: an inner split, or a leaf with an ordered
/// run of tabs of which at most one (`active`) is selected.
#[derive(Clone, Debug)]
pub enum DockNode {
    Split,
    Leaf { tabs: Vec<Tab>, active: usize },
}

/// The dock tree.
#[derive(Clone, Debug)]
pub struct DockTree {
    pub nodes: Vec<DockNode>,
    pub focused: usize,
}

/// Spec-level value of a node: whether it is a leaf, its tabs, its active
/// tab index.
pub type NodeV = (bool, Seq<TabV>, int);

/// Spec-level value of a tree: its nodes and the focused-node index.
pub type TreeV = (Seq<NodeV>, int);

pub open spec fn node_view(n: DockNode) -> NodeV {
    match n {
        DockNode::Split => (false, Seq::empty(), 0),
        DockNode::Leaf { tabs, active } => (
            true,
            tabs@.map_values(|t: Tab| tab_view(t)),
            active as int,
        ),
    }
}

pub open spec fn tree_view(t: DockTree) -> TreeV {
    (t.nodes@.map_values(|n: DockNode| node_view(n)), t.focused as int)
}

/// The number of tabs a node holds.
pub open spec fn nv_count(n: NodeV) -> nat {
    n.1.len()
}

/// The number of tabs held by the nodes from index `i` on.
pub open spec fn tabs_from(ns: Seq<NodeV>, i: int) -> nat
    decreases ns.len() - i,
{
    if i < 0 || i >= ns.len() {
        0
    } else {
        nv_count(ns[i]) + tabs_from(ns, i + 1)
    }
}

/// The number of tabs in the whole tree.
pub open spec fn num_tabs_v(tv: TreeV) -> nat {
    tabs_from(tv.0, 0)
}

/// A node is well formed when a split holds no tabs and a leaf's active index
/// lies inside its tabs (or is zero while the leaf is transiently empty).
pub open spec fn node_wf(n: NodeV) -> bool {
    &&& !n.0 ==> n.1.len() == 0 && n.2 == 0
    &&& n.0 ==> (if n.1.len() == 0 {
        n.2 == 0
    } else {
        0 <= n.2 < n.1.len()
    })
}

/// A tree is well formed when it has at least one node, its focused index is
/// in range, every node is well formed, and its tab count fits the machine.
pub open spec fn tree_wf(tv: TreeV) -> bool {
    &&& tv.0.len() >= 1
    &&& 0 <= tv.1 < tv.0.len()
    &&& forall|i: int| 0 <= i < tv.0.len() ==> node_wf(#[trigger] tv.0[i])
    &&& num_tabs_v(tv) <= usize::MAX
}

/// The identity of the focused leaf's selected tab, if there is one.
pub open spec fn spec_active_tab(tv: TreeV) -> Option<u64> {
    if 0 <= tv.1 < tv.0.len() && tv.0[tv.1].0 && 0 <= tv.0[tv.1].2 < tv.0[tv.1].1.len() {
        Some(tv.0[tv.1].1[tv.0[tv.1].2].1)
    } else {
        None
    }
}

/// The spec value of the default tab, `Scratch 1`.
pub open spec fn default_tab_v() -> TabV {
    (scratch_name(1), name_id_of(scratch_name(1)), None::<(i64, i64)>)
}

/// The spec value of a freshly initialized tree: one focused leaf holding the
/// default tab.
pub open spec fn default_tree_v() -> TreeV {
    (seq![(true, seq![default_tab_v()], 0int)], 0int)
}

/// Focusing a node: applied only when the index is a leaf, else ignored.
pub open spec fn spec_set_focused(tv: TreeV, v: int) -> TreeV {
    if 0 <= v < tv.0.len() && tv.0[v].0 {
        (tv.0, v)
    } else {
        tv
    }
}

/// Appending a tab to the focused leaf and selecting it; ignored when the
/// focused node is not a leaf.
pub open spec fn spec_push_focused(tv: TreeV, tab: TabV) -> TreeV {
    if 0 <= tv.1 < tv.0.len() && tv.0[tv.1].0 {
        let n = tv.0[tv.1];
        (tv.0.update(tv.1, (true, n.1.push(tab), n.1.len() as int)), tv.1)
    } else {
        tv
    }
}

/// The active index of a leaf after removing the tab at `t`.
pub open spec fn active_after_remove(active: int, t: int, new_len: int) -> int {
    if new_len == 0 {
        0
    } else {
        let a = if active > t {
            active - 1
        } else {
            active
        };
        if a >= new_len {
            new_len - 1
        } else {
            a
        }
    }
}

/// Removing the tab at position (`v`, `t`); ignored when the reference is
/// stale.
pub open spec fn spec_remove_tab(tv: TreeV, v: int, t: int) -> TreeV {
    if 0 <= v < tv.0.len() && tv.0[v].0 && 0 <= t < tv.0[v].1.len() {
        let n = tv.0[v];
        let tabs = n.1.remove(t);
        (tv.0.update(v, (true, tabs, active_after_remove(n.2, t, tabs.len() as int))), tv.1)
    } else {
        tv
    }
}

/// Renaming the tab at position (`v`, `t`): the display name changes, the
/// identity and the scroll offset stay. Ignored when the reference is stale.
pub open spec fn spec_rename_tab(tv: TreeV, v: int, t: int, name: Seq<char>) -> TreeV {
    if 0 <= v < tv.0.len() && tv.0[v].0 && 0 <= t < tv.0[v].1.len() {
        let n = tv.0[v];
        let tab = n.1[t];
        (tv.0.update(v, (true, n.1.update(t, (name, tab.1, tab.2)), n.2)), tv.1)
    } else {
        tv
    }
}

/// Two node sequences that agree from `i` on hold the same number of tabs
/// from `i` on.
pub proof fn lemma_tabs_from_agree(a: Seq<NodeV>, b: Seq<NodeV>, i: int)
    requires
        a.len() == b.len(),
        forall|j: int| i <= j < a.len() ==> a[j] == b[j],
    ensures
        tabs_from(a, i) == tabs_from(b, i),
    decreases a.len() - i,
{
    if 0 <= i < a.len() {
        lemma_tabs_from_agree(a, b, i + 1);
    }
}

/// Updating the node at `v` changes the tab count from `i <= v` on by the
/// difference of the node counts.
pub proof fn lemma_tabs_from_update(ns: Seq<NodeV>, v: int, x: NodeV, i: int)
    requires
        0 <= i <= v < ns.len(),
    ensures
        tabs_from(ns.update(v, x), i) + nv_count(ns[v]) == tabs_from(ns, i) + nv_count(x),
    decreases v - i,
{
    let u = ns.update(v, x);
    if i == v {
        lemma_tabs_from_agree(u, ns, v + 1);
    } else {
        lemma_tabs_from_update(ns, v, x, i + 1);
    }
}

/// A tree holding at least one node whose count is positive holds tabs; more
/// directly: the total count bounds every node's count from below.
pub proof fn lemma_node_le_total(ns: Seq<NodeV>, i: int)
    requires
        0 <= i < ns.len(),
    ensures
        nv_count(ns[i]) <= tabs_from(ns, 0),
    decreases ns.len(),
{
    lemma_node_le_total_from(ns, 0, i);
}

proof fn lemma_node_le_total_from(ns: Seq<NodeV>, j: int, i: int)
    requires
        0 <= j <= i < ns.len(),
    ensures
        nv_count(ns[i]) <= tabs_from(ns, j),
    decreases i - j,
{
    if j < i {
        lemma_node_le_total_from(ns, j + 1, i);
    }
}

/// Pure tree-reading trait of the dock: building the initial layout.
pub trait TreeTabs where Self: Sized {
    /// Returns the tree a fresh session starts from.
    fn init() -> Self;
}

impl TreeTabs for DockTree {
    /// The initial layout: one focused leaf holding the default tab.
    fn init() -> (t: Self)
        ensures
            tree_view(t) == default_tree_v(),
            tree_wf(tree_view(t)),
    {
        DockTree::init_default()
    }
}

impl DockTree {
    /// Builds the initial tree: exactly one leaf holding the focused default
    /// tab `Scratch 1`.
    pub fn init_default() -> (t: DockTree)
        ensures
            tree_view(t) == default_tree_v(),
            tree_wf(tree_view(t)),
    {
        let tab = Tab::with_name_id(scratch_label(1));
        let mut tabs: Vec<Tab> = Vec::new();
        tabs.push(tab);
        let mut nodes: Vec<DockNode> = Vec::new();
        nodes.push(DockNode::Leaf { tabs, active: 0 });
        let t = DockTree { nodes, focused: 0 };
        proof {
            assert(tree_view(t).0 =~~= default_tree_v().0);
            assert(tree_view(t) =~~= default_tree_v());
            assert(num_tabs_v(tree_view(t)) == 1) by {
                reveal_with_fuel(tabs_from, 3);
            }
        }
        t
    }

    /// Counts the tabs in the tree.
    pub fn num_tabs(&self) -> (n: usize)
        requires
            num_tabs_v(tree_view(*self)) <= usize::MAX,
        ensures
            n == num_tabs_v(tree_view(*self)),
    {
        let ghost ns = tree_view(*self).0;
        let mut n: usize = 0;
        let mut i: usize = 0;
        while i < self.nodes.len()
            invariant
                i <= self.nodes@.len(),
                ns == tree_view(*self).0,
                ns.len() == self.nodes@.len(),
                n + tabs_from(ns, i as int) == num_tabs_v(tree_view(*self)),
                num_tabs_v(tree_view(*self)) <= usize::MAX,
            decreases self.nodes@.len() - i,
        {
            match &self.nodes[i] {
                DockNode::Leaf { tabs, .. } => {
                    proof {
                        assert(nv_count(ns[i as int]) == tabs@.len());
                    }
                    n = n + tabs.len();
                },
                DockNode::Split => {},
            }
            i = i + 1;
        }
        n
    }

    /// The identity of the focused leaf's selected tab, if any.
    pub fn active_tab_id(&self) -> (r: Option<u64>)
        ensures
            r == spec_active_tab(tree_view(*self)),
    {
        if self.focused < self.nodes.len() {
            match &self.nodes[self.focused] {
                DockNode::Leaf { tabs, active } => {
                    if *active < tabs.len() {
                        Some(tabs[*active].id)
                    } else {
                        None
                    }
                },
                DockNode::Split => None,
            }
        } else {
            None
        }
    }

    /// Focuses the node at `v` when it is a leaf; otherwise does nothing.
    pub fn set_focused_node(&mut self, v: usize)
        ensures
            tree_view(*final(self)) == spec_set_focused(tree_view(*old(self)), v as int),
    {
        if v < self.nodes.len() {
            let is_leaf = match &self.nodes[v] {
                DockNode::Leaf { .. } => true,
                DockNode::Split => false,
            };
            if is_leaf {
                self.focused = v;
            }
        }
        proof {
            assert(tree_view(*self) =~~= spec_set_focused(tree_view(*old(self)), v as int));
        }
    }

    /// Appends `tab` to the focused leaf and selects it; does nothing when
    /// the focused node is not a leaf.
    pub fn push_to_focused_leaf(&mut self, tab: Tab)
        ensures
            tree_view(*final(self)) == spec_push_focused(
                tree_view(*old(self)),
                tab_view(tab),
            ),
    {
        let ghost tv0 = tree_view(*old(self));
        let f = self.focused;
        if f < self.nodes.len() {
            let node = self.nodes.remove(f);
            match node {
                DockNode::Leaf { mut tabs, active: _ } => {
                    tabs.push(tab);
                    let active = tabs.len() - 1;
                    self.nodes.insert(f, DockNode::Leaf { tabs, active });
                    proof {
                        assert(self.nodes@ =~= old(self).nodes@.update(
                            f as int,
                            self.nodes@[f as int],
                        ));
                        assert(tree_view(*self).0 =~~= spec_push_focused(
                            tv0,
                            tab_view(tab),
                        ).0);
                        assert(tree_view(*self) =~~= spec_push_focused(tv0, tab_view(tab)));
                    }
                },
                DockNode::Split => {
                    self.nodes.insert(f, DockNode::Split);
                    proof {
                        assert(self.nodes@ =~= old(self).nodes@);
                        assert(tree_view(*self) =~~= spec_push_focused(tv0, tab_view(tab)));
                    }
                },
            }
        } else {
            proof {
                assert(tree_view(*self) =~~= spec_push_focused(tv0, tab_view(tab)));
            }
        }
    }

    /// Removes the tab at position (`v`, `t`), as the dock widget does when a
    /// tab's close button is confirmed; a stale reference is ignored. Returns
    /// whether a tab was removed.
    pub fn remove_tab(&mut self, v: usize, t: usize) -> (removed: bool)
        ensures
            tree_view(*final(self)) == spec_remove_tab(tree_view(*old(self)), v as int, t as int),
            removed == (v < old(self).nodes@.len() && old(self).nodes@[v as int] is Leaf
                && t < old(self).nodes@[v as int]->tabs@.len()),
    {
        let ghost tv0 = tree_view(*old(self));
        if v < self.nodes.len() {
            let node = self.nodes.remove(v);
            match node {
                DockNode::Leaf { mut tabs, active } => {
                    if t < tabs.len() {
                        tabs.remove(t);
                        let new_len = tabs.len();
                        let a = if active > t {
                            active - 1
                        } else {
                            active
                        };
                        let active2 = if new_len == 0 {
                            0
                        } else if a >= new_len {
                            new_len - 1
                        } else {
                            a
                        };
                        self.nodes.insert(v, DockNode::Leaf { tabs, active: active2 });
                        proof {
                            assert(self.nodes@ =~= old(self).nodes@.update(
                                v as int,
                                self.nodes@[v as int],
                            ));
                            assert(tree_view(*self).0 =~~= spec_remove_tab(
                                tv0,
                                v as int,
                                t as int,
                            ).0);
                            assert(tree_view(*self) =~~= spec_remove_tab(tv0, v as int, t as int));
                        }
                        true
                    } else {
                        self.nodes.insert(v, DockNode::Leaf { tabs, active });
                        proof {
                            assert(self.nodes@ =~= old(self).nodes@);
                            assert(tree_view(*self) =~~= spec_remove_tab(tv0, v as int, t as int));
                        }
                        false
                    }
                },
                DockNode::Split => {
                    self.nodes.insert(v, DockNode::Split);
                    proof {
                        assert(self.nodes@ =~= old(self).nodes@);
                        assert(tree_view(*self) =~~= spec_remove_tab(tv0, v as int, t as int));
                    }
                    false
                },
            }
        } else {
            proof {
                assert(tree_view(*self) =~~= spec_remove_tab(tv0, v as int, t as int));
            }
            false
        }
    }

    /// Renames the tab at position (`v`, `t`), keeping its identity; a stale
    /// reference is ignored. Returns whether a tab was renamed.
    pub fn rename_tab(&mut self, v: usize, t: usize, name: String) -> (renamed: bool)
        ensures
            tree_view(*final(self)) == spec_rename_tab(
                tree_view(*old(self)),
                v as int,
                t as int,
                name@,
            ),
            renamed == (v < old(self).nodes@.len() && old(self).nodes@[v as int] is Leaf
                && t < old(self).nodes@[v as int]->tabs@.len()),
    {
        let ghost tv0 = tree_view(*old(self));
        if v < self.nodes.len() {
            let node = self.nodes.remove(v);
            match node {
                DockNode::Leaf { mut tabs, active } => {
                    if t < tabs.len() {
                        let mut tab = tabs.remove(t);
                        tab.name = name;
                        tabs.insert(t, tab);
                        self.nodes.insert(v, DockNode::Leaf { tabs, active });
                        proof {
                            assert(self.nodes@ =~= old(self).nodes@.update(
                                v as int,
                                self.nodes@[v as int],
                            ));
                            assert(tree_view(*self).0[v as int].1 =~~= spec_rename_tab(
                                tv0,
                                v as int,
                                t as int,
                                name@,
                            ).0[v as int].1);
                            assert(tree_view(*self).0 =~~= spec_rename_tab(
                                tv0,
                                v as int,
                                t as int,
                                name@,
                            ).0);
                            assert(tree_view(*self) =~~= spec_rename_tab(
                                tv0,
                                v as int,
                                t as int,
                                name@,
                            ));
                        }
                        true
                    } else {
                        self.nodes.insert(v, DockNode::Leaf { tabs, active });
                        proof {
                            assert(self.nodes@ =~= old(self).nodes@);
                            assert(tree_view(*self) =~~= spec_rename_tab(
                                tv0,
                                v as int,
                                t as int,
                                name@,
                            ));
                        }
                        false
                    }
                },
                DockNode::Split => {
                    self.nodes.insert(v, DockNode::Split);
                    proof {
                        assert(self.nodes@ =~= old(self).nodes@);
                        assert(tree_view(*self) =~~= spec_rename_tab(
                            tv0,
                            v as int,
                            t as int,
                            name@,
                        ));
                    }
                    false
                },
            }
        } else {
            proof {
                assert(tree_view(*self) =~~= spec_rename_tab(tv0, v as int, t as int, name@));
            }
            false
        }
    }

    /// Decides well-formedness of the tree, for callers that take a tree
    /// from outside the verified world (a deserialized layout): at least one
    /// node, the focused index in range, every leaf's active index inside
    /// its tabs, and a total tab count that fits the machine.
    pub fn check_well_formed(&self) -> (r: bool)
        ensures
            r == tree_wf(tree_view(*self)),
    {
        let ghost tv = tree_view(*self);
        if self.nodes.len() == 0 || self.focused >= self.nodes.len() {
            return false;
        }
        let mut total: usize = 0;
        let mut i: usize = 0;
        while i < self.nodes.len()
            invariant
                i <= self.nodes@.len(),
                tv == tree_view(*self),
                tv.0.len() == self.nodes@.len(),
                1 <= tv.0.len(),
                0 <= tv.1 < tv.0.len(),
                forall|j: int| 0 <= j < i ==> node_wf(#[trigger] tv.0[j]),
                total + tabs_from(tv.0, i as int) == num_tabs_v(tv),
            decreases self.nodes@.len() - i,
        {
            match &self.nodes[i] {
                DockNode::Leaf { tabs, active } => {
                    if tabs.len() == 0 {
                        if *active != 0 {
                            proof {
                                assert(!node_wf(tv.0[i as int]));
                            }
                            return false;
                        }
                    } else if *active >= tabs.len() {
                        proof {
                            assert(!node_wf(tv.0[i as int]));
                        }
                        return false;
                    }
                    if tabs.len() > usize::MAX - total {
                        proof {
                            assert(tabs_from(tv.0, i as int) >= nv_count(tv.0[i as int]));
                            assert(num_tabs_v(tv) > usize::MAX);
                        }
                        return false;
                    }
                    total = total + tabs.len();
                },
                DockNode::Split => {},
            }
            i = i + 1;
        }
        true
    }

    /// The number of tabs at node `v` (zero for a split or a stale index).
    pub fn tabs_count_at(&self, v: usize) -> (n: usize)
        ensures
            n == (if 0 <= v < tree_view(*self).0.len() {
                nv_count(tree_view(*self).0[v as int])
            } else {
                0
            }),
    {
        if v < self.nodes.len() {
            match &self.nodes[v] {
                DockNode::Leaf { tabs, .. } => tabs.len(),
                DockNode::Split => 0,
            }
        } else {
            0
        }
    }
}

} // verus!
