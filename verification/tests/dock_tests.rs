use rust_play::commands::{Command, DockState, Effect, MenuCommand, TabCommand};
use rust_play::events::TabEvents;
use rust_play::tree::{DockNode, DockTree, TreeTabs};
use rust_play::viewer::{focused_tab_or_default, Dock, TabViewer};

fn leaf_names(tree: &DockTree, node: usize) -> Vec<String> {
    match &tree.nodes[node] {
        DockNode::Leaf { tabs, .. } => tabs.iter().map(|t| t.name.clone()).collect(),
        DockNode::Split => panic!("expected a leaf"),
    }
}

fn total_tabs(tree: &DockTree) -> usize {
    tree.nodes
        .iter()
        .map(|n| match n {
            DockNode::Leaf { tabs, .. } => tabs.len(),
            DockNode::Split => 0,
        })
        .sum()
}

#[test]
fn init_tree_has_one_default_tab() {
    let tree = DockTree::init();
    assert_eq!(total_tabs(&tree), 1);
    assert_eq!(leaf_names(&tree, 0), vec!["Scratch 1".to_string()]);
    assert_eq!(tree.focused, 0);
}

#[test]
fn two_adds_in_one_frame() {
    let mut state = DockState::new();
    assert_eq!(state.counter, 2);

    let focused = focused_tab_or_default(&state.tree);
    let mut viewer = TabViewer::new(focused);
    viewer.on_add(0);
    viewer.on_add(0);
    Dock::show(&mut state, viewer);
    assert_eq!(state.commands.len(), 2);

    let effects = TabEvents::show(&mut state, &None);
    assert!(effects.is_empty());
    assert!(state.commands.is_empty());
    assert_eq!(total_tabs(&state.tree), 3);
    assert_eq!(
        leaf_names(&state.tree, 0),
        vec![
            "Scratch 1".to_string(),
            "Scratch 2".to_string(),
            "Scratch 3".to_string()
        ]
    );
    assert_eq!(state.counter, 4);
}

#[test]
fn close_last_tab_recreates_default() {
    let mut state = DockState::new();
    state.counter = 17;

    // the dock widget removes the tab itself, then the deferred command runs
    assert!(state.tree.remove_tab(0, 0));
    assert_eq!(total_tabs(&state.tree), 0);

    let mut viewer = TabViewer::new(focused_tab_or_default(&state.tree));
    assert!(viewer.on_close());
    Dock::show(&mut state, viewer);
    TabEvents::show(&mut state, &None);

    assert_eq!(total_tabs(&state.tree), 1);
    assert_eq!(leaf_names(&state.tree, 0), vec!["Scratch 1".to_string()]);
    assert_eq!(state.counter, 2);
}

#[test]
fn close_with_remaining_tabs_is_a_no_op() {
    let mut state = DockState::new();
    state.commands.push(Command::TabCommand(TabCommand::Add(0)));
    TabEvents::show(&mut state, &None);
    assert_eq!(total_tabs(&state.tree), 2);

    state.tree.remove_tab(0, 1);
    state.commands.push(Command::TabCommand(TabCommand::Close));
    TabEvents::show(&mut state, &None);
    assert_eq!(total_tabs(&state.tree), 1);
    assert_eq!(leaf_names(&state.tree, 0), vec!["Scratch 1".to_string()]);
    // counter untouched: the tree never became empty
    assert_eq!(state.counter, 3);
}

#[test]
fn add_to_stale_node_is_dropped() {
    let mut state = DockState::new();
    state.commands.push(Command::TabCommand(TabCommand::Add(7)));
    TabEvents::show(&mut state, &None);
    assert_eq!(total_tabs(&state.tree), 1);
    assert_eq!(state.counter, 2);
    assert!(state.commands.is_empty());
}

#[test]
fn context_menu_first_action_wins() {
    let mut viewer = TabViewer::new(0);
    assert!(viewer.context_menu(true, true, true, 3, 1));
    assert_eq!(
        viewer.emitted,
        vec![Command::MenuCommand(MenuCommand::Rename(3, 1))]
    );

    let mut viewer = TabViewer::new(0);
    assert!(viewer.context_menu(false, true, true, 3, 1));
    assert_eq!(
        viewer.emitted,
        vec![Command::MenuCommand(MenuCommand::Save(3, 1))]
    );

    let mut viewer = TabViewer::new(0);
    assert!(viewer.context_menu(false, false, true, 3, 1));
    assert_eq!(
        viewer.emitted,
        vec![Command::MenuCommand(MenuCommand::Share(3, 1))]
    );

    let mut viewer = TabViewer::new(0);
    assert!(!viewer.context_menu(false, false, false, 3, 1));
    assert!(viewer.emitted.is_empty());
}

#[test]
fn rename_dialog_stays_queued_until_confirmed() {
    let mut state = DockState::new();
    state
        .commands
        .push(Command::MenuCommand(MenuCommand::Rename(0, 0)));

    // dialog still open: the command stays queued, nothing changes
    TabEvents::show(&mut state, &None);
    assert_eq!(state.commands.len(), 1);
    assert_eq!(leaf_names(&state.tree, 0), vec!["Scratch 1".to_string()]);

    let id_before = match &state.tree.nodes[0] {
        DockNode::Leaf { tabs, .. } => tabs[0].id,
        DockNode::Split => unreachable!(),
    };

    // confirmed: the name commits, the identity stays, the command leaves
    TabEvents::show(&mut state, &Some("renamed".to_string()));
    assert!(state.commands.is_empty());
    assert_eq!(leaf_names(&state.tree, 0), vec!["renamed".to_string()]);
    let id_after = match &state.tree.nodes[0] {
        DockNode::Leaf { tabs, .. } => tabs[0].id,
        DockNode::Split => unreachable!(),
    };
    assert_eq!(id_before, id_after);
}

#[test]
fn rename_of_stale_reference_is_dropped() {
    let mut state = DockState::new();
    state
        .commands
        .push(Command::MenuCommand(MenuCommand::Rename(0, 5)));
    TabEvents::show(&mut state, &Some("ghost".to_string()));
    assert!(state.commands.is_empty());
    assert_eq!(leaf_names(&state.tree, 0), vec!["Scratch 1".to_string()]);
}

#[test]
fn save_and_share_become_effects_in_order() {
    let mut state = DockState::new();
    state
        .commands
        .push(Command::MenuCommand(MenuCommand::Share(0, 0)));
    state
        .commands
        .push(Command::MenuCommand(MenuCommand::Save(0, 0)));
    let effects = TabEvents::show(&mut state, &None);
    assert_eq!(effects, vec![Effect::Share(0, 0), Effect::Save(0, 0)]);
    assert!(state.commands.is_empty());
}

#[test]
fn counter_resumes_after_recreate() {
    let mut state = DockState::new();
    // create two more tabs, then close everything
    state.commands.push(Command::TabCommand(TabCommand::Add(0)));
    state.commands.push(Command::TabCommand(TabCommand::Add(0)));
    TabEvents::show(&mut state, &None);
    assert_eq!(state.counter, 4);

    state.tree.remove_tab(0, 2);
    state.tree.remove_tab(0, 1);
    state.tree.remove_tab(0, 0);
    state.commands.push(Command::TabCommand(TabCommand::Close));
    TabEvents::show(&mut state, &None);
    assert_eq!(state.counter, 2);

    // the next created tab is Scratch 2, not a reused higher number
    state.commands.push(Command::TabCommand(TabCommand::Add(0)));
    TabEvents::show(&mut state, &None);
    assert_eq!(
        leaf_names(&state.tree, 0),
        vec!["Scratch 1".to_string(), "Scratch 2".to_string()]
    );
}

#[test]
fn focused_tab_id_follows_active_tab() {
    let state = DockState::new();
    let id = focused_tab_or_default(&state.tree);
    match &state.tree.nodes[0] {
        DockNode::Leaf { tabs, .. } => assert_eq!(id, tabs[0].id),
        DockNode::Split => unreachable!(),
    }
}

#[test]
fn decimal_labels() {
    assert_eq!(rust_play::text::scratch_label(1), "Scratch 1");
    assert_eq!(rust_play::text::scratch_label(42), "Scratch 42");
    assert_eq!(rust_play::text::u64_to_dec(0), "0");
    assert_eq!(rust_play::text::u64_to_dec(90210), "90210");
    assert_eq!(
        rust_play::text::u64_to_dec(u64::MAX),
        "18446744073709551615"
    );
}
