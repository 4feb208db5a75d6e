use rust_play::cache::AnsiStyleCache;
use rust_play::tab::ReadOnlyString;
use rust_play::terminal::{HandleFrame, PanelFrame, Terminal, TerminalUiState};

fn closed_state() -> TerminalUiState {
    TerminalUiState::new()
}

fn handle_frame(delta: i64, pointer_y: i64) -> HandleFrame {
    HandleFrame {
        drag_delta_y: delta,
        pointer_y,
        avail_bottom: 6000,
        dragging: true,
        hovered: false,
    }
}

#[test]
fn drag_up_past_threshold_opens_panel_and_keeps_dragging() {
    let mut state = closed_state();
    // half a unit upward (five tenths), pointer above the threshold line
    let actions = Terminal::show_closed_handle(&mut state, &handle_frame(-5, 5000));
    assert!(state.open);
    assert!(state.opened_from_close);
    assert!(
        state.opened_from_close_dragging,
        "the resize handle must be marked dragged in the same step"
    );
    assert!(!actions.set_handle_dragged);
}

#[test]
fn small_drag_does_not_open() {
    let mut state = closed_state();
    Terminal::show_closed_handle(&mut state, &handle_frame(-4, 5000));
    assert!(!state.open);
}

#[test]
fn drag_below_threshold_line_does_not_open() {
    let mut state = closed_state();
    // 6000 - 170 = 5830 is the line; below it the drag is ignored
    Terminal::show_closed_handle(&mut state, &handle_frame(-5, 5900));
    assert!(!state.open);
}

#[test]
fn closed_from_open_hands_the_drag_to_the_handle_once() {
    let mut state = closed_state();
    state.closed_from_open = true;
    let actions = Terminal::show_closed_handle(&mut state, &handle_frame(0, 5900));
    assert!(actions.set_handle_dragged);
    assert!(!state.closed_from_open);
    let actions = Terminal::show_closed_handle(&mut state, &handle_frame(0, 5900));
    assert!(!actions.set_handle_dragged);
}

#[test]
fn hover_or_drag_shows_resize_cursor() {
    let mut state = closed_state();
    let mut frame = handle_frame(0, 5900);
    frame.dragging = false;
    frame.hovered = true;
    let actions = Terminal::show_closed_handle(&mut state, &frame);
    assert!(actions.cursor_resize);
    frame.hovered = false;
    let actions = Terminal::show_closed_handle(&mut state, &frame);
    assert!(!actions.cursor_resize);
}

fn open_state() -> TerminalUiState {
    let mut s = TerminalUiState::new();
    s.open = true;
    s.active_tab = Some(42);
    s
}

fn panel_frame(pointer_y: i64, dragged: bool) -> PanelFrame {
    PanelFrame {
        pointer_x: 1000,
        pointer_y,
        avail_left: 0,
        avail_right: 8000,
        avail_bottom: 6000,
        resize_dragged: dragged,
    }
}

#[test]
fn dragging_into_the_bottom_strip_closes_the_panel() {
    let mut state = open_state();
    let mut cache = AnsiStyleCache::new();
    // 6000 - 200 = 5800: inside the close strip
    let r = Terminal::show(&mut state, &mut cache, &panel_frame(5900, true), b"", b"");
    assert!(!state.open);
    assert!(state.closed_from_open);
    assert!(!r.actions.reset_rect);
}

#[test]
fn pointer_in_strip_without_drag_does_not_close() {
    let mut state = open_state();
    let mut cache = AnsiStyleCache::new();
    Terminal::show(&mut state, &mut cache, &panel_frame(5900, false), b"", b"");
    assert!(state.open);
    assert!(!state.closed_from_open);
}

#[test]
fn hysteresis_uses_the_tighter_threshold_while_open_dragging() {
    // 5850 lies between bottom-200 (5800) and bottom-160 (5840): it closes a
    // resting panel but not one still in its opening drag
    let mut resting = open_state();
    let mut cache = AnsiStyleCache::new();
    Terminal::show(&mut resting, &mut cache, &panel_frame(5810, true), b"", b"");
    assert!(!resting.open);

    let mut still_dragging = open_state();
    still_dragging.opened_from_close_dragging = true;
    let mut cache = AnsiStyleCache::new();
    Terminal::show(
        &mut still_dragging,
        &mut cache,
        &panel_frame(5810, true),
        b"",
        b"",
    );
    assert!(still_dragging.open);
}

#[test]
fn opened_from_close_resets_rect_and_takes_the_drag() {
    let mut state = open_state();
    state.opened_from_close = true;
    state.opened_from_close_dragging = true;
    let mut cache = AnsiStyleCache::new();
    // pointer well above the strip, not dragging the resize id yet
    let r = Terminal::show(&mut state, &mut cache, &panel_frame(1000, false), b"", b"");
    assert!(r.actions.reset_rect);
    assert!(r.actions.set_resize_dragged);
    assert!(!state.opened_from_close);
    // the drag continues: the flag survives this frame
    assert!(state.opened_from_close_dragging);
}

#[test]
fn opening_drag_flag_retires_when_the_drag_ends() {
    let mut state = open_state();
    state.opened_from_close_dragging = true;
    let mut cache = AnsiStyleCache::new();
    Terminal::show(&mut state, &mut cache, &panel_frame(1000, false), b"", b"");
    assert!(!state.opened_from_close_dragging);
}

#[test]
fn panel_strips_both_streams() {
    let mut state = open_state();
    let mut cache = AnsiStyleCache::new();
    let r = Terminal::show(
        &mut state,
        &mut cache,
        &panel_frame(1000, false),
        b"\x1b[32mok\x1b[m out",
        b"\x1b[31mbad\x1b[m err",
    );
    assert_eq!(r.stdout_plain, b"ok out".to_vec());
    assert_eq!(r.stderr_plain, b"bad err".to_vec());
    assert_eq!(cache.plain_recomputes, 2);

    // the next frame with unchanged output hits both caches
    Terminal::show(
        &mut state,
        &mut cache,
        &panel_frame(1000, false),
        b"\x1b[32mok\x1b[m out",
        b"\x1b[31mbad\x1b[m err",
    );
    assert_eq!(cache.plain_recomputes, 2);
}

#[test]
fn scroll_offset_round_trips_per_tab() {
    let mut state = open_state();
    let mut cache = AnsiStyleCache::new();
    let r = Terminal::show(&mut state, &mut cache, &panel_frame(1000, false), b"", b"");
    assert_eq!(r.actions.scroll, (0, 0));

    state.set_scroll_offset(42, (120, 3400));
    let r = Terminal::show(&mut state, &mut cache, &panel_frame(1000, false), b"", b"");
    assert_eq!(r.actions.scroll, (120, 3400));

    state.active_tab = Some(7);
    let r = Terminal::show(&mut state, &mut cache, &panel_frame(1000, false), b"", b"");
    assert_eq!(r.actions.scroll, (0, 0));
}

#[test]
fn read_only_string_swallows_edits() {
    let mut s = ReadOnlyString::new("fixed output");
    assert!(!s.is_mutable());
    assert_eq!(s.as_str(), "fixed output");
    assert_eq!(s.insert_text("nope", 0), 0);
    s.delete_char_range(0, 5);
    s.clear();
    s.replace("other");
    assert_eq!(s.as_str(), "fixed output");
}
