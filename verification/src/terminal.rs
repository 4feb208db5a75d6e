//! The bottom terminal panel: its open/close drag state machine and the
//! per-frame orchestration of the memoized output pipeline.
//!
//! Geometry comes in as integer tenths of a screen unit. Two different
//! thresholds guard closing — a tighter one while the panel is still in the
//! drag that opened it — so the boundary does not flicker; and transient
//! flags hand the resize handle over between the open panel and the closed
//! handle exactly once per transition, so neither opening nor closing snaps
//! visibly.

use vstd::prelude::*;
use vstd::hash_map::HashMapWithView;

use crate::cache::{plain_hit, plain_passthrough, plain_source, stripped_of, AnsiStyleCache};
use crate::hashing::fnv1a;

verus! {

broadcast use vstd::std_specs::hash::group_hash_axioms;

/// Close threshold, in tenths, while the opening drag is still in progress.
pub const CLOSE_THRESHOLD_DRAGGING: i64 = 160;

/// Close threshold, in tenths, once the panel rests open.
pub const CLOSE_THRESHOLD: i64 = 200;

/// Distance, in tenths, between the window bottom and the closed handle's
/// open-threshold line.
pub const HANDLE_BOTTOM_MARGIN: i64 = 170;

/// The upward drag, in tenths, that opens the closed panel.
pub const OPEN_DRAG_DELTA: i64 = 5;

/// The per-session terminal panel state: visibility, the transition flags,
/// the active tab, and the per-tab scroll offsets (in tenths).
pub struct TerminalUiState {
    pub open: bool,
    pub opened_from_close: bool,
    pub opened_from_close_dragging: bool,
    pub closed_from_open: bool,
    pub active_tab: Option<u64>,
    pub scroll_offset: HashMapWithView<u64, (i64, i64)>,
}

impl TerminalUiState {
    pub fn new() -> (s: TerminalUiState)
        ensures
            !s.open,
            !s.opened_from_close,
            !s.opened_from_close_dragging,
            !s.closed_from_open,
            s.active_tab is None,
            s.scroll_offset@ == Map::<u64, (i64, i64)>::empty(),
    {
        TerminalUiState {
            open: false,
            opened_from_close: false,
            opened_from_close_dragging: false,
            closed_from_open: false,
            active_tab: None,
            scroll_offset: HashMapWithView::new(),
        }
    }

    /// Stores the scroll offset the frame ended with for a tab.
    pub fn set_scroll_offset(&mut self, tab: u64, offset: (i64, i64))
        ensures
            final(self).scroll_offset@ == old(self).scroll_offset@.insert(tab, offset),
            final(self).open == old(self).open,
            final(self).opened_from_close == old(self).opened_from_close,
            final(self).opened_from_close_dragging == old(self).opened_from_close_dragging,
            final(self).closed_from_open == old(self).closed_from_open,
            final(self).active_tab == old(self).active_tab,
    {
        self.scroll_offset.insert(tab, offset);
    }
}

/// The pointer and geometry inputs of one frame of the open panel.
pub struct PanelFrame {
    pub pointer_x: i64,
    pub pointer_y: i64,
    pub avail_left: i64,
    pub avail_right: i64,
    pub avail_bottom: i64,
    /// Whether the panel's resize handle is being dragged this frame.
    pub resize_dragged: bool,
}

/// What the open panel asks the UI layer to do this frame.
pub struct PanelActions {
    /// Reposition the panel rect to the pointer before drawing, so a panel
    /// opened by a drag appears where the pointer is instead of flashing
    /// large.
    pub reset_rect: bool,
    /// Mark the resize handle as dragged in this same frame, so the opening
    /// drag continues seamlessly.
    pub set_resize_dragged: bool,
    /// The scroll offset to restore for the active tab.
    pub scroll: (i64, i64),
}

/// The close threshold in force this frame.
pub open spec fn close_threshold_of(st: TerminalUiState) -> int {
    if st.opened_from_close_dragging {
        CLOSE_THRESHOLD_DRAGGING as int
    } else {
        CLOSE_THRESHOLD as int
    }
}

/// Whether the pointer stands in the closing strip at the bottom (or below
/// the window, which while a drag continues still counts).
pub open spec fn pointer_in_close_zone(st: TerminalUiState, f: PanelFrame) -> bool {
    let thresh = close_threshold_of(st);
    ||| (f.avail_left <= f.pointer_x <= f.avail_right && f.avail_bottom - thresh <= f.pointer_y
        <= f.avail_bottom)
    ||| f.pointer_y >= f.avail_bottom - thresh
}

/// Whether this frame closes the panel: the handle is being dragged and the
/// pointer has crossed into the close zone.
pub open spec fn panel_closes(st: TerminalUiState, f: PanelFrame) -> bool {
    pointer_in_close_zone(st, f) && f.resize_dragged
}

/// The panel state after one frame of the open panel.
pub open spec fn panel_step(st: TerminalUiState, f: PanelFrame) -> TerminalUiState {
    let closes = panel_closes(st, f);
    let open2 = if closes {
        false
    } else {
        st.open
    };
    let closed_from_open2 = st.closed_from_open || closes;
    // a handle marked dragged this frame counts as dragged when the
    // opening-drag flag is re-examined
    let dragged_now = f.resize_dragged || st.opened_from_close;
    TerminalUiState {
        open: open2,
        opened_from_close: false,
        opened_from_close_dragging: st.opened_from_close_dragging && dragged_now,
        closed_from_open: closed_from_open2,
        ..st
    }
}

/// The scroll offset stored for `tab`, or the origin.
pub open spec fn scroll_of(st: TerminalUiState, tab: u64) -> (i64, i64) {
    if st.scroll_offset@.contains_key(tab) {
        st.scroll_offset@[tab]
    } else {
        (0i64, 0i64)
    }
}

/// The styled-cache stream identity of a tab's standard output.
pub open spec fn stdout_stream_of(tab: u64) -> u64 {
    tab
}

/// The styled-cache stream identity of a tab's standard error, distinct
/// from the standard-output identity of the same tab.
pub open spec fn stderr_stream_of(tab: u64) -> u64 {
    tab ^ 0x5f73746465727221
}

/// The styled-cache stream key of a tab's standard output.
pub fn stdout_stream(tab: u64) -> (r: u64)
    ensures
        r == stdout_stream_of(tab),
{
    tab
}

/// The styled-cache stream key of a tab's standard error.
pub fn stderr_stream(tab: u64) -> (r: u64)
    ensures
        r == stderr_stream_of(tab),
{
    tab ^ 0x5f73746465727221
}

/// What one frame of the open terminal panel produces: the UI actions and
/// the two plain texts to show.
pub struct TerminalFrame {
    pub actions: PanelActions,
    pub stdout_plain: Vec<u8>,
    pub stderr_plain: Vec<u8>,
}

/// The terminal panel.
pub struct Terminal;

impl Terminal {
    /// One frame of the open panel: decides whether the drag crossing the
    /// bottom threshold closes it, hands the resize handle over when the
    /// panel was just opened by a drag, retires the opening-drag flag once
    /// the drag has ended, restores the active tab's scroll offset, and
    /// produces the stripped output texts through the per-stream caches.
    pub fn show(
        state: &mut TerminalUiState,
        cache: &mut AnsiStyleCache,
        frame: &PanelFrame,
        stdout_raw: &[u8],
        stderr_raw: &[u8],
    ) -> (r: TerminalFrame)
        requires
            old(state).active_tab is Some,
            old(cache).wf(),
            old(cache).plain_recomputes + 2 <= u64::MAX,
            i64::MIN + CLOSE_THRESHOLD <= frame.avail_bottom,
        ensures
            *final(state) == panel_step(*old(state), *frame),
            r.actions.reset_rect == old(state).opened_from_close,
            r.actions.set_resize_dragged == old(state).opened_from_close,
            r.actions.scroll == scroll_of(*old(state), old(state).active_tab->0),
            final(cache).wf(),
            final(cache).styled@ == old(cache).styled@,
            final(cache).styled_recomputes == old(cache).styled_recomputes,
            ({
                let tab = old(state).active_tab->0;
                let hit_out = plain_hit(old(cache).plain_out@, tab, stdout_raw@);
                let hit_err = plain_hit(old(cache).plain_err@, tab, stderr_raw@);
                &&& r.stdout_plain@ == stripped_of(
                    plain_source(old(cache).plain_out@, tab, stdout_raw@),
                )
                &&& r.stderr_plain@ == stripped_of(
                    plain_source(old(cache).plain_err@, tab, stderr_raw@),
                )
                &&& (hit_out ==> r.stdout_plain@ == old(cache).plain_out@[tab].text@
                    && final(cache).plain_out@ == old(cache).plain_out@)
                &&& (hit_err ==> r.stderr_plain@ == old(cache).plain_err@[tab].text@
                    && final(cache).plain_err@ == old(cache).plain_err@)
                &&& (!hit_out ==> {
                    &&& (plain_passthrough(stdout_raw@) ==> r.stdout_plain@ == stdout_raw@)
                    &&& final(cache).plain_out@.contains_key(tab)
                    &&& final(cache).plain_out@[tab].src@ == stdout_raw@
                    &&& final(cache).plain_out@[tab].hash == fnv1a(stdout_raw@)
                    &&& (forall|k: u64|
                        k != tab ==> (final(cache).plain_out@.contains_key(k)
                            <==> old(cache).plain_out@.contains_key(k)))
                    &&& (forall|k: u64|
                        k != tab && old(cache).plain_out@.contains_key(k)
                            ==> final(cache).plain_out@[k] == old(cache).plain_out@[k])
                })
                &&& (!hit_err ==> {
                    &&& (plain_passthrough(stderr_raw@) ==> r.stderr_plain@ == stderr_raw@)
                    &&& final(cache).plain_err@.contains_key(tab)
                    &&& final(cache).plain_err@[tab].src@ == stderr_raw@
                    &&& final(cache).plain_err@[tab].hash == fnv1a(stderr_raw@)
                    &&& (forall|k: u64|
                        k != tab ==> (final(cache).plain_err@.contains_key(k)
                            <==> old(cache).plain_err@.contains_key(k)))
                    &&& (forall|k: u64|
                        k != tab && old(cache).plain_err@.contains_key(k)
                            ==> final(cache).plain_err@[k] == old(cache).plain_err@[k])
                })
                &&& final(cache).plain_recomputes == old(cache).plain_recomputes + (if hit_out {
                    0int
                } else {
                    1int
                }) + (if hit_err {
                    0int
                } else {
                    1int
                })
            }),
    {
        let reset_rect = state.opened_from_close;

        let close_threshold: i64 = if state.opened_from_close_dragging {
            CLOSE_THRESHOLD_DRAGGING
        } else {
            CLOSE_THRESHOLD
        };
        let window_close_bottom = frame.avail_bottom - close_threshold;
        let in_strip = frame.avail_left <= frame.pointer_x && frame.pointer_x <= frame.avail_right
            && window_close_bottom <= frame.pointer_y && frame.pointer_y <= frame.avail_bottom;
        if (in_strip || frame.pointer_y >= window_close_bottom) && frame.resize_dragged {
            state.open = false;
            state.closed_from_open = true;
        }

        let set_resize_dragged = state.opened_from_close;
        let dragged_now = frame.resize_dragged || state.opened_from_close;
        state.opened_from_close = false;

        if state.opened_from_close_dragging && !dragged_now {
            state.opened_from_close_dragging = false;
        }

        let tab = match state.active_tab {
            Some(t) => t,
            None => 0,
        };
        let scroll = match state.scroll_offset.get(&tab) {
            Some(o) => *o,
            None => (0, 0),
        };

        let stdout_plain = cache.strip_stdout(tab, stdout_raw);
        let stderr_plain = cache.strip_stderr(tab, stderr_raw);

        proof {
            assert(*state == panel_step(*old(state), *frame));
        }
        TerminalFrame {
            actions: PanelActions { reset_rect, set_resize_dragged, scroll },
            stdout_plain,
            stderr_plain,
        }
    }
}

/// The pointer inputs of one frame of the closed handle.
pub struct HandleFrame {
    /// The vertical drag movement this frame, in tenths (negative is up).
    pub drag_delta_y: i64,
    pub pointer_y: i64,
    pub avail_bottom: i64,
    /// Whether the handle is being dragged.
    pub dragging: bool,
    /// Whether the pointer hovers the handle.
    pub hovered: bool,
}

/// What the closed handle asks the UI layer to do this frame.
pub struct HandleActions {
    /// Mark the handle as dragged, continuing the drag that closed the
    /// panel without a visible snap.
    pub set_handle_dragged: bool,
    /// Show the vertical-resize cursor.
    pub cursor_resize: bool,
}

/// Whether this frame's drag opens the panel: at least half a unit upward
/// while the pointer stays above the threshold line near the bottom.
pub open spec fn handle_opens(f: HandleFrame) -> bool {
    f.drag_delta_y <= -OPEN_DRAG_DELTA && f.pointer_y <= f.avail_bottom - HANDLE_BOTTOM_MARGIN
}

/// The panel state after one frame of the closed handle.
pub open spec fn handle_step(st: TerminalUiState, f: HandleFrame) -> TerminalUiState {
    if handle_opens(f) {
        TerminalUiState {
            open: true,
            opened_from_close: true,
            opened_from_close_dragging: true,
            closed_from_open: false,
            ..st
        }
    } else {
        TerminalUiState { closed_from_open: false, ..st }
    }
}

impl Terminal {
    /// One frame of the closed handle at the bottom edge: hands the drag
    /// over when the panel was just closed, shows the resize cursor over
    /// the handle, and opens the panel on a sufficient upward drag, marking
    /// the resize handle dragged in the same step.
    pub fn show_closed_handle(state: &mut TerminalUiState, frame: &HandleFrame) -> (r:
        HandleActions)
        requires
            i64::MIN + HANDLE_BOTTOM_MARGIN <= frame.avail_bottom,
        ensures
            *final(state) == handle_step(*old(state), *frame),
            r.set_handle_dragged == old(state).closed_from_open,
            r.cursor_resize == (frame.dragging || frame.hovered),
            handle_opens(*frame) ==> final(state).open && final(state).opened_from_close_dragging,
    {
        let set_handle_dragged = state.closed_from_open;
        if state.closed_from_open {
            state.closed_from_open = false;
        }

        let cursor_resize = frame.dragging || frame.hovered;

        let window_bottom = frame.avail_bottom - HANDLE_BOTTOM_MARGIN;
        if frame.drag_delta_y <= -OPEN_DRAG_DELTA && frame.pointer_y <= window_bottom {
            state.open = true;
            state.opened_from_close = true;
            state.opened_from_close_dragging = true;
        }

        proof {
            assert(*state == handle_step(*old(state), *frame));
        }
        HandleActions { set_handle_dragged, cursor_resize }
    }
}

/// Drag-to-open, as a law over the handle's transition function: any frame
/// whose drag moves at least half a unit upward while the pointer stays
/// above the closed-panel threshold line takes the state to open, with the
/// resize handle marked as being dragged in the same step.
pub proof fn lemma_drag_opens_panel(st: TerminalUiState, f: HandleFrame)
    requires
        f.drag_delta_y <= -OPEN_DRAG_DELTA,
        f.pointer_y <= f.avail_bottom - HANDLE_BOTTOM_MARGIN,
    ensures
        handle_step(st, f).open,
        handle_step(st, f).opened_from_close,
        handle_step(st, f).opened_from_close_dragging,
{
}

} // verus!
