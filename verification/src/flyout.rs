//! The tray flyout (the Windows 11 style settings panel): its size and
//! placement, the mapping between settings and its drop-down lists, and the
//! decisions of its show/hide/expand/collapse behaviour.
//!
//! The panel itself is drawn with WinUI 3 outside this crate; that code keeps a
//! `PanelState` and asks the functions here what each click, tick or expand
//! event means. Times are microseconds on a monotonic clock.

use vstd::prelude::*;
use crate::config::{CapslockAction, JapaneseMode};

verus! {

/// Panel width in logical pixels (96 dpi).
pub const PANEL_W: i32 = 320;

/// Setting row height: the combo box's minimum height 32 plus 4 above and below.
pub const ROW_H: i32 = 40;

/// Card padding above and below.
pub const CARD_PAD_V: i32 = 10;

/// Height of a one-row card: row, padding, and the 1px border top and bottom.
pub const CARD_H: i32 = CARD_PAD_V * 2 + ROW_H + 2;

/// Row height inside the expanded CapsLock card.
pub const EXP_ROW_H: i32 = 48;

/// Height of the expanded part: three rows, two dividers and the bottom border.
pub const EXPANDED_H: i32 = EXP_ROW_H * 3 + 2 + 1;

/// Title row: one line of 14pt text and a 2px margin.
pub const TITLE_H: i32 = 22;

/// Spacing between the title and the cards.
pub const CARD_GAP: i32 = 8;

/// Content padding above and below.
pub const CONTENT_PAD_V: i32 = 12;

/// Footer height (compact app bar).
pub const FOOTER_H: i32 = 48;

/// The 1px separator under the content.
pub const SEP_H: i32 = 1;

/// Gap between the panel and the tray icon, logical pixels.
pub const GAP: i32 = 8;

/// Range of the long-press threshold slider, in milliseconds.
pub const THRESH_MIN_MS: u64 = 100;
pub const THRESH_MAX_MS: u64 = 2000;

/// A tray click this soon after the panel was hidden belongs to that hiding
/// (the taskbar took the focus first) and does not reopen it, microseconds.
pub const DISMISS_GRACE_US: u64 = 300_000;

/// The collapse animation waits this long for the content to settle before
/// shrinking the window, microseconds.
pub const COLLAPSE_SETTLE_US: u64 = 210_000;

/// Duration of the window shrink of the collapse animation, microseconds.
pub const COLLAPSE_SHRINK_US: u64 = 167_000;

/// Logical panel height: content (padding, title, four cards and gaps) plus
/// separator plus footer; the CapsLock card adds `EXPANDED_H` when expanded.
pub open spec fn spec_panel_h(expanded: bool) -> int {
    let caps = CARD_H + if expanded {
        EXPANDED_H
    } else {
        0
    };
    CONTENT_PAD_V * 2 + TITLE_H + CARD_GAP * 4 + CARD_H * 3 + caps + SEP_H + FOOTER_H
}

/// Logical panel height, expanded or collapsed.
pub fn panel_h(expanded: bool) -> (r: i32)
    ensures
        r == spec_panel_h(expanded),
{
    let caps = CARD_H + if expanded {
        EXPANDED_H
    } else {
        0
    };
    CONTENT_PAD_V * 2 + TITLE_H + CARD_GAP * 4 + CARD_H * 3 + caps + SEP_H + FOOTER_H
}

/// The effective dpi: at least 96.
pub open spec fn eff_dpi(dpi: u32) -> int {
    if dpi < 96 {
        96
    } else {
        dpi as int
    }
}

/// A logical length in physical pixels at `dpi`.
pub open spec fn spec_scale(v: int, dpi: u32) -> int {
    v * eff_dpi(dpi) / 96
}

/// Scales a non-negative logical length to physical pixels (dpi 96 = 100%).
pub fn scale(v: i32, dpi: u32) -> (r: i32)
    requires
        0 <= v <= 10_000,
        dpi <= 100_000,
    ensures
        r == spec_scale(v as int, dpi),
        0 <= r <= 10_000 * 100_000 / 96,
{
    let d: i64 = if dpi < 96 {
        96
    } else {
        dpi as i64
    };
    assert(0 <= v * d <= 10_000 * 100_000) by (nonlinear_arith)
        requires
            0 <= v <= 10_000,
            0 <= d <= 100_000,
    ;
    let p: i64 = (v as i64) * d;
    assert(p / 96 <= 10_000 * 100_000 / 96) by (nonlinear_arith)
        requires
            0 <= p <= 10_000 * 100_000,
    ;
    (p / 96) as i32
}

/// Physical panel height at `dpi`.
pub fn phys_h(expanded: bool, dpi: u32) -> (r: i32)
    requires
        dpi <= 100_000,
    ensures
        r == spec_scale(spec_panel_h(expanded), dpi),
        0 <= r <= 10_000 * 100_000 / 96,
{
    scale(panel_h(expanded), dpi)
}

/// A rectangle by its edges (a work area or a client area), physical pixels.
#[derive(Debug, Clone, Copy, PartialEq, Eq, Structural)]
pub struct Edges {
    pub left: i32,
    pub top: i32,
    pub right: i32,
    pub bottom: i32,
}

/// A window position and size, physical pixels.
#[derive(Debug, Clone, Copy, PartialEq, Eq, Structural)]
pub struct Placement {
    pub x: i32,
    pub y: i32,
    pub width: i32,
    pub height: i32,
}

/// `v` limited to `[lo, hi]` (with `lo <= hi`).
pub open spec fn clamp(v: int, lo: int, hi: int) -> int {
    if v < lo {
        lo
    } else if v > hi {
        hi
    } else {
        v
    }
}

pub open spec fn max_int(a: int, b: int) -> int {
    if a >= b {
        a
    } else {
        b
    }
}

/// Coordinates that the placement arithmetic handles.
pub open spec fn coord_ok(v: int) -> bool {
    -0x1000_0000 <= v <= 0x1000_0000
}

/// Where the panel goes: right edge at the tray icon's right edge, bottom edge a
/// gap above the icon, then held inside the work area when there is one.
pub open spec fn spec_place(
    icon_x: i32,
    icon_y: i32,
    icon_w: i32,
    ph: i32,
    dpi: u32,
    work: Option<Edges>,
) -> Placement {
    let pw = spec_scale(PANEL_W as int, dpi);
    let x = icon_x + icon_w - pw;
    let y = icon_y - ph - spec_scale(GAP as int, dpi);
    let (x2, y2) = match work {
        Some(wa) => (
            clamp(x, wa.left as int, max_int(wa.right - pw, wa.left as int)),
            clamp(y, wa.top as int, max_int(wa.bottom - ph, wa.top as int)),
        ),
        None => (x, y),
    };
    Placement { x: x2 as i32, y: y2 as i32, width: pw as i32, height: ph as i32 }
}

fn clamp_i32(v: i32, lo: i32, hi: i32) -> (r: i32)
    requires
        lo <= hi,
    ensures
        r == clamp(v as int, lo as int, hi as int),
{
    if v < lo {
        lo
    } else if v > hi {
        hi
    } else {
        v
    }
}

/// Places the panel of physical height `ph` next to the tray icon (physical
/// pixels): right edge aligned with the icon's right edge, bottom edge `GAP`
/// above the icon, and, given the work area, clamped into it so the taskbar
/// never covers it, wherever the taskbar is.
pub fn place(icon_x: i32, icon_y: i32, icon_w: i32, ph: i32, dpi: u32, work: Option<Edges>) -> (r:
    Placement)
    requires
        coord_ok(icon_x as int),
        coord_ok(icon_y as int),
        coord_ok(icon_w as int),
        0 <= ph <= 0x1000_0000,
        dpi <= 100_000,
        work matches Some(wa) ==> coord_ok(wa.left as int) && coord_ok(wa.top as int) && coord_ok(
            wa.right as int,
        ) && coord_ok(wa.bottom as int),
    ensures
        r == spec_place(icon_x, icon_y, icon_w, ph, dpi, work),
{
    let pw = scale(PANEL_W, dpi);
    let gap = scale(GAP, dpi);
    let mut x = icon_x + icon_w - pw;
    let mut y = icon_y - ph - gap;
    match work {
        Some(wa) => {
            let xmax = if wa.right - pw >= wa.left {
                wa.right - pw
            } else {
                wa.left
            };
            let ymax = if wa.bottom - ph >= wa.top {
                wa.bottom - ph
            } else {
                wa.top
            };
            x = clamp_i32(x, wa.left, xmax);
            y = clamp_i32(y, wa.top, ymax);
        },
        None => {},
    }
    Placement { x, y, width: pw, height: ph }
}

/// The panel's size and position: its width is `PANEL_W` scaled to the dpi
/// (never less than at 96 dpi) and its height is the requested height; without
/// a work area its right edge is on the icon's right edge and its bottom edge
/// `GAP` (scaled) above the icon.
pub proof fn lemma_place_geometry(
    icon_x: i32,
    icon_y: i32,
    icon_w: i32,
    ph: i32,
    dpi: u32,
    work: Option<Edges>,
)
    requires
        coord_ok(icon_x as int),
        coord_ok(icon_y as int),
        coord_ok(icon_w as int),
        0 <= ph <= 0x1000_0000,
        dpi <= 100_000,
        work matches Some(wa) ==> coord_ok(wa.left as int) && coord_ok(wa.top as int) && coord_ok(
            wa.right as int,
        ) && coord_ok(wa.bottom as int),
    ensures
        ({
            let p = spec_place(icon_x, icon_y, icon_w, ph, dpi, work);
            let d: int = if dpi < 96 {
                96
            } else {
                dpi as int
            };
            &&& p.width == 320 * d / 96
            &&& p.width >= 320
            &&& p.height == ph
            &&& work is None ==> p.x + p.width == icon_x + icon_w && p.y + p.height == icon_y - 8
                * d / 96
        }),
{
    let d: int = if dpi < 96 {
        96
    } else {
        dpi as int
    };
    assert(320 <= 320 * d / 96 <= 10_000 * 100_000 / 96) by (nonlinear_arith)
        requires
            96 <= d <= 100_000,
    ;
    assert(0 <= 8 * d / 96 <= 10_000 * 100_000 / 96) by (nonlinear_arith)
        requires
            96 <= d <= 100_000,
    ;
}

/// When the work area is large enough for the panel, the panel lies inside it.
pub proof fn lemma_place_inside(
    icon_x: i32,
    icon_y: i32,
    icon_w: i32,
    ph: i32,
    dpi: u32,
    wa: Edges,
)
    requires
        coord_ok(icon_x as int),
        coord_ok(icon_y as int),
        coord_ok(icon_w as int),
        0 <= ph <= 0x1000_0000,
        dpi <= 100_000,
        coord_ok(wa.left as int),
        coord_ok(wa.top as int),
        coord_ok(wa.right as int),
        coord_ok(wa.bottom as int),
        wa.right - wa.left >= spec_scale(PANEL_W as int, dpi),
        wa.bottom - wa.top >= ph,
    ensures
        ({
            let p = spec_place(icon_x, icon_y, icon_w, ph, dpi, Some(wa));
            &&& wa.left <= p.x && p.x + p.width <= wa.right
            &&& wa.top <= p.y && p.y + p.height <= wa.bottom
        }),
{
    let d = eff_dpi(dpi);
    assert(0 <= PANEL_W * d / 96 <= 10_000 * 100_000 / 96) by (nonlinear_arith)
        requires
            96 <= d <= 100_000,
    ;
    assert(0 <= GAP * d / 96 <= 10_000 * 100_000 / 96) by (nonlinear_arith)
        requires
            96 <= d <= 100_000,
    ;
}

/// How the XAML island child window sits in the panel window.
#[derive(Debug, Clone, Copy, PartialEq, Eq, Structural)]
pub enum IslandPos {
    /// Fill the client area (the normal state).
    Fill,
    /// Keep the island at the expanded height with its bottom on the window's
    /// bottom edge: the shrinking window only cuts off the empty top, so the
    /// content is never redrawn during the collapse animation.
    AnchorBottom,
}

/// Where the island child window goes inside a client area.
pub open spec fn spec_island_frame(mode: IslandPos, client: Edges, island_h: i32) -> Placement {
    let w = client.right - client.left;
    let h = client.bottom - client.top;
    match mode {
        IslandPos::Fill => Placement { x: 0, y: 0, width: w as i32, height: h as i32 },
        IslandPos::AnchorBottom => Placement {
            x: 0,
            y: (h - island_h) as i32,
            width: w as i32,
            height: island_h,
        },
    }
}

/// Positions the island child window in a client area: filling it, or at the
/// height `island_h` anchored to the bottom (its top may lie above the client
/// area and is then cut off).
pub fn island_frame(mode: IslandPos, client: Edges, island_h: i32) -> (r: Placement)
    requires
        coord_ok(client.left as int),
        coord_ok(client.top as int),
        coord_ok(client.right as int),
        coord_ok(client.bottom as int),
        coord_ok(island_h as int),
    ensures
        r == spec_island_frame(mode, client, island_h),
        r.y + r.height == client.bottom - client.top,
{
    let w = client.right - client.left;
    let h = client.bottom - client.top;
    match mode {
        IslandPos::Fill => Placement { x: 0, y: 0, width: w, height: h },
        IslandPos::AnchorBottom => Placement { x: 0, y: h - island_h, width: w, height: island_h },
    }
}

/// The CapsLock action list's entries, by index.
pub open spec fn spec_action_at(idx: i32) -> CapslockAction {
    if idx == 1 {
        CapslockAction::Cycle
    } else if idx == 2 {
        CapslockAction::CapsLock
    } else {
        CapslockAction::CjkUs
    }
}

/// The index of an action in the CapsLock action lists.
pub open spec fn spec_action_index(a: CapslockAction) -> i32 {
    match a {
        CapslockAction::CjkUs => 0,
        CapslockAction::Cycle => 1,
        CapslockAction::CapsLock => 2,
    }
}

/// The list index that shows an action (CJK/US switch, cycle, CapsLock).
pub fn action_index(a: CapslockAction) -> (r: i32)
    ensures
        r == spec_action_index(a),
{
    match a {
        CapslockAction::CjkUs => 0,
        CapslockAction::Cycle => 1,
        CapslockAction::CapsLock => 2,
    }
}

/// The action a list index selects; indexes out of range give the default.
pub fn action_at(idx: i32) -> (r: CapslockAction)
    ensures
        r == spec_action_at(idx),
{
    if idx == 1 {
        CapslockAction::Cycle
    } else if idx == 2 {
        CapslockAction::CapsLock
    } else {
        CapslockAction::default()
    }
}

/// The index of a Japanese mode in the mode list.
pub open spec fn spec_japanese_index(mode: JapaneseMode) -> i32 {
    match mode {
        JapaneseMode::Hiragana => 0,
        JapaneseMode::Katakana => 1,
        JapaneseMode::FullWidthAlnum => 2,
    }
}

/// The Japanese mode a list index selects: 0 hiragana, 1 katakana, anything
/// else full-width alphanumerics.
pub open spec fn spec_japanese_at(idx: i32) -> JapaneseMode {
    if idx == 0 {
        JapaneseMode::Hiragana
    } else if idx == 1 {
        JapaneseMode::Katakana
    } else {
        JapaneseMode::FullWidthAlnum
    }
}

/// The list index that shows a Japanese mode.
pub fn japanese_index(mode: JapaneseMode) -> (r: i32)
    ensures
        r == spec_japanese_index(mode),
{
    match mode {
        JapaneseMode::Hiragana => 0,
        JapaneseMode::Katakana => 1,
        JapaneseMode::FullWidthAlnum => 2,
    }
}

/// The Japanese mode a list index selects.
pub fn japanese_at(idx: i32) -> (r: JapaneseMode)
    ensures
        r == spec_japanese_at(idx),
{
    match idx {
        0 => JapaneseMode::Hiragana,
        1 => JapaneseMode::Katakana,
        _ => JapaneseMode::FullWidthAlnum,
    }
}

/// Showing a setting in a list and reading the list back gives the setting;
/// every list entry is shown by its own index.
pub proof fn lemma_list_round_trip(a: CapslockAction, m: JapaneseMode, idx: i32)
    ensures
        spec_action_at(spec_action_index(a)) == a,
        spec_japanese_at(spec_japanese_index(m)) == m,
        0 <= idx < 3 ==> spec_action_index(spec_action_at(idx)) == idx,
        0 <= idx < 3 ==> spec_japanese_index(spec_japanese_at(idx)) == idx,
{
}

/// The long-press threshold for a slider value already rounded to whole
/// milliseconds: values outside the slider's range are clamped into it.
pub fn threshold_ms(rounded: i64) -> (r: u64)
    ensures
        r == clamp(rounded as int, THRESH_MIN_MS as int, THRESH_MAX_MS as int),
        THRESH_MIN_MS <= r <= THRESH_MAX_MS,
{
    if rounded < 100 {
        THRESH_MIN_MS
    } else if rounded > 2000 {
        THRESH_MAX_MS
    } else {
        rounded as u64
    }
}

/// The panel's show/hide/collapse state.
#[derive(Debug, Clone, Copy, PartialEq, Eq, Structural)]
pub struct PanelState {
    /// The panel is on screen.
    pub visible: bool,
    /// The panel has been placed at a tray icon (which expand/collapse reuse).
    pub anchored: bool,
    /// When the panel was last hidden.
    pub hidden_at: Option<u64>,
    /// When the running collapse animation started, if one is running.
    pub collapse_start: Option<u64>,
}

/// What a tray click does.
#[derive(Debug, Clone, Copy, PartialEq, Eq, Structural)]
pub enum ToggleStep {
    /// The panel is visible: hide it.
    Hide,
    /// The panel was hidden a moment ago by this very click: leave it hidden.
    Stay,
    /// Place the panel at the tray icon and show it.
    Show,
}

/// What a tray click at `now` does.
pub open spec fn spec_toggle_at(p: PanelState, now: u64) -> ToggleStep {
    if p.visible {
        ToggleStep::Hide
    } else if p.hidden_at matches Some(t) && (if now >= t {
        now - t
    } else {
        0
    }) < DISMISS_GRACE_US {
        ToggleStep::Stay
    } else {
        ToggleStep::Show
    }
}

/// A tray click: hide a visible panel, otherwise show it at the tray icon.
///
/// A click while the panel is visible first takes the focus to the taskbar,
/// which hides the panel before the click arrives; a click within
/// `DISMISS_GRACE_US` of hiding is that click and does not reopen the panel.
pub fn toggle_at(p: &PanelState, now: u64) -> (r: ToggleStep)
    ensures
        r == spec_toggle_at(*p, now),
{
    if p.visible {
        return ToggleStep::Hide;
    }
    match p.hidden_at {
        Some(t) => {
            let elapsed = if now >= t {
                now - t
            } else {
                0
            };
            if elapsed < DISMISS_GRACE_US {
                ToggleStep::Stay
            } else {
                ToggleStep::Show
            }
        },
        None => ToggleStep::Show,
    }
}

/// Stops a running collapse animation; says whether its timer must be killed.
pub fn stop_collapse(p: &mut PanelState) -> (kill_timer: bool)
    ensures
        kill_timer == old(p).collapse_start is Some,
        *final(p) == (PanelState { collapse_start: None, ..*old(p) }),
{
    let running = p.collapse_start.is_some();
    p.collapse_start = None;
    running
}

/// Hides the panel at `now`: stops the collapse animation (the result says
/// whether its timer must be killed) and remembers when it was hidden. The
/// caller also stops the expand animation and hides the window.
pub fn hide_panel(p: &mut PanelState, now: u64) -> (kill_timer: bool)
    ensures
        kill_timer == old(p).collapse_start is Some,
        *final(p) == (PanelState {
            visible: false,
            hidden_at: Some(now),
            collapse_start: None,
            ..*old(p)
        }),
{
    let kill = stop_collapse(p);
    p.visible = false;
    p.hidden_at = Some(now);
    kill
}

/// Prepares showing the panel at a tray icon: stops a collapse animation (the
/// result says whether its timer must be killed) and anchors the panel. The
/// caller sets `visible` once the window is actually shown.
pub fn begin_show(p: &mut PanelState) -> (kill_timer: bool)
    ensures
        kill_timer == old(p).collapse_start is Some,
        *final(p) == (PanelState { anchored: true, collapse_start: None, ..*old(p) }),
{
    let kill = stop_collapse(p);
    p.anchored = true;
    kill
}

/// What expanding or collapsing the CapsLock card does to the window.
#[derive(Debug, Clone, Copy, PartialEq, Eq, Structural)]
pub enum ExpandStep {
    /// The panel is not shown at a tray icon: nothing to do.
    Ignore,
    /// Grow the window to the expanded height at once and play the slide; the
    /// flag says whether a collapse animation's timer must be killed first.
    Expand(bool),
    /// Anchor the content to the bottom and start the collapse animation timer.
    Collapse,
}

/// The state after, and the window work for, an expand or collapse event.
pub open spec fn spec_on_expand_state(p: PanelState, expanded: bool, now: u64) -> (
    PanelState,
    ExpandStep,
) {
    if !p.visible || !p.anchored {
        (p, ExpandStep::Ignore)
    } else if expanded {
        (
            PanelState { collapse_start: None, ..p },
            ExpandStep::Expand(p.collapse_start is Some),
        )
    } else {
        (PanelState { collapse_start: Some(now), ..p }, ExpandStep::Collapse)
    }
}

/// The CapsLock card was expanded or collapsed at `now`.
///
/// The window is only resized when the state switches, and all animation runs
/// in the content: expanding grows the window at once and slides the content
/// up; collapsing lets the content collapse, then shrinks the window frame by
/// frame (see `on_anim_tick`).
pub fn on_expand_state(p: &mut PanelState, expanded: bool, now: u64) -> (r: ExpandStep)
    ensures
        (*final(p), r) == spec_on_expand_state(*old(p), expanded, now),
{
    if !p.visible || !p.anchored {
        return ExpandStep::Ignore;
    }
    if expanded {
        let kill = stop_collapse(p);
        ExpandStep::Expand(kill)
    } else {
        p.collapse_start = Some(now);
        ExpandStep::Collapse
    }
}

/// One frame of the collapse animation.
#[derive(Debug, Clone, Copy, PartialEq, Eq, Structural)]
pub enum AnimStep {
    /// No collapse animation is running.
    Idle,
    /// The panel lost its anchor: the animation was stopped (kill its timer).
    Stop,
    /// The content is still collapsing: leave the window alone.
    Wait,
    /// Shrink the window: `progress` microseconds into the shrink (at most
    /// `COLLAPSE_SHRINK_US`), with the island placed as given; when `done`,
    /// this is the last frame and the animation was stopped (kill its timer).
    Frame { progress: u64, island: IslandPos, done: bool },
}

/// The state after, and the work for, a collapse animation tick at `now`.
pub open spec fn spec_on_anim_tick(p: PanelState, now: u64) -> (PanelState, AnimStep) {
    match p.collapse_start {
        None => (p, AnimStep::Idle),
        Some(start) => if !p.anchored {
            (PanelState { collapse_start: None, ..p }, AnimStep::Stop)
        } else {
            let el: int = if now >= start {
                now - start
            } else {
                0
            };
            if el < COLLAPSE_SETTLE_US {
                (p, AnimStep::Wait)
            } else if el - COLLAPSE_SETTLE_US >= COLLAPSE_SHRINK_US {
                (
                    PanelState { collapse_start: None, ..p },
                    AnimStep::Frame {
                        progress: COLLAPSE_SHRINK_US,
                        island: IslandPos::Fill,
                        done: true,
                    },
                )
            } else {
                (
                    p,
                    AnimStep::Frame {
                        progress: (el - COLLAPSE_SETTLE_US) as u64,
                        island: IslandPos::AnchorBottom,
                        done: false,
                    },
                )
            }
        },
    }
}

/// A collapse animation tick (the hidden window's timer): wait until the
/// content has collapsed (`COLLAPSE_SETTLE_US`), then shrink the window over
/// `COLLAPSE_SHRINK_US`, keeping the island at full height on the bottom edge
/// until the last frame, which fills it again and ends the animation.
pub fn on_anim_tick(p: &mut PanelState, now: u64) -> (r: AnimStep)
    ensures
        (*final(p), r) == spec_on_anim_tick(*old(p), now),
{
    let start = match p.collapse_start {
        Some(s) => s,
        None => {
            return AnimStep::Idle;
        },
    };
    if !p.anchored {
        stop_collapse(p);
        return AnimStep::Stop;
    }
    let el = if now >= start {
        now - start
    } else {
        0
    };
    if el < COLLAPSE_SETTLE_US {
        return AnimStep::Wait;
    }
    let progress = el - COLLAPSE_SETTLE_US;
    if progress >= COLLAPSE_SHRINK_US {
        stop_collapse(p);
        AnimStep::Frame { progress: COLLAPSE_SHRINK_US, island: IslandPos::Fill, done: true }
    } else {
        AnimStep::Frame { progress, island: IslandPos::AnchorBottom, done: false }
    }
}

/// A click on the tray icon within the grace period after hiding leaves the
/// panel hidden; a later one shows it again; a click on a visible panel hides
/// it.
pub proof fn lemma_toggle_after_hide(p: PanelState, hidden: u64, later: u64)
    requires
        hidden <= later,
    ensures
        ({
            let q = PanelState { visible: false, hidden_at: Some(hidden), collapse_start: None, ..p };
            &&& later - hidden < DISMISS_GRACE_US ==> spec_toggle_at(q, later) == ToggleStep::Stay
            &&& later - hidden >= DISMISS_GRACE_US ==> spec_toggle_at(q, later) == ToggleStep::Show
        }),
        p.visible ==> spec_toggle_at(p, later) == ToggleStep::Hide,
{
}

/// A collapse started at `start` waits while the content settles, and a tick
/// once settle and shrink time have passed ends it; the next tick is idle.
pub proof fn lemma_collapse_ends(p: PanelState, start: u64, now: u64)
    requires
        p.visible,
        p.anchored,
        start <= now,
    ensures
        ({
            let (q, step) = spec_on_expand_state(p, false, start);
            let (q2, step2) = spec_on_anim_tick(q, now);
            &&& step == ExpandStep::Collapse
            &&& now - start < COLLAPSE_SETTLE_US ==> step2 == AnimStep::Wait && q2 == q
            &&& now - start >= COLLAPSE_SETTLE_US + COLLAPSE_SHRINK_US ==> step2 == (AnimStep::Frame {
                progress: COLLAPSE_SHRINK_US,
                island: IslandPos::Fill,
                done: true,
            }) && spec_on_anim_tick(q2, now).1 == AnimStep::Idle
        }),
{
}

/// The lists' order, which their labels follow: CJK/US switch, cycle, CapsLock;
/// hiragana, katakana, full-width alphanumerics. Indexes out of range select the
/// CJK/US switch in the action lists and full-width alphanumerics in the mode
/// list.
pub proof fn lemma_list_order(idx: i32)
    ensures
        spec_action_index(CapslockAction::CjkUs) == 0,
        spec_action_index(CapslockAction::Cycle) == 1,
        spec_action_index(CapslockAction::CapsLock) == 2,
        spec_japanese_index(JapaneseMode::Hiragana) == 0,
        spec_japanese_index(JapaneseMode::Katakana) == 1,
        spec_japanese_index(JapaneseMode::FullWidthAlnum) == 2,
        (idx < 0 || idx > 2) ==> spec_action_at(idx) == CapslockAction::CjkUs,
        (idx < 0 || idx > 2) ==> spec_japanese_at(idx) == JapaneseMode::FullWidthAlnum,
{
}

/// The threshold keeps a value inside 100..=2000 ms and moves any other value to
/// the nearer end.
pub proof fn lemma_threshold_rules(v: i64)
    ensures
        100 <= v <= 2000 ==> clamp(v as int, THRESH_MIN_MS as int, THRESH_MAX_MS as int) == v,
        v < 100 ==> clamp(v as int, THRESH_MIN_MS as int, THRESH_MAX_MS as int) == 100,
        v > 2000 ==> clamp(v as int, THRESH_MIN_MS as int, THRESH_MAX_MS as int) == 2000,
{
}

/// The island spans the client area's width; filling, it covers the client area
/// exactly; anchored to the bottom, it keeps its own height and ends at the
/// client area's bottom.
pub proof fn lemma_island_rules(mode: IslandPos, client: Edges, island_h: i32)
    requires
        coord_ok(client.left as int),
        coord_ok(client.top as int),
        coord_ok(client.right as int),
        coord_ok(client.bottom as int),
        coord_ok(island_h as int),
    ensures
        ({
            let p = spec_island_frame(mode, client, island_h);
            &&& p.x == 0 && p.width == client.right - client.left
            &&& mode == IslandPos::Fill ==> p.y == 0 && p.height == client.bottom - client.top
            &&& mode == IslandPos::AnchorBottom ==> p.height == island_h && p.y + p.height
                == client.bottom - client.top
        }),
{
}

/// During the shrink, a tick `el` microseconds after the collapse started
/// reports how far into the shrink it is, keeps the island anchored to the
/// bottom and keeps the animation running.
pub proof fn lemma_collapse_progress(p: PanelState, start: u64, now: u64)
    requires
        p.anchored,
        p.collapse_start == Some(start),
        start <= now,
        COLLAPSE_SETTLE_US <= now - start < COLLAPSE_SETTLE_US + COLLAPSE_SHRINK_US,
    ensures
        spec_on_anim_tick(p, now) == (p, AnimStep::Frame {
            progress: (now - start - COLLAPSE_SETTLE_US) as u64,
            island: IslandPos::AnchorBottom,
            done: false,
        }),
{
}

/// The expanded panel is taller than the collapsed one by exactly the height of
/// the expanded part.
pub proof fn lemma_panel_heights()
    ensures
        spec_panel_h(true) - spec_panel_h(false) == EXPANDED_H,
        spec_panel_h(false) == 375,
        spec_panel_h(true) == 522,
{
}

} // verus!
