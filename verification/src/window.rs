//! What an overlay window is built from: its placement over one monitor, the
//! extended style that makes it a click-through topmost layer, and the request
//! that keeps it above every other window.

use vstd::prelude::*;

verus! {

/// Title given to every overlay window.
pub const OVERLAY_TITLE: &'static str = "Red Overlay";

/// Time between two requests to stay topmost, per window, in milliseconds.
pub const KEEP_ON_TOP_PERIOD_MS: u64 = 1000;

/// Extended style bit: the window stays above all non-topmost windows.
pub const WS_EX_TOPMOST: u32 = 0x0000_0008;

/// Extended style bit: input passes through to whatever lies beneath.
pub const WS_EX_TRANSPARENT: u32 = 0x0000_0020;

/// Extended style bit: tool window, hidden from the task bar and switcher.
pub const WS_EX_TOOLWINDOW: u32 = 0x0000_0080;

/// Extended style bit: layered window, composited with an alpha attribute.
pub const WS_EX_LAYERED: u32 = 0x0008_0000;

/// Extended style bit: showing the window does not activate it.
pub const WS_EX_NOACTIVATE: u32 = 0x0800_0000;

/// All the extended style bits an overlay window carries.
pub const OVERLAY_EX_STYLE: u32 = 0x0808_00A8;

/// Placement flag: keep the current size.
pub const SWP_NOSIZE: u32 = 0x0001;

/// Placement flag: keep the current position.
pub const SWP_NOMOVE: u32 = 0x0002;

/// Placement flag: do not activate the window.
pub const SWP_NOACTIVATE: u32 = 0x0010;

/// The flags of a request that only changes the stacking order.
pub const KEEP_PLACE_FLAGS: u32 = 0x0013;

/// Position and size of one connected display, as the window system reports
/// them.
#[derive(Clone, Copy, Debug, PartialEq, Eq, Structural)]
pub struct MonitorGeometry {
    pub x: i32,
    pub y: i32,
    pub width: u32,
    pub height: u32,
}

/// The attributes an overlay window is built with.
#[derive(Clone, Copy, Debug, PartialEq, Eq, Structural)]
pub struct WindowPlan {
    pub x: i32,
    pub y: i32,
    pub width: u32,
    pub height: u32,
    /// Whether the window has a frame and a title bar.
    pub decorations: bool,
    /// Whether the window's background is transparent.
    pub transparent: bool,
    /// Whether the window is left out of the task bar.
    pub skip_taskbar: bool,
}

/// The window that covers `monitor`: borderless, transparent, off the task
/// bar, at exactly the monitor's position and size.
pub open spec fn plan_for(monitor: MonitorGeometry) -> WindowPlan {
    WindowPlan {
        x: monitor.x,
        y: monitor.y,
        width: monitor.width,
        height: monitor.height,
        decorations: false,
        transparent: true,
        skip_taskbar: true,
    }
}

/// Whether `plan` covers exactly the rectangle of `monitor`.
pub open spec fn covers(plan: WindowPlan, monitor: MonitorGeometry) -> bool {
    plan.x == monitor.x && plan.y == monitor.y && plan.width == monitor.width && plan.height
        == monitor.height
}

/// Plans the overlay window of one monitor.
pub fn plan_overlay_window(monitor: &MonitorGeometry) -> (plan: WindowPlan)
    ensures
        plan == plan_for(*monitor),
{
    WindowPlan {
        x: monitor.x,
        y: monitor.y,
        width: monitor.width,
        height: monitor.height,
        decorations: false,
        transparent: true,
        skip_taskbar: true,
    }
}

/// Plans one overlay window per monitor, in the order of the monitors.
pub fn plan_overlay_windows(monitors: &Vec<MonitorGeometry>) -> (plans: Vec<WindowPlan>)
    ensures
        plans@.len() == monitors@.len(),
        forall|i: int| 0 <= i < monitors@.len() ==> #[trigger] plans@[i] == plan_for(monitors@[i]),
{
    let mut plans: Vec<WindowPlan> = Vec::new();
    let mut i: usize = 0;
    while i < monitors.len()
        invariant
            i <= monitors@.len(),
            plans@.len() == i,
            forall|k: int| 0 <= k < i ==> #[trigger] plans@[k] == plan_for(monitors@[k]),
        decreases monitors@.len() - i,
    {
        plans.push(plan_overlay_window(&monitors[i]));
        i = i + 1;
    }
    plans
}

/// Every planned window covers exactly its monitor and is built without
/// decorations, transparent and off the task bar.
pub proof fn plan_covers_monitor(monitor: MonitorGeometry)
    ensures
        covers(plan_for(monitor), monitor),
        !plan_for(monitor).decorations,
        plan_for(monitor).transparent,
        plan_for(monitor).skip_taskbar,
{
}

/// The extended style of an overlay window whose style was `current`: the
/// overlay's bits are added and nothing is taken away.
pub open spec fn styled(current: u32) -> u32 {
    current | OVERLAY_EX_STYLE
}

/// Adds the overlay's extended style bits to the style read from a window.
pub fn overlay_ex_style(current: u32) -> (style: u32)
    ensures
        style == styled(current),
{
    current | OVERLAY_EX_STYLE
}

/// The overlay's style is made of exactly the five bits: layered,
/// click-through, tool window, topmost, never activated.
pub proof fn overlay_style_is_the_five_bits()
    ensures
        OVERLAY_EX_STYLE == WS_EX_LAYERED | WS_EX_TRANSPARENT | WS_EX_TOOLWINDOW | WS_EX_TOPMOST
            | WS_EX_NOACTIVATE,
{
    assert(0x0808_00A8u32 == 0x0008_0000u32 | 0x0000_0020u32 | 0x0000_0080u32 | 0x0000_0008u32
        | 0x0800_0000u32) by (bit_vector);
}

/// A styled window carries each of the five bits, keeps every bit it had,
/// gains no other bit, and styling it again changes nothing.
pub proof fn styled_adds_exactly_the_overlay_bits(current: u32)
    ensures
        styled(current) & WS_EX_LAYERED == WS_EX_LAYERED,
        styled(current) & WS_EX_TRANSPARENT == WS_EX_TRANSPARENT,
        styled(current) & WS_EX_TOOLWINDOW == WS_EX_TOOLWINDOW,
        styled(current) & WS_EX_TOPMOST == WS_EX_TOPMOST,
        styled(current) & WS_EX_NOACTIVATE == WS_EX_NOACTIVATE,
        styled(current) & current == current,
        styled(current) & !OVERLAY_EX_STYLE == current & !OVERLAY_EX_STYLE,
        styled(styled(current)) == styled(current),
{
    let s = current | 0x0808_00A8u32;
    assert(s & 0x0008_0000u32 == 0x0008_0000u32) by (bit_vector)
        requires
            s == current | 0x0808_00A8u32,
    ;
    assert(s & 0x0000_0020u32 == 0x0000_0020u32) by (bit_vector)
        requires
            s == current | 0x0808_00A8u32,
    ;
    assert(s & 0x0000_0080u32 == 0x0000_0080u32) by (bit_vector)
        requires
            s == current | 0x0808_00A8u32,
    ;
    assert(s & 0x0000_0008u32 == 0x0000_0008u32) by (bit_vector)
        requires
            s == current | 0x0808_00A8u32,
    ;
    assert(s & 0x0800_0000u32 == 0x0800_0000u32) by (bit_vector)
        requires
            s == current | 0x0808_00A8u32,
    ;
    assert(s & current == current) by (bit_vector)
        requires
            s == current | 0x0808_00A8u32,
    ;
    assert(s & !0x0808_00A8u32 == current & !0x0808_00A8u32) by (bit_vector)
        requires
            s == current | 0x0808_00A8u32,
    ;
    assert(s | 0x0808_00A8u32 == s) by (bit_vector)
        requires
            s == current | 0x0808_00A8u32,
    ;
}

/// A request to the window system to restack a window.
#[derive(Clone, Copy, Debug, PartialEq, Eq, Structural)]
pub struct PlacementRequest {
    /// Whether the window is put above all non-topmost windows.
    pub topmost: bool,
    pub x: i32,
    pub y: i32,
    pub width: i32,
    pub height: i32,
    /// Placement flags, `SWP_*`.
    pub flags: u32,
}

/// The request that keeps a window on top: it restacks, and by its flags
/// neither moves, nor resizes, nor activates.
pub open spec fn keep_on_top() -> PlacementRequest {
    PlacementRequest { topmost: true, x: 0, y: 0, width: 0, height: 0, flags: KEEP_PLACE_FLAGS }
}

/// The request sent when a window is created, at every frame, and once per
/// `KEEP_ON_TOP_PERIOD_MS` for as long as the window lives.
pub fn keep_on_top_request() -> (request: PlacementRequest)
    ensures
        request == keep_on_top(),
{
    PlacementRequest { topmost: true, x: 0, y: 0, width: 0, height: 0, flags: KEEP_PLACE_FLAGS }
}

/// The flags of the keep-on-top request are exactly: no move, no resize, no
/// activation.
pub proof fn keep_on_top_leaves_the_window_in_place()
    ensures
        keep_on_top().flags == SWP_NOMOVE | SWP_NOSIZE | SWP_NOACTIVATE,
        keep_on_top().flags & SWP_NOMOVE == SWP_NOMOVE,
        keep_on_top().flags & SWP_NOSIZE == SWP_NOSIZE,
        keep_on_top().flags & SWP_NOACTIVATE == SWP_NOACTIVATE,
{
    assert(0x0013u32 == 0x0002u32 | 0x0001u32 | 0x0010u32) by (bit_vector);
    assert(0x0013u32 & 0x0002u32 == 0x0002u32) by (bit_vector);
    assert(0x0013u32 & 0x0001u32 == 0x0001u32) by (bit_vector);
    assert(0x0013u32 & 0x0010u32 == 0x0010u32) by (bit_vector);
}

} // verus!
