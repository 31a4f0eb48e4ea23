use redshift::window::{
    keep_on_top_request, overlay_ex_style, plan_overlay_window, plan_overlay_windows,
    MonitorGeometry, PlacementRequest, WindowPlan, KEEP_ON_TOP_PERIOD_MS, KEEP_PLACE_FLAGS,
    OVERLAY_EX_STYLE, OVERLAY_TITLE, SWP_NOACTIVATE, SWP_NOMOVE, SWP_NOSIZE, WS_EX_LAYERED,
    WS_EX_NOACTIVATE, WS_EX_TOOLWINDOW, WS_EX_TOPMOST, WS_EX_TRANSPARENT,
};

#[test]
fn window_constants() {
    assert_eq!(OVERLAY_TITLE, "Red Overlay");
    assert_eq!(KEEP_ON_TOP_PERIOD_MS, 1000);
    assert_eq!(
        OVERLAY_EX_STYLE,
        WS_EX_LAYERED | WS_EX_TRANSPARENT | WS_EX_TOOLWINDOW | WS_EX_TOPMOST | WS_EX_NOACTIVATE
    );
    assert_eq!(KEEP_PLACE_FLAGS, SWP_NOMOVE | SWP_NOSIZE | SWP_NOACTIVATE);
}

#[test]
fn plan_covers_the_monitor() {
    let monitor = MonitorGeometry { x: -1920, y: 0, width: 1920, height: 1080 };
    assert_eq!(
        plan_overlay_window(&monitor),
        WindowPlan {
            x: -1920,
            y: 0,
            width: 1920,
            height: 1080,
            decorations: false,
            transparent: true,
            skip_taskbar: true,
        }
    );
}

#[test]
fn one_plan_per_monitor_in_order() {
    let monitors = vec![
        MonitorGeometry { x: 0, y: 0, width: 2560, height: 1440 },
        MonitorGeometry { x: 2560, y: 0, width: 1920, height: 1080 },
        MonitorGeometry { x: -1280, y: 200, width: 1280, height: 1024 },
    ];
    let plans = plan_overlay_windows(&monitors);
    assert_eq!(plans.len(), 3);
    for (plan, monitor) in plans.iter().zip(monitors.iter()) {
        assert_eq!(plan.x, monitor.x);
        assert_eq!(plan.y, monitor.y);
        assert_eq!(plan.width, monitor.width);
        assert_eq!(plan.height, monitor.height);
        assert!(!plan.decorations);
        assert!(plan.transparent);
        assert!(plan.skip_taskbar);
    }
}

#[test]
fn no_monitor_no_plan() {
    let plans = plan_overlay_windows(&Vec::new());
    assert!(plans.is_empty());
}

#[test]
fn style_adds_the_overlay_bits() {
    assert_eq!(overlay_ex_style(0), 0x0808_00A8);
    assert_eq!(overlay_ex_style(0x0000_0100), 0x0808_01A8);
    assert_eq!(overlay_ex_style(0x0000_0008), 0x0808_00A8);
    assert_eq!(overlay_ex_style(0x0808_00A8), 0x0808_00A8);
    assert_eq!(overlay_ex_style(0xFFFF_FFFF), 0xFFFF_FFFF);
    assert_eq!(overlay_ex_style(0x0004_0000), 0x080C_00A8);
}

#[test]
fn style_is_idempotent() {
    for current in [0u32, 1, 0x100, 0x0004_0100, 0x8000_0000, 0x1234_5678] {
        let once: u32 = overlay_ex_style(current);
        assert_eq!(overlay_ex_style(once), once);
        assert_eq!(once & current, current);
        assert_eq!(once & !OVERLAY_EX_STYLE, current & !OVERLAY_EX_STYLE);
    }
}

#[test]
fn keep_on_top_neither_moves_nor_resizes() {
    let request = keep_on_top_request();
    assert_eq!(
        request,
        PlacementRequest { topmost: true, x: 0, y: 0, width: 0, height: 0, flags: 0x13 }
    );
    assert_eq!(request.flags & SWP_NOMOVE, SWP_NOMOVE);
    assert_eq!(request.flags & SWP_NOSIZE, SWP_NOSIZE);
    assert_eq!(request.flags & SWP_NOACTIVATE, SWP_NOACTIVATE);
}
