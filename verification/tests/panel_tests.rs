use niri_tag_sidebar::config::{Edge, LayerConfig, PanelConfig, PanelStyle, Zone};
use niri_tag_sidebar::fraction::FULL;
use niri_tag_sidebar::panel::Panel;

fn cfg(edge: Edge, style: PanelStyle, size: i32, start_open: bool) -> PanelConfig {
    PanelConfig {
        tag: "p".to_string(),
        edge,
        zone: Zone::Full,
        size,
        snap_threshold: 500_000,
        bg_color: "black".to_string(),
        start_open,
        label: None,
        exclusive_zone: 0,
        layer: LayerConfig::Overlay,
        style,
        bar_height: 40,
    }
}

fn drawer(size: i32) -> Panel {
    Panel::new(&cfg(Edge::Left, PanelStyle::Drawer, size, false))
}

#[test]
fn new_panels() {
    let d = drawer(300);
    assert_eq!(d.reveal, 0);
    assert!(!d.is_open && !d.visible && !d.gesture_active && !d.drag_active);
    assert_eq!(d.margin, -300);
    assert_eq!(d.readout, None);
    assert_eq!(d.animation, None);
    assert_eq!(d.drag_snap_pending, None);

    let o = Panel::new(&cfg(Edge::Top, PanelStyle::Drawer, 300, true));
    assert_eq!(o.reveal, FULL);
    assert!(o.is_open && o.visible);
    assert_eq!(o.margin, 0);

    let b = Panel::new(&cfg(Edge::Top, PanelStyle::Bar, 300, true));
    assert_eq!(b.reveal, 0);
    assert!(!b.is_open && !b.visible);
    assert_eq!(b.margin, 0);
    assert_eq!(b.readout, Some(0));
}

#[test]
fn set_reveal_clamps_and_slides() {
    let mut d = drawer(400);
    d.set_reveal(250_000);
    assert_eq!((d.reveal, d.margin, d.readout), (250_000, -300, Some(250_000)));
    d.set_reveal(1_500_000);
    assert_eq!((d.reveal, d.margin, d.readout), (FULL, 0, Some(FULL)));
    d.set_reveal(-5);
    assert_eq!((d.reveal, d.margin, d.readout), (0, -400, Some(0)));
    assert!(!d.visible);

    let mut b = Panel::new(&cfg(Edge::Bottom, PanelStyle::Bar, 400, false));
    b.set_reveal(300_000);
    assert!(b.visible);
    assert_eq!((b.reveal, b.margin, b.readout), (300_000, 0, Some(300_000)));
}

#[test]
fn bar_show_and_hide() {
    let mut b = Panel::new(&cfg(Edge::Bottom, PanelStyle::Bar, 400, false));
    b.readout = Some(700_000);
    b.show_bar();
    assert!(b.visible);
    assert_eq!(b.readout, Some(0));
    b.readout = Some(700_000);
    b.show_bar();
    assert_eq!(b.readout, Some(700_000));
    b.hide_bar();
    assert!(!b.visible);

    let mut d = Panel::new(&cfg(Edge::Left, PanelStyle::Drawer, 300, true));
    d.hide_bar();
    assert!(d.visible);
    let mut d2 = drawer(300);
    d2.show_bar();
    assert!(!d2.visible);
}

#[test]
fn toggle_and_snap() {
    let mut d = drawer(300);
    d.toggle();
    assert!(d.is_open && d.visible);
    assert_eq!((d.reveal, d.margin, d.animation), (0, -300, Some(FULL)));
    d.toggle();
    assert!(!d.is_open && !d.visible);
    assert_eq!((d.reveal, d.animation), (0, None));
    d.visible = true;
    d.reveal = 400_000;
    d.toggle();
    assert!(d.is_open && d.visible);
    assert_eq!((d.reveal, d.animation), (400_000, Some(FULL)));
    d.toggle();
    assert!(!d.is_open);
    assert_eq!(d.animation, Some(0));
    d.reveal = 500_000;
    d.snap();
    assert!(d.is_open);
    d.reveal = 499_999;
    d.snap();
    assert!(!d.is_open);
}

#[test]
fn opening_animation_runs_to_the_end() {
    let mut d = drawer(400);
    d.toggle();
    assert!(d.visible);
    assert_eq!((d.reveal, d.margin, d.animation), (0, -400, Some(FULL)));
    d.animation_tick();
    assert_eq!((d.reveal, d.margin, d.readout), (133_333, -346, Some(133_333)));
    d.animation_tick();
    assert_eq!(d.reveal, 248_888);
    let mut frames = 2;
    while d.animation.is_some() {
        d.animation_tick();
        frames += 1;
        assert!(frames < 1000);
    }
    assert_eq!(frames, 39);
    assert_eq!((d.reveal, d.margin, d.readout), (FULL, 0, Some(FULL)));
    assert!(d.visible);
}

#[test]
fn closing_animation_hides_the_window() {
    let mut d = Panel::new(&cfg(Edge::Right, PanelStyle::Drawer, 400, true));
    d.toggle();
    assert_eq!(d.animation, Some(0));
    d.animation_tick();
    assert_eq!(d.reveal, 866_667);
    let mut frames = 1;
    while d.animation.is_some() {
        d.animation_tick();
        frames += 1;
    }
    assert_eq!(frames, 39);
    assert_eq!(d.reveal, 0);
    assert_eq!(d.readout, Some(0));
    assert!(!d.visible);
    d.animation_tick();
    assert_eq!(d.reveal, 0);
}

#[test]
fn animation_already_at_target_settles_at_once() {
    let mut d = Panel::new(&cfg(Edge::Right, PanelStyle::Drawer, 400, true));
    d.set_reveal(999_500);
    d.animation = Some(0);
    d.animate_to_target();
    assert_eq!((d.reveal, d.animation), (FULL, None));
    assert!(d.visible);
    assert_eq!(d.margin, 0);

    let mut c = drawer(400);
    c.visible = true;
    c.reveal = 999;
    c.animate_to_target();
    assert_eq!((c.reveal, c.animation), (0, None));
    assert!(!c.visible);
}

#[test]
fn drag_to_dismiss() {
    let mut d = Panel::new(&cfg(Edge::Left, PanelStyle::Drawer, 400, true));
    d.drag_begin();
    assert!(d.drag_active);
    d.drag_update(-100_000_000, 7);
    assert_eq!((d.reveal, d.margin, d.readout), (750_000, -100, Some(750_000)));
    d.drag_end();
    assert!(!d.drag_active);
    assert_eq!(d.drag_snap_pending, Some(true));
    d.apply_pending_snap();
    assert_eq!(d.drag_snap_pending, None);
    assert!(d.is_open);
    assert_eq!(d.animation, Some(FULL));
    let mut frames = 0;
    while d.animation.is_some() {
        d.animation_tick();
        frames += 1;
    }
    assert_eq!(frames, 29);
    assert_eq!(d.reveal, FULL);

    d.drag_begin();
    d.drag_update(-300_000_000, 0);
    assert_eq!(d.reveal, 250_000);
    d.drag_end();
    assert_eq!(d.drag_snap_pending, Some(false));
    d.apply_pending_snap();
    assert!(!d.is_open);
    assert_eq!(d.animation, Some(0));

    d.drag_update(-900_000_000, 0);
    assert_eq!(d.reveal, 0);
    d.drag_update(500_000_000, 0);
    assert_eq!(d.reveal, FULL);
}

#[test]
fn drag_direction_follows_the_edge() {
    let mut r = Panel::new(&cfg(Edge::Right, PanelStyle::Drawer, 200, true));
    r.drag_update(50_000_000, 0);
    assert_eq!(r.reveal, 750_000);
    let mut t = Panel::new(&cfg(Edge::Top, PanelStyle::Drawer, 200, true));
    t.drag_update(0, -20_000_000);
    assert_eq!(t.reveal, 900_000);
    let mut b = Panel::new(&cfg(Edge::Bottom, PanelStyle::Drawer, 200, true));
    b.drag_update(0, 20_000_000);
    assert_eq!(b.reveal, 900_000);
    b.drag_update(0, 1);
    assert_eq!(b.reveal, FULL);
}

#[test]
fn drag_edge_cases() {
    let mut z = Panel::new(&cfg(Edge::Left, PanelStyle::Drawer, 0, true));
    z.drag_update(0, 0);
    assert_eq!(z.reveal, FULL);
    z.drag_update(-1, 0);
    assert_eq!(z.reveal, 0);
    z.drag_update(1, 0);
    assert_eq!(z.reveal, FULL);
    let mut n = Panel::new(&cfg(Edge::Left, PanelStyle::Drawer, -100, true));
    n.drag_update(-10_000_000, 0);
    assert_eq!(n.reveal, FULL);
    n.drag_update(10_000_000, 0);
    assert_eq!(n.reveal, 900_000);
    let mut big = Panel::new(&cfg(Edge::Left, PanelStyle::Drawer, 1, true));
    big.drag_update(i64::MIN, 0);
    assert_eq!(big.reveal, 0);
}

#[test]
fn bars_ignore_drags() {
    let mut b = Panel::new(&cfg(Edge::Left, PanelStyle::Bar, 400, false));
    b.drag_begin();
    b.drag_update(-1_000, 0);
    b.drag_end();
    assert!(!b.drag_active);
    assert_eq!(b.reveal, 0);
    assert_eq!(b.drag_snap_pending, None);
}

#[test]
fn gestures_on_a_drawer() {
    let mut d = drawer(400);
    d.begin_gesture(true);
    assert!(d.gesture_active && d.visible);
    d.gesture_progress(-300_000);
    assert_eq!(d.reveal, 300_000);
    d.gesture_progress(700_000);
    assert_eq!(d.reveal, 700_000);
    d.end_gesture();
    assert!(d.is_open && !d.gesture_active && d.visible);
    assert_eq!((d.reveal, d.margin), (FULL, 0));

    d.begin_gesture(true);
    d.gesture_progress(200_000);
    assert_eq!(d.reveal, 800_000);
    d.gesture_progress(900_000);
    assert_eq!(d.reveal, 100_000);
    d.end_gesture();
    assert!(!d.is_open && !d.visible);
    assert_eq!((d.reveal, d.margin), (0, -400));

    d.begin_gesture(false);
    assert!(d.is_open && !d.gesture_active && d.visible);
    assert_eq!(d.animation, Some(FULL));
    d.gesture_progress(500_000);
    assert_eq!(d.reveal, 0);
    d.end_gesture();
    assert!(d.is_open);
}

#[test]
fn progress_is_ignored_while_dragging() {
    let mut d = drawer(400);
    d.begin_gesture(true);
    d.drag_begin();
    d.gesture_progress(600_000);
    assert_eq!(d.reveal, 0);
}

#[test]
fn gestures_on_a_bar() {
    let mut b = Panel::new(&cfg(Edge::Bottom, PanelStyle::Bar, 400, false));
    b.begin_gesture(true);
    assert!(b.visible && b.gesture_active);
    assert_eq!(b.readout, Some(0));
    b.gesture_progress(420_000);
    assert_eq!((b.reveal, b.readout), (420_000, Some(420_000)));
    b.end_gesture();
    assert!(!b.visible && !b.gesture_active && !b.is_open);
    b.begin_gesture(false);
    assert!(b.visible && !b.gesture_active);
    assert_eq!((b.reveal, b.readout), (FULL, Some(FULL)));
}

#[test]
fn unnegatable_sizes() {
    let mut d = Panel::new(&cfg(Edge::Left, PanelStyle::Drawer, i32::MIN, true));
    assert_eq!((d.reveal, d.margin), (FULL, 0));
    assert!(!d.begin_overflows(false));
    d.begin_gesture(false);
    assert!(!d.is_open);
    assert_eq!(d.animation, Some(0));
    while d.animation.is_some() {
        d.animation_tick();
    }
    assert!(!d.visible);
    assert!(!d.begin_overflows(true));
    assert!(d.begin_overflows(false));
    d.drag_end();
    assert_eq!(d.drag_snap_pending, Some(false));
    assert!(!d.pending_snap_overflows());
    d.drag_snap_pending = Some(true);
    assert!(d.pending_snap_overflows());

    let ok = drawer(300);
    assert!(!ok.begin_overflows(false));
    let b = Panel::new(&cfg(Edge::Left, PanelStyle::Bar, i32::MIN, false));
    assert!(!b.begin_overflows(false));
    assert!(!b.pending_snap_overflows());
}
