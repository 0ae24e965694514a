use niri_tag_sidebar::config::{Config, Edge, LayerConfig, PanelConfig, PanelStyle, Zone};
use niri_tag_sidebar::fraction::FULL;
use niri_tag_sidebar::ipc::GestureMsg;
use niri_tag_sidebar::panel::Panel;
use niri_tag_sidebar::sidebar::Sidebar;

fn cfg(tag: &str, style: PanelStyle, size: i32) -> PanelConfig {
    PanelConfig {
        tag: tag.to_string(),
        edge: Edge::Left,
        zone: Zone::Full,
        size,
        snap_threshold: 500_000,
        bg_color: "black".to_string(),
        start_open: false,
        label: None,
        exclusive_zone: 0,
        layer: LayerConfig::Overlay,
        style,
        bar_height: 40,
    }
}

fn begin(tag: &str, is_continuous: bool) -> GestureMsg {
    GestureMsg::Begin {
        tag: tag.to_string(),
        trigger: "TouchEdgeLeft".to_string(),
        finger_count: 1,
        is_continuous,
    }
}

fn progress(tag: &str, progress: i64) -> GestureMsg {
    GestureMsg::Progress { tag: tag.to_string(), progress }
}

fn end(tag: &str) -> GestureMsg {
    GestureMsg::End { tag: tag.to_string(), completed: true }
}

#[test]
fn one_panel_per_tag_later_wins() {
    let mut second = cfg("a", PanelStyle::Bar, 100);
    second.size = 77;
    let c = Config { panel: vec![cfg("a", PanelStyle::Drawer, 300), cfg("b", PanelStyle::Drawer, 300), second] };
    let s = Sidebar::new(&c);
    assert_eq!(s.panels.len(), 2);
    assert_eq!(s.panels[0].config.tag, "a");
    assert_eq!(s.panels[0].config.size, 77);
    assert_eq!(s.panels[0].config.style, PanelStyle::Bar);
    assert_eq!(s.panels[1].config.tag, "b");
    assert_eq!(s.find(&"b".to_string()), Some(1));
    assert_eq!(s.find(&"c".to_string()), None);
}

#[test]
fn insert_reports_position() {
    let mut s = Sidebar::empty();
    assert_eq!(s.insert(Panel::new(&cfg("x", PanelStyle::Drawer, 10))), 0);
    assert_eq!(s.insert(Panel::new(&cfg("y", PanelStyle::Drawer, 10))), 1);
    assert_eq!(s.insert(Panel::new(&cfg("x", PanelStyle::Bar, 20))), 0);
    assert_eq!(s.panels.len(), 2);
    assert_eq!(s.panels[0].config.style, PanelStyle::Bar);
}

#[test]
fn messages_reach_only_their_panel() {
    let mut s = Sidebar::new(&Config::sample());
    s.handle_gesture_msg(&begin("sidebar-left", false));
    assert!(s.panels[0].is_open);
    assert_eq!(s.panels[0].animation, Some(FULL));
    assert!(!s.panels[1].is_open);
    assert_eq!(s.panels[1].animation, None);

    s.handle_gesture_msg(&begin("nobody", false));
    s.handle_gesture_msg(&progress("nobody", 3));
    s.handle_gesture_msg(&end("nobody"));
    s.handle_gesture_msg(&GestureMsg::Disconnected("gone".to_string()));
    assert!(s.panels[0].is_open && !s.panels[1].is_open);
    assert_eq!(s.panels[1].reveal, 0);
}

#[test]
fn continuous_gesture_latches_past_threshold() {
    let mut s = Sidebar::new(&Config::sample());
    s.handle_gesture_msg(&begin("sidebar-right", true));
    assert!(s.panels[1].gesture_active && s.panels[1].visible);
    s.handle_gesture_msg(&progress("sidebar-right", 510_000));
    assert_eq!(s.panels[1].reveal, 510_000);
    assert_eq!(s.panels[1].margin, -196);
    s.handle_gesture_msg(&end("sidebar-right"));
    assert!(s.panels[1].is_open && s.panels[1].visible);
    assert_eq!(s.panels[1].reveal, FULL);

    s.handle_gesture_msg(&begin("sidebar-left", true));
    s.handle_gesture_msg(&progress("sidebar-left", 390_000));
    s.handle_gesture_msg(&end("sidebar-left"));
    assert!(!s.panels[0].is_open && !s.panels[0].visible);
    assert_eq!(s.panels[0].reveal, 0);
}

#[test]
fn begin_cancels_a_running_animation() {
    let mut s = Sidebar::new(&Config::sample());
    s.handle_gesture_msg(&begin("sidebar-left", false));
    s.animation_tick(0);
    assert_eq!(s.panels[0].reveal, 133_333);
    s.handle_gesture_msg(&begin("sidebar-left", true));
    assert_eq!(s.panels[0].animation, None);
    assert_eq!(s.panels[0].reveal, 133_333);
}

#[test]
fn drag_snaps_are_applied_by_the_poll() {
    let mut c = Config::sample();
    c.panel[0].start_open = true;
    let mut s = Sidebar::new(&c);
    s.drag_begin(0);
    s.handle_gesture_msg(&begin("sidebar-left", true));
    s.handle_gesture_msg(&progress("sidebar-left", 900_000));
    assert_eq!(s.panels[0].reveal, FULL);
    s.drag_update(0, -280_000_000, 0);
    assert_eq!(s.panels[0].reveal, 300_000);
    s.drag_end(0);
    assert_eq!(s.panels[0].drag_snap_pending, Some(false));
    s.apply_pending_snaps();
    assert_eq!(s.panels[0].drag_snap_pending, None);
    assert!(!s.panels[0].is_open);
    assert_eq!(s.panels[0].animation, Some(0));
    assert_eq!(s.panels[1].animation, None);
    for _ in 0..100 {
        s.animation_tick(0);
    }
    assert_eq!(s.panels[0].reveal, 0);
    assert!(!s.panels[0].visible);
}

#[test]
fn bar_gestures() {
    let c = Config { panel: vec![cfg("bar", PanelStyle::Bar, 300)] };
    let mut s = Sidebar::new(&c);
    s.handle_gesture_msg(&begin("bar", true));
    s.handle_gesture_msg(&progress("bar", -640_000));
    assert_eq!(s.panels[0].readout, Some(640_000));
    assert!(s.panels[0].visible);
    s.handle_gesture_msg(&end("bar"));
    assert!(!s.panels[0].visible);
}

#[test]
fn distinct_tags_give_one_panel_each_in_order() {
    let c = Config { panel: vec![cfg("c", PanelStyle::Drawer, 1), cfg("a", PanelStyle::Bar, 2), cfg("b", PanelStyle::Drawer, 3)] };
    let s = Sidebar::new(&c);
    assert_eq!(s.panels.len(), 3);
    for (i, t) in ["c", "a", "b"].iter().enumerate() {
        assert_eq!(s.panels[i].config.tag, *t);
        assert_eq!(s.panels[i].config.size, i as i32 + 1);
    }
}

#[test]
fn overflow_checks() {
    let mut c = Config::sample();
    c.panel[0].size = i32::MIN;
    c.panel[0].start_open = true;
    let mut s = Sidebar::new(&c);
    assert!(!s.message_overflows(&begin("sidebar-left", false)));
    s.handle_gesture_msg(&begin("sidebar-left", true));
    s.handle_gesture_msg(&progress("sidebar-left", 900_000));
    s.handle_gesture_msg(&end("sidebar-left"));
    assert!(!s.panels[0].visible);
    assert!(s.message_overflows(&begin("sidebar-left", false)));
    assert!(!s.message_overflows(&begin("sidebar-left", true)));
    assert!(!s.message_overflows(&begin("sidebar-right", false)));
    assert!(!s.message_overflows(&end("sidebar-left")));
    assert!(!s.pending_snaps_overflow());
    s.panels[0].drag_snap_pending = Some(true);
    assert!(s.pending_snaps_overflow());
}
