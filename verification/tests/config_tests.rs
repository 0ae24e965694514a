use niri_tag_sidebar::config::{
    default_bar_height, default_bg_color, default_layer, default_size, default_snap_threshold,
    default_style, default_zone, Config, Edge, LayerConfig, PanelConfig, PanelStyle, Zone,
};

fn panel(tag: &str) -> PanelConfig {
    PanelConfig {
        tag: tag.to_string(),
        edge: Edge::Top,
        zone: Zone::Center,
        size: 120,
        snap_threshold: 250_000,
        bg_color: "red".to_string(),
        start_open: true,
        label: Some("Hello".to_string()),
        exclusive_zone: -1,
        layer: LayerConfig::Bottom,
        style: PanelStyle::Bar,
        bar_height: 33,
    }
}

#[test]
fn defaults_match_the_documented_values() {
    assert_eq!(default_size(), 300);
    assert_eq!(default_snap_threshold(), 500_000);
    assert_eq!(default_bg_color(), "rgba(30, 30, 46, 0.85)");
    assert_eq!(default_layer(), LayerConfig::Overlay);
    assert_eq!(default_bar_height(), 40);
    assert_eq!(default_zone(), Zone::Full);
    assert_eq!(default_style(), PanelStyle::Drawer);
}

#[test]
fn sample_has_two_drawers() {
    let c = Config::sample();
    assert_eq!(c.panel.len(), 2);
    let l = &c.panel[0];
    assert_eq!(l.tag, "sidebar-left");
    assert_eq!(l.edge, Edge::Left);
    assert_eq!(l.size, 400);
    assert_eq!(l.snap_threshold, 400_000);
    assert_eq!(l.bg_color, "rgba(40, 100, 220, 0.95)");
    assert_eq!(l.label.as_deref(), Some("Navigation"));
    assert!(!l.start_open);
    assert_eq!(l.style, PanelStyle::Drawer);
    assert_eq!(l.layer, LayerConfig::Overlay);
    assert_eq!(l.exclusive_zone, 0);
    assert_eq!(l.bar_height, 40);
    let r = &c.panel[1];
    assert_eq!(r.tag, "sidebar-right");
    assert_eq!(r.edge, Edge::Right);
    assert_eq!(r.snap_threshold, 500_000);
    assert_eq!(r.bg_color, "rgba(220, 50, 50, 0.95)");
    assert_eq!(r.label.as_deref(), Some("Quick Settings"));
}

#[test]
fn tags_in_configuration_order() {
    let c = Config { panel: vec![panel("b"), panel("a"), panel("b")] };
    assert_eq!(c.tags(), vec!["b".to_string(), "a".to_string(), "b".to_string()]);
    assert_eq!(Config::sample().tags(), vec!["sidebar-left".to_string(), "sidebar-right".to_string()]);
    assert!(Config { panel: vec![] }.tags().is_empty());
}

#[test]
fn duplicate_copies_every_field() {
    let p = panel("x");
    let q = p.duplicate();
    assert_eq!(q.tag, "x");
    assert_eq!(q.edge, Edge::Top);
    assert_eq!(q.zone, Zone::Center);
    assert_eq!(q.size, 120);
    assert_eq!(q.snap_threshold, 250_000);
    assert_eq!(q.bg_color, "red");
    assert!(q.start_open);
    assert_eq!(q.label.as_deref(), Some("Hello"));
    assert_eq!(q.exclusive_zone, -1);
    assert_eq!(q.layer, LayerConfig::Bottom);
    assert_eq!(q.style, PanelStyle::Bar);
    assert_eq!(q.bar_height, 33);
}

#[test]
fn enum_defaults() {
    assert_eq!(LayerConfig::default(), LayerConfig::Overlay);
    assert_eq!(PanelStyle::default(), PanelStyle::Drawer);
    let c = Config::sample();
    let d = c.clone();
    assert_eq!(d.panel[1].tag, "sidebar-right");
    assert!(format!("{:?}", d.panel[0]).contains("sidebar-left"));
}
