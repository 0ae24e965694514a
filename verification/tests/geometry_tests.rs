use niri_tag_sidebar::config::{Edge, LayerConfig, PanelConfig, PanelStyle, Zone};
use niri_tag_sidebar::geometry::{
    exclusive_zone_mode, monitor_size_or_default, ExclusiveZone, parallel_extent, window_layout, zoned_anchor_corner, zoned_anchors,
    Anchors, Side,
};

fn cfg(edge: Edge, zone: Zone, style: PanelStyle) -> PanelConfig {
    PanelConfig {
        tag: "t".to_string(),
        edge,
        zone,
        size: 300,
        snap_threshold: 500_000,
        bg_color: "black".to_string(),
        start_open: false,
        label: None,
        exclusive_zone: 0,
        layer: LayerConfig::Overlay,
        style,
        bar_height: 40,
    }
}

#[test]
fn monitor_fallback() {
    assert_eq!(monitor_size_or_default(None), (1920, 1080));
    assert_eq!(monitor_size_or_default(Some((2560, 1440))), (2560, 1440));
}

#[test]
fn parallel_extent_by_edge_and_zone() {
    assert_eq!(parallel_extent(Edge::Top, Zone::Full, 1920, 1080), 1920);
    assert_eq!(parallel_extent(Edge::Left, Zone::Full, 1920, 1080), 1080);
    assert_eq!(parallel_extent(Edge::Left, Zone::Start, 1920, 1080), 360);
    assert_eq!(parallel_extent(Edge::Bottom, Zone::Center, 1920, 1080), 640);
    assert_eq!(parallel_extent(Edge::Right, Zone::End, 1920, 1000), 333);
    assert_eq!(parallel_extent(Edge::Top, Zone::End, -7, 0), -2);
}

#[test]
fn anchor_corners() {
    assert_eq!(zoned_anchor_corner(Edge::Left, Zone::Start), (Side::Left, Side::Top));
    assert_eq!(zoned_anchor_corner(Edge::Left, Zone::Center), (Side::Left, Side::Top));
    assert_eq!(zoned_anchor_corner(Edge::Left, Zone::End), (Side::Left, Side::Bottom));
    assert_eq!(zoned_anchor_corner(Edge::Top, Zone::Start), (Side::Top, Side::Left));
    assert_eq!(zoned_anchor_corner(Edge::Bottom, Zone::End), (Side::Bottom, Side::Right));
    assert_eq!(zoned_anchor_corner(Edge::Right, Zone::Full), (Side::Right, Side::Top));
}

#[test]
fn anchors_per_zone() {
    assert_eq!(
        zoned_anchors(Edge::Left, Zone::Full, 360),
        Anchors { left: true, right: false, top: true, bottom: true, offset: None }
    );
    assert_eq!(
        zoned_anchors(Edge::Bottom, Zone::Full, 640),
        Anchors { left: true, right: true, top: false, bottom: true, offset: None }
    );
    assert_eq!(
        zoned_anchors(Edge::Top, Zone::Center, 640),
        Anchors { left: true, right: false, top: true, bottom: false, offset: Some((Side::Left, 640)) }
    );
    assert_eq!(
        zoned_anchors(Edge::Right, Zone::End, 360),
        Anchors { left: false, right: true, top: false, bottom: true, offset: None }
    );
    assert_eq!(
        zoned_anchors(Edge::Right, Zone::Start, 360),
        Anchors { left: false, right: true, top: true, bottom: false, offset: None }
    );
}

#[test]
fn window_layouts() {
    let l = window_layout(&cfg(Edge::Left, Zone::Full, PanelStyle::Drawer), 1920, 1080);
    assert_eq!((l.width, l.height), (300, 1080));
    assert_eq!(l.anchors, Anchors { left: true, right: false, top: true, bottom: true, offset: None });

    let b = window_layout(&cfg(Edge::Top, Zone::Center, PanelStyle::Bar), 1920, 1080);
    assert_eq!((b.width, b.height), (640, 40));
    assert_eq!(
        b.anchors,
        Anchors { left: true, right: false, top: true, bottom: false, offset: Some((Side::Left, 640)) }
    );

    let r = window_layout(&cfg(Edge::Right, Zone::Center, PanelStyle::Drawer), 1920, 1080);
    assert_eq!((r.width, r.height), (300, 360));
    assert_eq!(r.anchors.offset, Some((Side::Top, 360)));
}

#[test]
fn exclusive_zones() {
    let mut c = cfg(Edge::Left, Zone::Full, PanelStyle::Drawer);
    assert_eq!(exclusive_zone_mode(&c), ExclusiveZone::Fixed(0));
    c.exclusive_zone = -1;
    assert_eq!(exclusive_zone_mode(&c), ExclusiveZone::Auto);
    c.exclusive_zone = 40;
    assert_eq!(exclusive_zone_mode(&c), ExclusiveZone::Fixed(40));
    c.exclusive_zone = -2;
    assert_eq!(exclusive_zone_mode(&c), ExclusiveZone::Fixed(-2));
}
