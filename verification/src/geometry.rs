//! Where a panel's window sits: its size and its layer-shell anchors.

use vstd::prelude::*;

use crate::config::{Edge, PanelConfig, PanelStyle, Zone};

verus! {

/// A side of the output that a layer-shell surface can be anchored to.
#[derive(Debug, Clone, Copy, PartialEq, Eq, Structural)]
pub enum Side {
    Left,
    Right,
    Top,
    Bottom,
}

/// Monitor size assumed when no monitor can be queried.
pub const FALLBACK_WIDTH: i32 = 1920;

/// Monitor size assumed when no monitor can be queried.
pub const FALLBACK_HEIGHT: i32 = 1080;

/// The monitor size to lay panels out for: the queried one, or 1920x1080
/// when the monitor list is empty.
pub fn monitor_size_or_default(queried: Option<(i32, i32)>) -> (r: (i32, i32))
    ensures
        r == (match queried {
            Some(size) => size,
            None => (FALLBACK_WIDTH, FALLBACK_HEIGHT),
        }),
{
    match queried {
        Some(size) => size,
        None => (FALLBACK_WIDTH, FALLBACK_HEIGHT),
    }
}

/// A third of `x`, truncated toward zero.
pub open spec fn third(x: int) -> int {
    if x >= 0 {
        x / 3
    } else {
        -((-x) / 3)
    }
}

/// Whether an edge runs horizontally (top or bottom of the screen).
pub open spec fn is_horizontal(edge: Edge) -> bool {
    edge == Edge::Top || edge == Edge::Bottom
}

/// The monitor dimension that runs along an edge: the width for top and
/// bottom edges, the height for left and right edges.
pub open spec fn edge_extent(edge: Edge, mon_w: int, mon_h: int) -> int {
    if is_horizontal(edge) {
        mon_w
    } else {
        mon_h
    }
}

/// How long a panel is along the edge it is anchored to.
pub open spec fn spec_parallel_extent(edge: Edge, zone: Zone, mon_w: int, mon_h: int) -> int {
    if zone == Zone::Full {
        edge_extent(edge, mon_w, mon_h)
    } else {
        third(edge_extent(edge, mon_w, mon_h))
    }
}

/// How big the panel is along the edge it is anchored to (the parallel axis):
/// the whole monitor extent for `Full`, a third of it for the other zones.
pub fn parallel_extent(edge: Edge, zone: Zone, mon_w: i32, mon_h: i32) -> (r: i32)
    ensures
        r == spec_parallel_extent(edge, zone, mon_w as int, mon_h as int),
{
    let extent = match edge {
        Edge::Top | Edge::Bottom => mon_w,
        Edge::Left | Edge::Right => mon_h,
    };
    match zone {
        Zone::Full => extent,
        Zone::Start | Zone::Center | Zone::End => extent / 3,
    }
}

/// The side an edge names.
pub open spec fn side_of(edge: Edge) -> Side {
    match edge {
        Edge::Left => Side::Left,
        Edge::Right => Side::Right,
        Edge::Top => Side::Top,
        Edge::Bottom => Side::Bottom,
    }
}

/// The "low" end of the axis parallel to an edge: left for horizontal
/// edges, top for vertical ones.
pub open spec fn low_side(edge: Edge) -> Side {
    if is_horizontal(edge) {
        Side::Left
    } else {
        Side::Top
    }
}

/// The "high" end of the axis parallel to an edge: right for horizontal
/// edges, bottom for vertical ones.
pub open spec fn high_side(edge: Edge) -> Side {
    if is_horizontal(edge) {
        Side::Right
    } else {
        Side::Bottom
    }
}

/// The corner a zoned panel is anchored to: its own edge, and the high end
/// of the parallel axis for `End`, the low end otherwise.
pub open spec fn spec_anchor_corner(edge: Edge, zone: Zone) -> (Side, Side) {
    (side_of(edge), if zone == Zone::End { high_side(edge) } else { low_side(edge) })
}

/// Which corner to anchor a zoned panel to: `(primary, secondary)` where the
/// primary side is the panel's own edge and the secondary side is the
/// parallel-axis anchor (low end for Start and Center, high end for End).
pub fn zoned_anchor_corner(edge: Edge, zone: Zone) -> (r: (Side, Side))
    ensures
        r == spec_anchor_corner(edge, zone),
{
    let primary = match edge {
        Edge::Left => Side::Left,
        Edge::Right => Side::Right,
        Edge::Top => Side::Top,
        Edge::Bottom => Side::Bottom,
    };
    let secondary_low = match edge {
        Edge::Top | Edge::Bottom => Side::Left,
        Edge::Left | Edge::Right => Side::Top,
    };
    let secondary_high = match edge {
        Edge::Top | Edge::Bottom => Side::Right,
        Edge::Left | Edge::Right => Side::Bottom,
    };
    let secondary = match zone {
        Zone::Start | Zone::Center | Zone::Full => secondary_low,
        Zone::End => secondary_high,
    };
    (primary, secondary)
}

/// The layer-shell anchors of a panel window, and the parallel-axis margin
/// that pushes a center-zone panel into the middle third.
#[derive(Debug, Clone, Copy, PartialEq, Eq)]
pub struct Anchors {
    pub left: bool,
    pub right: bool,
    pub top: bool,
    pub bottom: bool,
    /// A margin on one anchored side, for `Center` zones.
    pub offset: Option<(Side, i32)>,
}

/// The sides a panel is anchored to: its own edge plus both parallel sides
/// for `Full`, its own edge plus the corner's secondary side otherwise.
pub open spec fn anchored_sides(edge: Edge, zone: Zone) -> Set<Side> {
    if zone == Zone::Full {
        set![side_of(edge), low_side(edge), high_side(edge)]
    } else {
        set![spec_anchor_corner(edge, zone).0, spec_anchor_corner(edge, zone).1]
    }
}

/// The anchors a panel gets (see [`anchored_sides`]); a center-zone panel is
/// pushed along its secondary side by `parallel_offset`.
pub open spec fn spec_zoned_anchors(edge: Edge, zone: Zone, parallel_offset: i32) -> Anchors {
    let on = anchored_sides(edge, zone);
    Anchors {
        left: on.contains(Side::Left),
        right: on.contains(Side::Right),
        top: on.contains(Side::Top),
        bottom: on.contains(Side::Bottom),
        offset: if zone == Zone::Center {
            Some((spec_anchor_corner(edge, zone).1, parallel_offset))
        } else {
            None
        },
    }
}

/// Anchor + margin layout for a zoned panel: exactly one anchor on the
/// panel's edge and one (Start/Center/End) or two (Full) on the parallel
/// axis, and for `Center` a margin of `parallel_offset` on the anchored
/// parallel side.
pub fn zoned_anchors(edge: Edge, zone: Zone, parallel_offset: i32) -> (r: Anchors)
    ensures
        r == spec_zoned_anchors(edge, zone, parallel_offset),
{
    let mut a = Anchors { left: false, right: false, top: false, bottom: false, offset: None };
    match zone {
        Zone::Full => {
            match edge {
                Edge::Left => {
                    a.left = true;
                    a.top = true;
                    a.bottom = true;
                },
                Edge::Right => {
                    a.right = true;
                    a.top = true;
                    a.bottom = true;
                },
                Edge::Top => {
                    a.top = true;
                    a.left = true;
                    a.right = true;
                },
                Edge::Bottom => {
                    a.bottom = true;
                    a.left = true;
                    a.right = true;
                },
            }
        },
        Zone::Start | Zone::Center | Zone::End => {
            let (primary, secondary) = zoned_anchor_corner(edge, zone);
            set_anchor(&mut a, primary);
            set_anchor(&mut a, secondary);
            if zone == Zone::Center {
                a.offset = Some((secondary, parallel_offset));
            }
        },
    }
    a
}

/// Turn one anchor on.
fn set_anchor(a: &mut Anchors, side: Side)
    ensures
        final(a).left == (old(a).left || side == Side::Left),
        final(a).right == (old(a).right || side == Side::Right),
        final(a).top == (old(a).top || side == Side::Top),
        final(a).bottom == (old(a).bottom || side == Side::Bottom),
        final(a).offset == old(a).offset,
{
    match side {
        Side::Left => a.left = true,
        Side::Right => a.right = true,
        Side::Top => a.top = true,
        Side::Bottom => a.bottom = true,
    }
}

/// The size and anchoring of a panel's window.
#[derive(Debug, Clone, Copy, PartialEq, Eq)]
pub struct WindowLayout {
    pub width: i32,
    pub height: i32,
    pub anchors: Anchors,
}

/// A panel's extent perpendicular to its edge: `size` for drawers,
/// `bar_height` for bars.
pub open spec fn perpendicular_extent(config: PanelConfig) -> int {
    if config.style == PanelStyle::Drawer {
        config.size as int
    } else {
        config.bar_height as int
    }
}

/// The offset that pushes a center-zone panel into the middle third: a third
/// of the monitor dimension along the panel's edge.
pub open spec fn parallel_offset(edge: Edge, mon_w: int, mon_h: int) -> int {
    third(edge_extent(edge, mon_w, mon_h))
}

/// The window layout of a panel on a `mon_w` x `mon_h` monitor: the
/// perpendicular extent across the edge, the zone's parallel extent along
/// it, and the zoned anchors.
pub fn window_layout(config: &PanelConfig, mon_w: i32, mon_h: i32) -> (r: WindowLayout)
    ensures
        r.width == (if is_horizontal(config.edge) {
            spec_parallel_extent(config.edge, config.zone, mon_w as int, mon_h as int)
        } else {
            perpendicular_extent(*config)
        }),
        r.height == (if is_horizontal(config.edge) {
            perpendicular_extent(*config)
        } else {
            spec_parallel_extent(config.edge, config.zone, mon_w as int, mon_h as int)
        }),
        r.anchors == spec_zoned_anchors(
            config.edge,
            config.zone,
            parallel_offset(config.edge, mon_w as int, mon_h as int) as i32,
        ),
{
    let perpendicular = match config.style {
        PanelStyle::Drawer => config.size,
        PanelStyle::Bar => config.bar_height,
    };
    let parallel = parallel_extent(config.edge, config.zone, mon_w, mon_h);
    let offset = match config.edge {
        Edge::Top | Edge::Bottom => mon_w / 3,
        Edge::Left | Edge::Right => mon_h / 3,
    };
    let anchors = zoned_anchors(config.edge, config.zone, offset);
    let (width, height) = match config.edge {
        Edge::Left | Edge::Right => (perpendicular, parallel),
        Edge::Top | Edge::Bottom => (parallel, perpendicular),
    };
    WindowLayout { width, height, anchors }
}

/// How much of the output a panel reserves.
#[derive(Debug, Clone, Copy, PartialEq, Eq)]
pub enum ExclusiveZone {
    /// As much as the panel's own size (follows the window's size).
    Auto,
    /// This many pixels (0 = overlay, reflowing nothing).
    Fixed(i32),
}

/// The exclusive zone a panel asks for: `-1` in the configuration means
/// "match the panel size", any other value is taken as a pixel count.
pub fn exclusive_zone_mode(config: &PanelConfig) -> (r: ExclusiveZone)
    ensures
        r == (if config.exclusive_zone == -1 {
            ExclusiveZone::Auto
        } else {
            ExclusiveZone::Fixed(config.exclusive_zone)
        }),
{
    if config.exclusive_zone == -1 {
        ExclusiveZone::Auto
    } else {
        ExclusiveZone::Fixed(config.exclusive_zone)
    }
}

} // verus!
