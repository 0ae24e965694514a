//! The sidebar's configuration: one entry per slide-out panel.
//!
//! Fractions (the snap threshold, reveal amounts, gesture progress) are held
//! as fixed-point integers in parts per million, see [`crate::fraction`].

use vstd::prelude::*;
use vstd::string::*;

use crate::fraction::FULL;

verus! {

/// Which screen edge a panel slides from.
#[derive(Debug, Clone, Copy, PartialEq, Eq, Structural)]
pub enum Edge {
    Left,
    Right,
    Top,
    Bottom,
}

/// Which third of its edge a panel occupies (`Full` spans the whole edge).
#[derive(Debug, Clone, Copy, PartialEq, Eq, Structural)]
pub enum Zone {
    Full,
    Start,
    Center,
    End,
}

/// Which layer-shell layer the panel renders on.
#[derive(Debug, Clone, Copy, PartialEq, Eq, Structural)]
pub enum LayerConfig {
    /// Above everything, including waybar and other bars.
    Overlay,
    /// Same layer as waybar, respects its exclusive zone.
    Top,
    /// Below normal windows.
    Bottom,
    /// Desktop background level.
    Background,
}

impl Default for LayerConfig {
    /// Above everything.
    fn default() -> (r: LayerConfig)
        ensures
            r == LayerConfig::Overlay,
    {
        LayerConfig::Overlay
    }
}

/// Display style for a panel.
#[derive(Debug, Clone, Copy, PartialEq, Eq, Structural)]
pub enum PanelStyle {
    /// Full slide-out drawer panel.
    Drawer,
    /// Thin progress bar with percentage readout, shown during active gestures only.
    Bar,
}

impl Default for PanelStyle {
    /// A full slide-out drawer.
    fn default() -> (r: PanelStyle)
        ensures
            r == PanelStyle::Drawer,
    {
        PanelStyle::Drawer
    }
}

/// Configuration for a single slide-out panel.
#[derive(Debug, Clone)]
pub struct PanelConfig {
    /// The gesture tag this panel responds to.
    pub tag: String,
    /// Which edge of the screen this panel slides from.
    pub edge: Edge,
    /// Which third of the edge the panel occupies.
    pub zone: Zone,
    /// Size of the panel in pixels perpendicular to its edge.
    pub size: i32,
    /// Reveal threshold (parts per million) at or above which a released panel latches open.
    pub snap_threshold: i64,
    /// Background color as a CSS color string.
    pub bg_color: String,
    /// Whether the panel starts in the open state.
    pub start_open: bool,
    /// Optional label text to display in the panel.
    pub label: Option<String>,
    /// Pixels reserved from the output (0 = overlay, -1 = match the panel
    /// size, see [`crate::geometry::exclusive_zone_mode`]).
    pub exclusive_zone: i32,
    /// Layer-shell layer.
    pub layer: LayerConfig,
    /// Drawer or bar.
    pub style: PanelStyle,
    /// For bar style: thickness of the bar in pixels.
    pub bar_height: i32,
}

/// Top-level configuration: the panels to create.
#[derive(Debug, Clone)]
pub struct Config {
    /// Panels to create. Each panel is an independent slide-out drawer.
    pub panel: Vec<PanelConfig>,
}

/// A copy of an optional string, equal to the one given.
pub fn copy_label(label: &Option<String>) -> (r: Option<String>)
    ensures
        r == *label,
{
    match label {
        Some(s) => Some(s.clone()),
        None => None,
    }
}

impl PanelConfig {
    /// A field-by-field copy of this configuration.
    pub fn duplicate(&self) -> (r: PanelConfig)
        ensures
            r == *self,
    {
        PanelConfig {
            tag: self.tag.clone(),
            edge: self.edge,
            zone: self.zone,
            size: self.size,
            snap_threshold: self.snap_threshold,
            bg_color: self.bg_color.clone(),
            start_open: self.start_open,
            label: copy_label(&self.label),
            exclusive_zone: self.exclusive_zone,
            layer: self.layer,
            style: self.style,
            bar_height: self.bar_height,
        }
    }
}

/// Default panel size in pixels.
pub fn default_size() -> (r: i32)
    ensures
        r == 300,
{
    300
}

/// Default snap threshold: one half, in parts per million.
pub fn default_snap_threshold() -> (r: i64)
    ensures
        r == FULL / 2,
        r == 500_000,
{
    500_000
}

/// Default background color.
pub fn default_bg_color() -> (r: String)
    ensures
        r@ == "rgba(30, 30, 46, 0.85)"@,
{
    String::from_str("rgba(30, 30, 46, 0.85)")
}

/// Default layer: above everything.
pub fn default_layer() -> (r: LayerConfig)
    ensures
        r == LayerConfig::Overlay,
{
    LayerConfig::Overlay
}

/// Default thickness of a bar-style panel in pixels.
pub fn default_bar_height() -> (r: i32)
    ensures
        r == 40,
{
    40
}

/// Default zone: the whole edge.
pub fn default_zone() -> (r: Zone)
    ensures
        r == Zone::Full,
{
    Zone::Full
}

/// Default style: a drawer.
pub fn default_style() -> (r: PanelStyle)
    ensures
        r == PanelStyle::Drawer,
{
    PanelStyle::Drawer
}

/// What the built-in sample configuration holds for one of its two panels.
pub open spec fn is_sample_panel(
    p: PanelConfig,
    tag: Seq<char>,
    edge: Edge,
    threshold: int,
    bg: Seq<char>,
    label: Seq<char>,
) -> bool {
    &&& p.tag@ == tag
    &&& p.edge == edge
    &&& p.zone == Zone::Full
    &&& p.size == 400
    &&& p.snap_threshold == threshold
    &&& p.bg_color@ == bg
    &&& !p.start_open
    &&& p.label matches Some(l) && l@ == label
    &&& p.exclusive_zone == 0
    &&& p.layer == LayerConfig::Overlay
    &&& p.style == PanelStyle::Drawer
    &&& p.bar_height == 40
}

impl Config {
    /// The built-in sample configuration (used when no config file is found):
    /// a blue navigation drawer on the left and a red settings drawer on the right.
    pub fn sample() -> (r: Config)
        ensures
            r.panel@.len() == 2,
            is_sample_panel(
                r.panel@[0],
                "sidebar-left"@,
                Edge::Left,
                400_000,
                "rgba(40, 100, 220, 0.95)"@,
                "Navigation"@,
            ),
            is_sample_panel(
                r.panel@[1],
                "sidebar-right"@,
                Edge::Right,
                500_000,
                "rgba(220, 50, 50, 0.95)"@,
                "Quick Settings"@,
            ),
    {
        let left = PanelConfig {
            tag: String::from_str("sidebar-left"),
            edge: Edge::Left,
            zone: Zone::Full,
            size: 400,
            snap_threshold: 400_000,
            bg_color: String::from_str("rgba(40, 100, 220, 0.95)"),
            start_open: false,
            label: Some(String::from_str("Navigation")),
            exclusive_zone: 0,
            layer: LayerConfig::Overlay,
            style: PanelStyle::Drawer,
            bar_height: 40,
        };
        let right = PanelConfig {
            tag: String::from_str("sidebar-right"),
            edge: Edge::Right,
            zone: Zone::Full,
            size: 400,
            snap_threshold: 500_000,
            bg_color: String::from_str("rgba(220, 50, 50, 0.95)"),
            start_open: false,
            label: Some(String::from_str("Quick Settings")),
            exclusive_zone: 0,
            layer: LayerConfig::Overlay,
            style: PanelStyle::Drawer,
            bar_height: 40,
        };
        let mut panel: Vec<PanelConfig> = Vec::new();
        panel.push(left);
        panel.push(right);
        Config { panel }
    }

    /// The tags of all configured panels, in configuration order
    /// (the tags the gesture listener subscribes to).
    pub fn tags(&self) -> (r: Vec<String>)
        ensures
            r@.len() == self.panel@.len(),
            forall|i: int| 0 <= i < r@.len() ==> #[trigger] r@[i]@ == self.panel@[i].tag@,
    {
        let mut r: Vec<String> = Vec::new();
        let n = self.panel.len();
        for i in 0..n
            invariant
                n == self.panel@.len(),
                r@.len() == i,
                forall|j: int| 0 <= j < i ==> #[trigger] r@[j]@ == self.panel@[j].tag@,
        {
            r.push(self.panel[i].tag.clone());
        }
        r
    }
}

} // verus!
