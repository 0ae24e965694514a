//! The state of one slide-out panel and how gestures, drags and animation
//! frames change it.
//!
//! A [`Panel`] holds everything that decides what its window shows: how far
//! it is revealed, whether it is logically open, whether a gesture or a drag
//! is driving it, whether an animation is running, whether its window is
//! visible, the margin that slides it off-screen and the value its readout
//! label last showed. Whoever owns the window mirrors these fields onto it.

use vstd::prelude::*;

use crate::config::{Edge, PanelConfig, PanelStyle};
use crate::fraction::{
    abs, clamp_fraction, clamp_unit, div_toward_zero, ease_step, easing_step, magnitude_fraction,
    margin_for, reveal_margin, FULL, SETTLED, SNAP_DISTANCE,
};

verus! {

/// Runtime state for a single panel.
pub struct Panel {
    /// The panel's configuration.
    pub config: PanelConfig,
    /// Current reveal fraction in parts per million: 0 = fully hidden, `FULL` = fully visible.
    pub reveal: i64,
    /// Whether the panel is logically "open" (will settle at `FULL`).
    pub is_open: bool,
    /// Whether a gesture is actively driving this panel.
    pub gesture_active: bool,
    /// Whether a local drag is actively closing this panel.
    pub drag_active: bool,
    /// Pending snap from drag-to-dismiss: `Some(true)` = snap open,
    /// `Some(false)` = snap closed. Consumed by [`Panel::apply_pending_snap`].
    pub drag_snap_pending: Option<bool>,
    /// The target of the running animation, if one is running.
    pub animation: Option<i64>,
    /// Whether the panel's window is shown.
    pub visible: bool,
    /// The layer-shell margin on the panel's own edge, in pixels.
    pub margin: i32,
    /// The fraction the readout last showed; `None` while a drawer still
    /// shows its "waiting" text.
    pub readout: Option<i64>,
}

/// The reveal a panel settles at: `FULL` when open, 0 when closed.
pub open spec fn target_of(is_open: bool) -> i64 {
    if is_open {
        FULL
    } else {
        0
    }
}

/// The state a panel starts in. A drawer starts revealed, open and shown if
/// it is configured to start open, and otherwise hidden behind a margin of
/// `-size`; a bar starts hidden, closed, with a readout of 0.
pub open spec fn initial_panel(config: PanelConfig) -> Panel {
    if config.style == PanelStyle::Drawer {
        Panel {
            config,
            reveal: if config.start_open { FULL } else { 0 },
            is_open: config.start_open,
            gesture_active: false,
            drag_active: false,
            drag_snap_pending: None,
            animation: None,
            visible: config.start_open,
            margin: if config.start_open { 0 } else { (-config.size) as i32 },
            readout: None,
        }
    } else {
        Panel {
            config,
            reveal: 0,
            is_open: false,
            gesture_active: false,
            drag_active: false,
            drag_snap_pending: None,
            animation: None,
            visible: false,
            margin: 0,
            readout: Some(0),
        }
    }
}

/// The drag distance toward a panel's edge (the direction that closes it),
/// from a drag offset.
pub open spec fn drag_distance(edge: Edge, offset_x: int, offset_y: int) -> int {
    match edge {
        Edge::Left => -offset_x,
        Edge::Right => offset_x,
        Edge::Top => -offset_y,
        Edge::Bottom => offset_y,
    }
}

/// The reveal a drag leaves a panel of `size` pixels at: one whole minus
/// the dragged distance over the size, clamped to `[0, FULL]`. `distance`
/// is in millionths of a pixel. A zero-sized panel is shown fully or not at
/// all by the drag's direction, and kept as it was by no movement.
pub open spec fn dragged_reveal(current: int, size: int, distance: int) -> int {
    if size == 0 {
        if distance > 0 {
            0
        } else if distance < 0 {
            FULL as int
        } else {
            current
        }
    } else {
        clamp_unit(FULL - div_toward_zero(distance, size))
    }
}

/// The reveal a progress value drives a panel to: the progress's magnitude
/// for a closed panel, one whole minus it for an open one (so that the
/// gesture closes it), clamped to `[0, FULL]`.
pub open spec fn progress_reveal(is_open: bool, progress: int) -> int {
    if is_open {
        clamp_unit(FULL - abs(progress))
    } else {
        clamp_unit(abs(progress))
    }
}

impl Panel {
    /// The panel's invariant: fractions lie in `[0, FULL]`, an animation
    /// runs toward fully open or fully closed, and bars are never dragged.
    pub open spec fn wf(self) -> bool {
        &&& 0 <= self.reveal <= FULL
        &&& (self.animation matches Some(t) ==> t == 0 || t == FULL)
        &&& (self.readout matches Some(r) ==> 0 <= r <= FULL)
        &&& (self.config.style == PanelStyle::Bar ==> !self.drag_active
            && self.drag_snap_pending is None)
    }

    /// Whether sliding this panel fully off-screen (by negating its size)
    /// would overflow: only a size of `i32::MIN` cannot be negated.
    pub open spec fn size_unnegatable(self) -> bool {
        self.config.size == i32::MIN
    }

    /// The reveal the panel settles at: `FULL` when open, 0 when closed.
    pub open spec fn target(self) -> i64 {
        target_of(self.is_open)
    }

    /// After [`Panel::set_reveal`].
    pub open spec fn with_reveal(self, fraction: int) -> Panel {
        let r = clamp_unit(fraction) as i64;
        if self.config.style == PanelStyle::Drawer {
            Panel {
                reveal: r,
                margin: margin_for(r as int, self.config.size as int) as i32,
                readout: Some(r),
                ..self
            }
        } else {
            Panel { reveal: r, visible: true, readout: Some(r), ..self }
        }
    }

    /// After [`Panel::show_bar`].
    pub open spec fn with_bar_shown(self) -> Panel {
        if self.config.style == PanelStyle::Bar && !self.visible {
            Panel { visible: true, readout: Some(0), ..self }
        } else {
            self
        }
    }

    /// After [`Panel::hide_bar`].
    pub open spec fn with_bar_hidden(self) -> Panel {
        if self.config.style == PanelStyle::Bar {
            Panel { visible: false, ..self }
        } else {
            self
        }
    }

    /// The panel with its open/closed state flipped and nothing else changed.
    pub open spec fn flipped(self) -> Panel {
        Panel { is_open: !self.is_open, ..self }
    }

    /// After [`Panel::toggle`]: the state flipped, then animated toward
    /// the new target (see [`Panel::animated`]).
    pub open spec fn toggled(self) -> Panel {
        self.flipped().animated()
    }

    /// Whether a gesture beginning on this panel can be carried out: a
    /// discrete gesture that reopens a hidden drawer must be able to negate
    /// its size.
    pub open spec fn begin_safe(self, is_continuous: bool) -> bool {
        !(self.config.style == PanelStyle::Drawer && !is_continuous
            && self.flipped().reopens_hidden() && self.size_unnegatable())
    }

    /// The panel about to animate when its pending drag snap is applied.
    pub open spec fn with_pending_snap_taken(self) -> Panel {
        match self.drag_snap_pending {
            Some(open) => Panel { drag_snap_pending: None, is_open: open, ..self },
            None => self,
        }
    }

    /// Whether applying the pending drag snap can be carried out: one that
    /// reopens a hidden drawer must be able to negate its size.
    pub open spec fn pending_snap_safe(self) -> bool {
        self.drag_snap_pending is Some ==> !(self.with_pending_snap_taken().reopens_hidden()
            && self.size_unnegatable())
    }

    /// After [`Panel::snap`]: open exactly when the reveal has reached the
    /// snap threshold.
    pub open spec fn snapped(self) -> Panel {
        Panel { is_open: self.reveal >= self.config.snap_threshold, ..self }
    }

    /// Whether the reveal is already within [`SETTLED`] of the target.
    pub open spec fn settled(self) -> bool {
        abs(self.reveal - self.target()) < SETTLED
    }

    /// Whether starting an animation has to show a hidden window first
    /// (which slides it fully off-screen by negating its size).
    pub open spec fn reopens_hidden(self) -> bool {
        !self.settled() && self.is_open && !self.visible
    }

    /// After [`Panel::animate_to_target`]: any running animation is
    /// dropped; a panel already within [`SETTLED`] of its target is put
    /// there (and hidden if the target is closed); otherwise an animation
    /// toward the target starts, from fully hidden if the window was hidden
    /// and the panel is opening.
    pub open spec fn animated(self) -> Panel {
        let t = self.target();
        let s = Panel { animation: None, ..self };
        if self.settled() {
            Panel { reveal: t, visible: if t == 0 { false } else { self.visible }, ..s }
        } else if self.is_open && !self.visible {
            Panel {
                margin: (-self.config.size) as i32,
                reveal: 0,
                visible: true,
                animation: Some(t),
                ..s
            }
        } else {
            Panel { animation: Some(t), ..s }
        }
    }

    /// After [`Panel::animation_tick`]: within [`SNAP_DISTANCE`] of its
    /// target the panel lands on it and the animation stops (a closed panel
    /// is hidden); otherwise it moves by one easing step toward it.
    pub open spec fn ticked(self) -> Panel {
        match self.animation {
            None => self,
            Some(t) => {
                let diff = t - self.reveal;
                if abs(diff) < SNAP_DISTANCE {
                    Panel {
                        reveal: t,
                        visible: if t == 0 { false } else { self.visible },
                        margin: if t == 0 {
                            self.margin
                        } else {
                            margin_for(t as int, self.config.size as int) as i32
                        },
                        readout: Some(t),
                        animation: None,
                        ..self
                    }
                } else {
                    let v = clamp_unit(self.reveal + ease_step(diff)) as i64;
                    Panel {
                        reveal: v,
                        margin: margin_for(v as int, self.config.size as int) as i32,
                        readout: Some(v),
                        ..self
                    }
                }
            },
        }
    }

    /// After [`Panel::drag_begin`].
    pub open spec fn drag_began(self) -> Panel {
        if self.config.style == PanelStyle::Drawer {
            Panel { drag_active: true, ..self }
        } else {
            self
        }
    }

    /// After [`Panel::drag_update`].
    pub open spec fn drag_moved(self, offset_x: int, offset_y: int) -> Panel {
        if self.config.style == PanelStyle::Drawer {
            let v = dragged_reveal(
                self.reveal as int,
                self.config.size as int,
                drag_distance(self.config.edge, offset_x, offset_y),
            ) as i64;
            Panel {
                reveal: v,
                margin: margin_for(v as int, self.config.size as int) as i32,
                readout: Some(v),
                ..self
            }
        } else {
            self
        }
    }

    /// After [`Panel::drag_end`]: the drag is over, and a snap is pending
    /// toward open exactly when the reveal has reached the snap threshold.
    pub open spec fn drag_ended(self) -> Panel {
        if self.config.style == PanelStyle::Drawer {
            Panel {
                drag_active: false,
                drag_snap_pending: Some(self.reveal >= self.config.snap_threshold),
                ..self
            }
        } else {
            self
        }
    }

    /// After [`Panel::apply_pending_snap`].
    pub open spec fn pending_snap_applied(self) -> Panel {
        match self.drag_snap_pending {
            Some(open) => Panel { drag_snap_pending: None, is_open: open, ..self }.animated(),
            None => self,
        }
    }

    /// After [`Panel::begin_gesture`]: any animation stops and a gesture
    /// takes over. A bar is shown, and a discrete gesture fills it at once
    /// and lets go again; a discrete gesture toggles a drawer and animates
    /// it to its new state; a continuous gesture shows a drawer's window so
    /// that progress can drive it.
    pub open spec fn began(self, is_continuous: bool) -> Panel {
        let s = Panel { animation: None, gesture_active: true, ..self };
        if self.config.style == PanelStyle::Bar {
            let b = s.with_bar_shown();
            if !is_continuous {
                Panel { gesture_active: false, ..b.with_reveal(FULL as int) }
            } else {
                b
            }
        } else if !is_continuous {
            Panel { gesture_active: false, ..s.toggled() }
        } else {
            Panel { visible: true, ..s }
        }
    }

    /// After [`Panel::gesture_progress`]: while a gesture (and no drag)
    /// drives the panel, the reveal follows the progress (inverted for an
    /// open panel, so that the gesture closes it).
    pub open spec fn progressed(self, progress: int) -> Panel {
        if self.gesture_active && !self.drag_active {
            self.with_reveal(progress_reveal(self.is_open, progress))
        } else {
            self
        }
    }

    /// After [`Panel::end_gesture`]: a bar lets go and hides; a drawer that
    /// a gesture was driving lets go, snaps open or closed by its reveal
    /// against the snap threshold, jumps to that state's reveal, and hides
    /// its window if it closed.
    pub open spec fn ended(self) -> Panel {
        if self.config.style == PanelStyle::Bar {
            Panel { gesture_active: false, ..self }.with_bar_hidden()
        } else if self.gesture_active {
            let s = Panel { gesture_active: false, ..self }.snapped();
            let t = s.with_reveal(s.target() as int);
            if !s.is_open {
                Panel { visible: false, ..t }
            } else {
                t
            }
        } else {
            self
        }
    }

    /// Create the state of a new panel (see [`initial_panel`]).
    pub fn new(config: &PanelConfig) -> (r: Panel)
        requires
            config.style == PanelStyle::Drawer && !config.start_open ==> config.size != i32::MIN,
        ensures
            r == initial_panel(*config),
            r.wf(),
    {
        let config = config.duplicate();
        match config.style {
            PanelStyle::Drawer => {
                let start_open = config.start_open;
                let margin = if start_open {
                    0
                } else {
                    -config.size
                };
                Panel {
                    config,
                    reveal: if start_open {
                        FULL
                    } else {
                        0
                    },
                    is_open: start_open,
                    gesture_active: false,
                    drag_active: false,
                    drag_snap_pending: None,
                    animation: None,
                    visible: start_open,
                    margin,
                    readout: None,
                }
            },
            PanelStyle::Bar => Panel {
                config,
                reveal: 0,
                is_open: false,
                gesture_active: false,
                drag_active: false,
                drag_snap_pending: None,
                animation: None,
                visible: false,
                margin: 0,
                readout: Some(0),
            },
        }
    }

    /// Set the panel's reveal fraction directly (during active gesture
    /// tracking), clamped to `[0, FULL]`. A drawer slides to match and its
    /// readout follows; a bar is shown if hidden and its readout follows.
    pub fn set_reveal(&mut self, fraction: i64)
        requires
            old(self).wf(),
        ensures
            *final(self) == old(self).with_reveal(fraction as int),
            final(self).wf(),
    {
        let r = clamp_fraction(fraction);
        self.reveal = r;
        match self.config.style {
            PanelStyle::Drawer => {
                self.margin = reveal_margin(r, self.config.size);
                self.readout = Some(r);
            },
            PanelStyle::Bar => {
                if !self.visible {
                    self.visible = true;
                }
                self.readout = Some(r);
            },
        }
    }

    /// Show the bar (for gesture begin on bar-style panels).
    pub fn show_bar(&mut self)
        requires
            old(self).wf(),
        ensures
            *final(self) == old(self).with_bar_shown(),
            final(self).wf(),
    {
        if self.config.style == PanelStyle::Bar && !self.visible {
            self.visible = true;
            self.readout = Some(0);
        }
    }

    /// Hide the bar (for gesture end on bar-style panels).
    pub fn hide_bar(&mut self)
        requires
            old(self).wf(),
        ensures
            *final(self) == old(self).with_bar_hidden(),
            final(self).wf(),
    {
        if self.config.style == PanelStyle::Bar {
            self.visible = false;
        }
    }

    /// Toggle the open/closed state and animate to the new target.
    pub fn toggle(&mut self)
        requires
            old(self).wf(),
            old(self).flipped().reopens_hidden() ==> !old(self).size_unnegatable(),
        ensures
            *final(self) == old(self).toggled(),
            final(self).wf(),
    {
        self.is_open = !self.is_open;
        self.animate_to_target();
    }

    /// Snap the panel open or closed by its current reveal against its
    /// snap threshold.
    pub fn snap(&mut self)
        requires
            old(self).wf(),
        ensures
            *final(self) == old(self).snapped(),
            final(self).wf(),
    {
        self.is_open = self.reveal >= self.config.snap_threshold;
    }

    /// Start an animation towards the target state (open/closed), replacing
    /// any running one (see [`Panel::animated`]).
    pub fn animate_to_target(&mut self)
        requires
            old(self).wf(),
            old(self).reopens_hidden() ==> !old(self).size_unnegatable(),
        ensures
            *final(self) == old(self).animated(),
            final(self).wf(),
    {
        self.animation = None;
        let target = if self.is_open {
            FULL
        } else {
            0
        };
        let diff = self.reveal - target;
        if -SETTLED < diff && diff < SETTLED {
            self.reveal = target;
            if target == 0 {
                self.visible = false;
            }
            return ;
        }
        if self.is_open && !self.visible {
            self.margin = -self.config.size;
            self.reveal = 0;
            self.visible = true;
        }
        self.animation = Some(target);
    }

    /// Advance the running animation by one frame (see [`Panel::ticked`]).
    pub fn animation_tick(&mut self)
        requires
            old(self).wf(),
        ensures
            *final(self) == old(self).ticked(),
            final(self).wf(),
    {
        match self.animation {
            None => {},
            Some(target) => {
                let diff = target - self.reveal;
                if -SNAP_DISTANCE < diff && diff < SNAP_DISTANCE {
                    self.reveal = target;
                    if target == 0 {
                        self.visible = false;
                    } else {
                        self.margin = reveal_margin(target, self.config.size);
                    }
                    self.readout = Some(target);
                    self.animation = None;
                } else {
                    let step = easing_step(diff);
                    let v = clamp_fraction(self.reveal + step);
                    self.reveal = v;
                    self.margin = reveal_margin(v, self.config.size);
                    self.readout = Some(v);
                }
            },
        }
    }

    /// A local drag on a drawer started.
    pub fn drag_begin(&mut self)
        requires
            old(self).wf(),
        ensures
            *final(self) == old(self).drag_began(),
            final(self).wf(),
    {
        if self.config.style == PanelStyle::Drawer {
            self.drag_active = true;
        }
    }

    /// A local drag on a drawer moved to offset `(offset_x, offset_y)`, in
    /// millionths of a pixel: dragging toward the panel's edge closes it.
    pub fn drag_update(&mut self, offset_x: i64, offset_y: i64)
        requires
            old(self).wf(),
        ensures
            *final(self) == old(self).drag_moved(offset_x as int, offset_y as int),
            final(self).wf(),
    {
        if self.config.style == PanelStyle::Drawer {
            let ox = offset_x as i128;
            let oy = offset_y as i128;
            let distance: i128 = match self.config.edge {
                Edge::Left => -ox,
                Edge::Right => ox,
                Edge::Top => -oy,
                Edge::Bottom => oy,
            };
            let size = self.config.size as i128;
            let v: i64 = if size == 0 {
                if distance > 0 {
                    0
                } else if distance < 0 {
                    FULL
                } else {
                    self.reveal
                }
            } else {
                let mag_d: i128 = if distance >= 0 {
                    distance
                } else {
                    -distance
                };
                let mag_s: i128 = if size >= 0 {
                    size
                } else {
                    -size
                };
                let q: i128 = mag_d / mag_s;
                assert(0 <= q <= mag_d) by (nonlinear_arith)
                    requires
                        mag_s >= 1,
                        mag_d >= 0,
                        q == mag_d / mag_s,
                ;
                let delta: i128 = if (distance >= 0) == (size >= 0) {
                    q
                } else {
                    -q
                };
                let raw: i128 = FULL as i128 - delta;
                if raw < 0 {
                    0
                } else if raw > FULL as i128 {
                    FULL
                } else {
                    raw as i64
                }
            };
            self.reveal = v;
            self.margin = reveal_margin(v, self.config.size);
            self.readout = Some(v);
        }
    }

    /// A local drag on a drawer ended: a snap toward open or closed (by the
    /// reveal against the snap threshold) is left pending.
    pub fn drag_end(&mut self)
        requires
            old(self).wf(),
        ensures
            *final(self) == old(self).drag_ended(),
            final(self).wf(),
    {
        if self.config.style == PanelStyle::Drawer {
            self.drag_active = false;
            self.drag_snap_pending = Some(self.reveal >= self.config.snap_threshold);
        }
    }

    /// Consume a pending drag snap: the panel becomes open or closed as the
    /// drag decided and animates there.
    pub fn apply_pending_snap(&mut self)
        requires
            old(self).wf(),
            old(self).pending_snap_safe(),
        ensures
            *final(self) == old(self).pending_snap_applied(),
            final(self).wf(),
    {
        match self.drag_snap_pending {
            Some(open) => {
                self.drag_snap_pending = None;
                self.is_open = open;
                self.animate_to_target();
            },
            None => {},
        }
    }

    /// A gesture with this panel's tag began (see [`Panel::began`]).
    pub fn begin_gesture(&mut self, is_continuous: bool)
        requires
            old(self).wf(),
            old(self).begin_safe(is_continuous),
        ensures
            *final(self) == old(self).began(is_continuous),
            final(self).wf(),
    {
        self.animation = None;
        self.gesture_active = true;
        match self.config.style {
            PanelStyle::Bar => {
                self.show_bar();
                if !is_continuous {
                    self.set_reveal(FULL);
                    self.gesture_active = false;
                }
            },
            PanelStyle::Drawer => {
                if !is_continuous {
                    self.toggle();
                    self.gesture_active = false;
                } else {
                    if !self.visible {
                        self.visible = true;
                    }
                }
            },
        }
    }

    /// A gesture with this panel's tag progressed (see [`Panel::progressed`]).
    pub fn gesture_progress(&mut self, progress: i64)
        requires
            old(self).wf(),
        ensures
            *final(self) == old(self).progressed(progress as int),
            final(self).wf(),
    {
        if self.gesture_active && !self.drag_active {
            let m = magnitude_fraction(progress);
            let r = if self.is_open {
                FULL - m
            } else {
                m
            };
            self.set_reveal(r);
        }
    }

    /// A gesture with this panel's tag ended (see [`Panel::ended`]).
    pub fn end_gesture(&mut self)
        requires
            old(self).wf(),
        ensures
            *final(self) == old(self).ended(),
            final(self).wf(),
    {
        match self.config.style {
            PanelStyle::Bar => {
                self.gesture_active = false;
                self.hide_bar();
            },
            PanelStyle::Drawer => {
                if self.gesture_active {
                    self.gesture_active = false;
                    self.snap();
                    let target = if self.is_open {
                        FULL
                    } else {
                        0
                    };
                    self.set_reveal(target);
                    if !self.is_open {
                        self.visible = false;
                    }
                }
            },
        }
    }

    /// Whether animating toward `open` from the current state would have to
    /// slide a hidden window fully off-screen first.
    fn would_reopen_hidden(&self, open: bool) -> (r: bool)
        requires
            self.wf(),
        ensures
            r == (Panel { is_open: open, ..*self }).reopens_hidden(),
    {
        let target = if open {
            FULL
        } else {
            0
        };
        let diff = self.reveal - target;
        let settled = -SETTLED < diff && diff < SETTLED;
        !settled && open && !self.visible
    }

    /// Whether beginning a gesture would overflow negating the panel's size
    /// (see [`Panel::begin_safe`]).
    pub fn begin_overflows(&self, is_continuous: bool) -> (r: bool)
        requires
            self.wf(),
        ensures
            r == !self.begin_safe(is_continuous),
    {
        self.config.style == PanelStyle::Drawer && !is_continuous && self.would_reopen_hidden(
            !self.is_open,
        ) && self.config.size == i32::MIN
    }

    /// Whether applying the pending drag snap would overflow negating the
    /// panel's size (see [`Panel::pending_snap_safe`]).
    pub fn pending_snap_overflows(&self) -> (r: bool)
        requires
            self.wf(),
        ensures
            r == !self.pending_snap_safe(),
    {
        match self.drag_snap_pending {
            Some(open) => self.would_reopen_hidden(open) && self.config.size == i32::MIN,
            None => false,
        }
    }
}

} // verus!
