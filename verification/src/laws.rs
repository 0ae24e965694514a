//! Properties of the panels that hold across operations.

use vstd::prelude::*;

use crate::config::{Edge, PanelConfig, PanelStyle, Zone};
use crate::fraction::{
    abs, clamp_unit, div_toward_zero, ease_step, margin_for, percent_of, FULL, SETTLED, SNAP_DISTANCE,
};
use crate::geometry::{side_of, spec_anchor_corner, spec_parallel_extent, Side};
use crate::ipc::{
    event_tag, routes_line, spec_event_msg, Event, GestureMsg, IncomingLine, LineOutcome,
};
use crate::panel::{initial_panel, progress_reveal, target_of, Panel};
use crate::sidebar::{
    after_message, built, distinct_tags, has_tag, index_of, inserted, lemma_index_of_unique, tag_at,
};
use crate::style::{
    css_escaped, is_ascii_alphanumeric, lemma_escaped_charset, lemma_escaped_injective,
    spec_css_class,
};

verus! {

/// Toggling flips the open/closed state (so toggling twice restores it)
/// and sets the panel moving toward its new state, or puts it there if it
/// is already within reach.
pub proof fn law_toggle_flips_and_animates(p: Panel)
    requires
        p.wf(),
    ensures
        p.toggled().is_open == !p.is_open,
        p.toggled().toggled().is_open == p.is_open,
        p.toggled().animation == Some(target_of(!p.is_open)) || (p.toggled().animation is None
            && p.toggled().reveal == target_of(!p.is_open)),
        p.toggled().wf(),
{
}

/// Snapping opens a panel exactly when its reveal has reached the snap
/// threshold, and changes nothing else.
pub proof fn law_snap_follows_threshold(p: Panel)
    ensures
        p.snapped().is_open <==> p.reveal >= p.config.snap_threshold,
        (Panel { is_open: p.is_open, ..p.snapped() }) == p,
{
}

/// One easing step moves toward the target without reaching or passing it,
/// by at least one part per million, once the distance is at least
/// [`SNAP_DISTANCE`].
pub proof fn lemma_ease_step_progress(diff: int)
    requires
        abs(diff) >= SNAP_DISTANCE,
    ensures
        diff > 0 ==> 0 < ease_step(diff) < diff,
        diff < 0 ==> diff < ease_step(diff) < 0,
{
    if diff > 0 {
        assert(0 < (diff * 2) / 15 < diff) by (nonlinear_arith)
            requires
                diff >= 5000,
        ;
    } else {
        assert(0 < ((-diff) * 2) / 15 < -diff) by (nonlinear_arith)
            requires
                -diff >= 5000,
        ;
    }
}

/// Every animation frame brings a well-formed panel strictly closer to the
/// animation's target without overshooting it, or lands it on the target
/// and stops the animation; a panel that lands closed is hidden.
pub proof fn law_animation_frame_approaches_target(p: Panel)
    requires
        p.wf(),
        p.animation is Some,
    ensures
        ({
            let t = p.animation->0;
            let q = p.ticked();
            ||| q.animation is None && q.reveal == t && (t == 0 ==> !q.visible)
            ||| q.animation == Some(t) && abs(t - q.reveal) < abs(t - p.reveal) && (p.reveal
                <= q.reveal <= t || t <= q.reveal <= p.reveal)
        }),
        p.ticked().wf(),
{
    let t = p.animation->0;
    let diff = t - p.reveal;
    if abs(diff) >= SNAP_DISTANCE {
        lemma_ease_step_progress(diff);
    }
}

/// The panel after `n` animation frames.
pub open spec fn after_frames(p: Panel, n: nat) -> Panel
    decreases n,
{
    if n == 0 {
        p
    } else {
        after_frames(p.ticked(), (n - 1) as nat)
    }
}

/// A panel without a running animation is left alone by animation frames.
pub proof fn lemma_frames_without_animation(p: Panel, n: nat)
    requires
        p.animation is None,
    ensures
        after_frames(p, n) == p,
    decreases n,
{
    if n > 0 {
        lemma_frames_without_animation(p.ticked(), (n - 1) as nat);
    }
}

/// The distance to the target after one easing step from distance `d`.
pub open spec fn eased_distance(d: int) -> int {
    d - (d * 2) / 15
}

/// The largest distance to its target an animation can still have after
/// `k` frames that did not land it: `FULL`, eased `k` times.
pub open spec fn distance_bound(k: nat) -> int
    decreases k,
{
    if k == 0 {
        FULL as int
    } else {
        eased_distance(distance_bound((k - 1) as nat))
    }
}

/// Easing never turns a shorter distance into a longer one.
pub proof fn lemma_eased_distance_monotone(a: int, b: int)
    requires
        0 <= a <= b,
    ensures
        0 <= eased_distance(a) <= eased_distance(b),
{
    assert(0 <= a - (a * 2) / 15 <= b - (b * 2) / 15) by (nonlinear_arith)
        requires
            0 <= a <= b,
    ;
}

/// After 38 easing steps from a whole, the distance is below [`SNAP_DISTANCE`].
pub proof fn lemma_distance_bound_after_38_frames()
    ensures
        distance_bound(38) < SNAP_DISTANCE,
{
    reveal_with_fuel(distance_bound, 39);
}

/// An animation frame that does not land the panel eases its distance to
/// the target, and leaves its visibility alone.
pub proof fn lemma_frame_eases_distance(p: Panel)
    requires
        p.wf(),
        p.animation is Some,
        abs(p.animation->0 - p.reveal) >= SNAP_DISTANCE,
    ensures
        p.ticked().animation == p.animation,
        p.ticked().visible == p.visible,
        abs(p.animation->0 - p.ticked().reveal) == eased_distance(abs(p.animation->0 - p.reveal)),
{
    let t = p.animation->0;
    let diff = t - p.reveal;
    lemma_ease_step_progress(diff);
    if diff < 0 {
        assert(abs(diff) * 2 == -(diff * 2));
    }
}

/// A panel within `distance_bound(k)` of its animation's target lands on
/// it within `39 - k` frames.
pub proof fn lemma_lands_within(p: Panel, k: nat)
    requires
        p.wf(),
        p.animation is Some,
        k <= 38,
        abs(p.animation->0 - p.reveal) <= distance_bound(k),
    ensures
        after_frames(p, (39 - k) as nat).animation is None,
    decreases 38 - k,
{
    let t = p.animation->0;
    let q = p.ticked();
    law_animation_frame_approaches_target(p);
    if abs(t - p.reveal) < SNAP_DISTANCE {
        lemma_frames_without_animation(q, (38 - k) as nat);
    } else {
        lemma_distance_bound_after_38_frames();
        if k == 38 {
            assert(false);
        }
        lemma_frame_eases_distance(p);
        lemma_eased_distance_monotone(abs(t - p.reveal), distance_bound(k));
        assert(distance_bound(k + 1) == eased_distance(distance_bound(k)));
        lemma_lands_within(q, k + 1);
    }
}

/// Once an animation has stopped, the panel sits exactly on its target
/// with the readout showing it; a panel that landed closed is hidden, and
/// one that landed open keeps its visibility and sits at the target's margin.
pub proof fn lemma_landing_state(p: Panel, n: nat)
    requires
        p.wf(),
        p.animation is Some,
        after_frames(p, n).animation is None,
    ensures
        ({
            let t = p.animation->0;
            let q = after_frames(p, n);
            &&& q.reveal == t
            &&& q.readout == Some(t)
            &&& t == 0 ==> !q.visible
            &&& t != 0 ==> q.visible == p.visible && q.margin == margin_for(
                t as int,
                p.config.size as int,
            )
        }),
    decreases n,
{
    if n > 0 {
        let t = p.animation->0;
        let q = p.ticked();
        law_animation_frame_approaches_target(p);
        if q.animation is None {
            lemma_frames_without_animation(q, (n - 1) as nat);
        } else {
            lemma_frame_eases_distance(p);
            lemma_landing_state(q, (n - 1) as nat);
        }
    }
}

/// Every running animation lands within 39 frames: the animation stops with
/// the panel exactly on its target and the readout showing it; a panel
/// landing closed is hidden, one landing open keeps its visibility and
/// sits at margin 0.
pub proof fn law_animation_lands_within_39_frames(p: Panel)
    requires
        p.wf(),
        p.animation is Some,
    ensures
        ({
            let t = p.animation->0;
            let q = after_frames(p, 39);
            &&& q.animation is None
            &&& q.reveal == t
            &&& q.readout == Some(t)
            &&& t == 0 ==> !q.visible
            &&& t == FULL ==> q.visible == p.visible && q.margin == 0
        }),
{
    lemma_lands_within(p, 0);
    lemma_landing_state(p, 39);
}

/// A drawer sent toward its target by [`Panel::animate_to_target`] from
/// more than [`SETTLED`] away lands there within 39 frames: fully open and
/// shown at margin 0 with the readout at 100%, or fully closed and hidden
/// with the readout at 0%. Every frame on the way moves strictly toward the
/// target without passing it (see [`law_animation_frame_approaches_target`]).
pub proof fn law_animate_to_target_lands(p: Panel)
    requires
        p.wf(),
        !p.settled(),
    ensures
        p.animated().animation == Some(p.target()),
        p.animated().wf(),
        ({
            let q = after_frames(p.animated(), 39);
            &&& q.animation is None
            &&& q.reveal == p.target()
            &&& q.readout == Some(p.target())
            &&& percent_of(q.readout->0 as int) == if p.is_open { 100int } else { 0int }
            &&& !p.is_open ==> !q.visible
            &&& p.is_open ==> q.visible && q.margin == 0
        }),
{
    law_animation_lands_within_39_frames(p.animated());
    assert(percent_of(FULL as int) == 100);
    assert(percent_of(0) == 0);
}

/// Animation frames keep a panel well formed, and never change the target
/// of a running animation.
pub proof fn lemma_frames_keep_invariant(p: Panel, n: nat)
    requires
        p.wf(),
    ensures
        after_frames(p, n).wf(),
        after_frames(p, n).animation is Some ==> after_frames(p, n).animation == p.animation,
        after_frames(p, n).config == p.config,
    decreases n,
{
    if n > 0 {
        if p.animation is Some {
            law_animation_frame_approaches_target(p);
        }
        lemma_frames_keep_invariant(p.ticked(), (n - 1) as nat);
    }
}

/// Each frame of the animation that [`Panel::animate_to_target`] starts,
/// while it runs, moves the reveal strictly closer to the target without
/// passing it, and sets the margin for the new reveal; or lands on the
/// target and stops.
pub proof fn law_frames_after_animate_approach_target(p: Panel, k: nat)
    requires
        p.wf(),
        after_frames(p.animated(), k).animation is Some,
    ensures
        ({
            let t = p.target();
            let before = after_frames(p.animated(), k);
            let after = before.ticked();
            ||| after.animation is None && after.reveal == t
            ||| after.animation == Some(t) && abs(t - after.reveal) < abs(t - before.reveal) && (
            before.reveal <= after.reveal <= t || t <= after.reveal <= before.reveal)
                && after.margin == margin_for(after.reveal as int, p.config.size as int) as i32
        }),
{
    lemma_frames_keep_invariant(p.animated(), k);
    let before = after_frames(p.animated(), k);
    law_animation_frame_approaches_target(before);
}

/// Releasing a continuous gesture on a drawer latches it open when its
/// reveal had reached the snap threshold and slides it back closed
/// otherwise: the drawer lands fully open or fully closed, the gesture no
/// longer drives it, and a closed drawer is hidden.
pub proof fn law_release_latches_by_threshold(p: Panel)
    requires
        p.wf(),
        p.config.style == PanelStyle::Drawer,
        p.gesture_active,
    ensures
        p.ended().is_open <==> p.reveal >= p.config.snap_threshold,
        p.ended().reveal == target_of(p.ended().is_open),
        !p.ended().gesture_active,
        !p.ended().is_open ==> !p.ended().visible,
        p.ended().wf(),
{
}

/// While a gesture drives a panel (and no drag does), the panel follows
/// the gesture's progress: a closed panel is revealed by the progress, an
/// open one by one whole minus it.
pub proof fn law_panel_follows_progress(p: Panel, progress: int)
    requires
        p.wf(),
        p.gesture_active,
        !p.drag_active,
    ensures
        p.progressed(progress).reveal == progress_reveal(p.is_open, progress),
        !p.is_open ==> p.progressed(progress).reveal == clamp_unit(abs(progress)),
        p.is_open ==> p.progressed(progress).reveal == clamp_unit(FULL - abs(progress)),
        p.progressed(progress).is_open == p.is_open,
{
}

/// Progress does nothing to a panel that no gesture drives, or that a drag
/// is moving.
pub proof fn law_progress_ignored_unless_driven(p: Panel, progress: int)
    requires
        !p.gesture_active || p.drag_active,
    ensures
        p.progressed(progress) == p,
{
}

/// A discrete gesture toggles a drawer and sets it moving toward its new
/// state (or puts it there if it is already within reach), leaving no
/// gesture active.
pub proof fn law_discrete_gesture_toggles_drawer(p: Panel)
    requires
        p.wf(),
        p.config.style == PanelStyle::Drawer,
    ensures
        p.began(false).is_open == !p.is_open,
        !p.began(false).gesture_active,
        p.began(false).animation == Some(target_of(!p.is_open)) || (p.began(false).animation is None
            && p.began(false).reveal == target_of(!p.is_open)),
        p.began(false).wf(),
{
}

/// Releasing a drag leaves the same decision pending that snapping would
/// take, and carrying it out opens or closes the drawer accordingly and
/// animates it there.
pub proof fn law_drag_release_snaps_like_gesture(p: Panel)
    requires
        p.wf(),
        p.config.style == PanelStyle::Drawer,
    ensures
        p.drag_ended().drag_snap_pending == Some(p.snapped().is_open),
        !p.drag_ended().drag_active,
        p.drag_ended().pending_snap_applied().is_open == p.snapped().is_open,
        p.drag_ended().pending_snap_applied().drag_snap_pending is None,
        p.drag_ended().pending_snap_applied() == (Panel {
            drag_active: false,
            drag_snap_pending: None,
            ..p.snapped()
        }).animated(),
{
}

/// A gesture that begins stops any running animation: a continuous gesture
/// (on any panel) and a discrete one on a bar leave no animation running,
/// and take over the panel while it lasts (a continuous one) or fill a bar
/// at once (a discrete one).
pub proof fn law_gesture_begin_stops_animation(p: Panel)
    requires
        p.wf(),
    ensures
        p.began(true).animation is None,
        p.began(true).gesture_active,
        p.began(true).visible,
        p.config.style == PanelStyle::Bar ==> p.began(false).animation is None
            && p.began(false).reveal == FULL && p.began(false).visible,
{
}

/// A bar is on screen only while a gesture runs: beginning a gesture shows
/// it, and ending one hides it and leaves no gesture driving it; gestures
/// never open or close a bar.
pub proof fn law_bar_shows_only_during_gestures(p: Panel, is_continuous: bool)
    requires
        p.wf(),
        p.config.style == PanelStyle::Bar,
    ensures
        p.began(is_continuous).visible,
        !p.ended().visible,
        !p.ended().gesture_active,
        p.began(is_continuous).is_open == p.is_open,
        p.ended().is_open == p.is_open,
{
}

/// Bars are never dragged: drag input leaves a bar as it was.
pub proof fn law_bars_ignore_drags(p: Panel, offset_x: int, offset_y: int)
    requires
        p.config.style == PanelStyle::Bar,
    ensures
        p.drag_began() == p,
        p.drag_moved(offset_x, offset_y) == p,
        p.drag_ended() == p,
{
}

/// Every gesture, drag and animation step keeps a panel well formed.
pub proof fn law_panel_operations_keep_invariant(
    p: Panel,
    fraction: int,
    progress: int,
    is_continuous: bool,
    offset_x: int,
    offset_y: int,
)
    requires
        p.wf(),
    ensures
        p.with_reveal(fraction).wf(),
        p.with_bar_shown().wf(),
        p.with_bar_hidden().wf(),
        p.toggled().wf(),
        p.snapped().wf(),
        p.ticked().wf(),
        p.began(is_continuous).wf(),
        p.progressed(progress).wf(),
        p.ended().wf(),
        p.drag_began().wf(),
        p.drag_moved(offset_x, offset_y).wf(),
        p.drag_ended().wf(),
        p.pending_snap_applied().wf(),
        (p.reopens_hidden() ==> p.config.size != i32::MIN) ==> p.animated().wf(),
{
    if p.animation is Some {
        law_animation_frame_approaches_target(p);
    }
}

/// The tag a gesture message is for (a disconnection is for no panel).
pub open spec fn message_tag(msg: GestureMsg) -> Option<Seq<char>> {
    match msg {
        GestureMsg::Begin { tag, .. } => Some(tag@),
        GestureMsg::Progress { tag, .. } => Some(tag@),
        GestureMsg::End { tag, .. } => Some(tag@),
        GestureMsg::Disconnected(_) => None,
    }
}

/// A gesture message changes at most the panel with its tag: a message for
/// a tag no panel has, or a disconnection, changes nothing, and every other
/// panel stays as it was.
pub proof fn law_message_touches_only_its_panel(ps: Seq<Panel>, msg: GestureMsg, j: int)
    requires
        distinct_tags(ps),
        0 <= j < ps.len(),
    ensures
        after_message(ps, msg).len() == ps.len(),
        (message_tag(msg) is None || !has_tag(ps, message_tag(msg)->0)) ==> after_message(ps, msg)
            == ps,
        message_tag(msg) matches Some(tag) && ps[j].config.tag@ != tag ==> after_message(
            ps,
            msg,
        )[j] == ps[j],
{
    match message_tag(msg) {
        Some(tag) => {
            if has_tag(ps, tag) {
                let i = index_of(ps, tag);
                assert(tag_at(ps, i, tag));
            }
        },
        None => {},
    }
}

/// After a panel is put in, it is the panel found under its tag, and every
/// panel with another tag is still found, unchanged, under its own.
pub proof fn law_insert_then_find(ps: Seq<Panel>, p: Panel, tag: Seq<char>)
    requires
        distinct_tags(ps),
    ensures
        distinct_tags(inserted(ps, p)),
        has_tag(inserted(ps, p), p.config.tag@),
        inserted(ps, p)[index_of(inserted(ps, p), p.config.tag@)] == p,
        tag != p.config.tag@ ==> (has_tag(inserted(ps, p), tag) <==> has_tag(ps, tag)),
        tag != p.config.tag@ && has_tag(ps, tag) ==> inserted(ps, p)[index_of(
            inserted(ps, p),
            tag,
        )] == ps[index_of(ps, tag)],
{
    let qs = inserted(ps, p);
    let k: int = if has_tag(ps, p.config.tag@) {
        index_of(ps, p.config.tag@)
    } else {
        ps.len() as int
    };
    if has_tag(ps, p.config.tag@) {
        assert(tag_at(ps, k, p.config.tag@));
    }
    assert(qs[k] == p);
    assert forall|a: int, b: int|
        0 <= a < qs.len() && 0 <= b < qs.len() && a != b implies #[trigger] qs[a].config.tag@
            != #[trigger] qs[b].config.tag@ by {
        if a == k {
            if b < ps.len() && ps[b].config.tag@ == p.config.tag@ {
                assert(tag_at(ps, b, p.config.tag@));
            }
        } else if b == k {
            if a < ps.len() && ps[a].config.tag@ == p.config.tag@ {
                assert(tag_at(ps, a, p.config.tag@));
            }
        } else {
            assert(ps[a].config.tag@ != ps[b].config.tag@);
        }
    }
    assert(tag_at(qs, k, p.config.tag@));
    lemma_index_of_unique(qs, k, p.config.tag@);
    if tag != p.config.tag@ {
        if has_tag(ps, tag) {
            let i = index_of(ps, tag);
            assert(tag_at(ps, i, tag));
            assert(i != k);
            assert(tag_at(qs, i, tag));
            lemma_index_of_unique(qs, i, tag);
        }
        if has_tag(qs, tag) {
            let i = index_of(qs, tag);
            assert(tag_at(qs, i, tag));
            assert(i != k);
            assert(tag_at(ps, i, tag));
        }
    }
}

/// No two panel configurations share a tag.
pub open spec fn distinct_config_tags(cs: Seq<PanelConfig>) -> bool {
    forall|i: int, j: int|
        0 <= i < cs.len() && 0 <= j < cs.len() && i != j ==> #[trigger] cs[i].tag@
            != #[trigger] cs[j].tag@
}

/// With distinct tags, the sidebar holds exactly one panel per configured
/// entry, in configuration order, each in its initial state.
pub proof fn law_one_panel_per_entry(cs: Seq<PanelConfig>)
    requires
        distinct_config_tags(cs),
    ensures
        built(cs).len() == cs.len(),
        forall|i: int| 0 <= i < cs.len() ==> #[trigger] built(cs)[i] == initial_panel(cs[i]),
    decreases cs.len(),
{
    if cs.len() > 0 {
        let dl = cs.drop_last();
        assert(distinct_config_tags(dl)) by {
            assert forall|i: int, j: int|
                0 <= i < dl.len() && 0 <= j < dl.len() && i != j implies #[trigger] dl[i].tag@
                    != #[trigger] dl[j].tag@ by {
                assert(cs[i].tag@ != cs[j].tag@);
            }
        }
        law_one_panel_per_entry(dl);
        let p = initial_panel(cs.last());
        if has_tag(built(dl), p.config.tag@) {
            let i = index_of(built(dl), p.config.tag@);
            assert(tag_at(built(dl), i, p.config.tag@));
            assert(cs[i].tag@ != cs[cs.len() - 1].tag@);
        }
    }
}

/// A fully revealed panel sits at margin 0, a fully hidden one is pushed
/// off-screen by its whole size, and the margin only grows as the reveal
/// does.
pub proof fn law_margin_tracks_reveal(r1: int, r2: int, size: int)
    requires
        0 <= r1 <= r2 <= FULL,
        0 <= size <= i32::MAX,
    ensures
        margin_for(FULL as int, size) == 0,
        margin_for(0, size) == -size,
        margin_for(r1, size) <= margin_for(r2, size),
        -size <= margin_for(r1, size) <= 0,
{
    assert(((FULL - r2) * size) / (FULL as int) <= ((FULL - r1) * size) / (FULL as int))
        by (nonlinear_arith)
        requires
            0 <= r1 <= r2 <= FULL,
            0 <= size,
            FULL > 0,
    ;
    assert(0 <= ((FULL - r1) * size) / (FULL as int) <= size) by (nonlinear_arith)
        requires
            0 <= r1 <= FULL,
            0 <= size,
            FULL > 0,
    ;
    assert((FULL * size) / (FULL as int) == size) by (nonlinear_arith)
        requires
            FULL > 0,
    ;
}

/// The readout shows 0% for a hidden panel, 100% for a fully revealed one,
/// and never decreases as the reveal grows.
pub proof fn law_readout_percent_bounds(f: int, g: int)
    requires
        0 <= f <= g <= FULL,
    ensures
        percent_of(0) == 0,
        percent_of(FULL as int) == 100,
        0 <= percent_of(f) <= percent_of(g) <= 100,
{
    assert(0 <= (f * 100) / (FULL as int) <= (g * 100) / (FULL as int) <= 100) by (nonlinear_arith)
        requires
            0 <= f <= g <= FULL,
            FULL == 1_000_000,
    ;
    assert((f * 100) / (FULL as int) == (g * 100) / (FULL as int) ==> (f * 100) % (FULL as int)
        <= (g * 100) % (FULL as int)) by (nonlinear_arith)
        requires
            0 <= f <= g <= FULL,
            FULL == 1_000_000,
    ;
    assert((f * 100) / (FULL as int) < (g * 100) / (FULL as int) ==> percent_of(f) <= percent_of(
        g,
    )) by {
        let qf = (f * 100) / (FULL as int);
        let rf = (f * 100) % (FULL as int);
        assert(2 * rf < 2 * FULL);
    }
    assert(f * 100 <= 100 * FULL) by (nonlinear_arith)
        requires
            f <= FULL,
    ;
    assert(g * 100 <= 100 * FULL) by (nonlinear_arith)
        requires
            g <= FULL,
    ;
}

/// A panel's CSS class starts with `panel-` (so with a letter), holds
/// nothing but ASCII letters, digits and `-`, and differs for different
/// tags, so that each panel's stylesheet applies to its own window only.
pub proof fn law_css_class_is_a_unique_identifier(a: Seq<char>, b: Seq<char>)
    ensures
        spec_css_class(a).subrange(0, 6) == "panel-"@,
        forall|i: int|
            0 <= i < spec_css_class(a).len() ==> is_ascii_alphanumeric(
                #[trigger] spec_css_class(a)[i],
            ) || spec_css_class(a)[i] == '-',
        a != b ==> spec_css_class(a) != spec_css_class(b),
{
    reveal_strlit("panel-");
    let c = spec_css_class(a);
    assert(c.subrange(0, 6) =~= "panel-"@);
    lemma_escaped_charset(a);
    assert forall|i: int| 0 <= i < c.len() implies is_ascii_alphanumeric(#[trigger] c[i]) || c[i]
        == '-' by {
        if i >= 6 {
            assert(c[i] == css_escaped(a)[i - 6]);
        }
    }
    if spec_css_class(a) == spec_css_class(b) {
        assert(css_escaped(a) =~= spec_css_class(a).subrange(6, spec_css_class(a).len() as int));
        assert(css_escaped(b) =~= spec_css_class(b).subrange(6, spec_css_class(b).len() as int));
        lemma_escaped_injective(a, b);
    }
}

/// Starting an animation from more than [`SETTLED`] away never hides a shown
/// window: the panel stays on screen (an opening one is shown) while it
/// slides, keeps its reveal and open/closed state, and is hidden only by the
/// frame that lands a closing animation at 0.
pub proof fn law_starting_an_animation_keeps_window_shown(p: Panel)
    requires
        p.wf(),
        !p.settled(),
    ensures
        p.visible ==> p.animated().visible,
        p.is_open ==> p.animated().visible,
        p.animated().is_open == p.is_open,
        p.animated().animation == Some(target_of(p.is_open)),
        !p.is_open ==> p.animated().reveal == p.reveal && p.animated().visible == p.visible,
{
}

/// Only a settled closing panel is hidden by starting an animation.
pub proof fn law_animate_hides_only_when_settled_closed(p: Panel)
    requires
        p.wf(),
        p.visible,
        !p.animated().visible,
    ensures
        p.settled(),
        !p.is_open,
        p.animated().reveal == 0,
        p.animated().animation is None,
{
}

/// Toggling a shown drawer closed from afar, or applying a drag snap that
/// closes it, slides it back: the window stays shown and an animation
/// toward 0 starts.
pub proof fn law_closing_slides_back(p: Panel)
    requires
        p.wf(),
        p.visible,
    ensures
        p.is_open && p.reveal >= SETTLED ==> p.toggled().visible && p.toggled().animation == Some(
            0i64,
        ),
        p.drag_snap_pending == Some(false) && p.reveal >= SETTLED ==> p.pending_snap_applied().visible
            && p.pending_snap_applied().animation == Some(0i64),
{
}

/// Ending a gesture on a drawer that no gesture drives (such as the end of
/// a discrete swipe, which already toggled it) changes nothing: a running
/// animation goes on.
pub proof fn law_end_without_gesture_leaves_drawer(p: Panel)
    requires
        p.config.style == PanelStyle::Drawer,
        !p.gesture_active,
    ensures
        p.ended() == p,
        p.began(false).ended() == p.began(false),
{
}

/// A drag on a drawer sets its reveal to one whole minus the distance
/// dragged toward its edge over its size (in parts per million), clamped:
/// left for a left drawer, right for a right one, up for a top one and down
/// for a bottom one. Dragging away from the edge keeps it fully revealed
/// from there, and dragging its whole size toward the edge hides it.
pub proof fn law_drag_follows_the_edge(p: Panel, offset_x: int, offset_y: int)
    requires
        p.config.style == PanelStyle::Drawer,
        p.config.size > 0,
    ensures
        ({
            let size = p.config.size as int;
            let q = p.drag_moved(offset_x, offset_y);
            let toward = match p.config.edge {
                Edge::Left => -offset_x,
                Edge::Right => offset_x,
                Edge::Top => -offset_y,
                Edge::Bottom => offset_y,
            };
            &&& q.reveal == clamp_unit(FULL - div_toward_zero(toward, size))
            &&& toward <= 0 ==> q.reveal == FULL
            &&& toward >= size * FULL ==> q.reveal == 0
            &&& q.margin == margin_for(q.reveal as int, size) as i32
            &&& q.readout == Some(q.reveal)
            &&& q.is_open == p.is_open
        }),
        p.config.edge == Edge::Right && offset_x <= 0 ==> p.drag_moved(offset_x, offset_y).reveal
            == FULL,
        p.config.edge == Edge::Left && offset_x >= 0 ==> p.drag_moved(offset_x, offset_y).reveal
            == FULL,
        p.config.edge == Edge::Top && offset_y >= 0 ==> p.drag_moved(offset_x, offset_y).reveal
            == FULL,
        p.config.edge == Edge::Bottom && offset_y <= 0 ==> p.drag_moved(offset_x, offset_y).reveal
            == FULL,
{
    let size = p.config.size as int;
    let toward = match p.config.edge {
        Edge::Left => -offset_x,
        Edge::Right => offset_x,
        Edge::Top => -offset_y,
        Edge::Bottom => offset_y,
    };
    if toward >= size * FULL {
        assert(toward / size >= FULL) by (nonlinear_arith)
            requires
                size > 0,
                toward >= size * FULL,
                FULL > 0,
        ;
    }
    if toward <= 0 {
        assert((-toward) / size >= 0) by (nonlinear_arith)
            requires
                size > 0,
                toward <= 0,
        ;
    }
}

/// A gesture event becomes the message of the same kind with every field
/// unchanged: the tag, trigger, finger count and continuity of a begin, the
/// progress of a progress event, and the completion of an end.
pub proof fn law_event_message_keeps_fields(e: Event)
    ensures
        match e {
            Event::Begin { tag, trigger, finger_count, is_continuous } => spec_event_msg(e)
                matches GestureMsg::Begin {
                tag: t,
                trigger: g,
                finger_count: f,
                is_continuous: c,
            } && t == tag && g == trigger && f == finger_count && c == is_continuous,
            Event::Progress { tag, progress } => spec_event_msg(e) matches GestureMsg::Progress {
                tag: t,
                progress: q,
            } && t == tag && q == progress,
            Event::End { tag, completed } => spec_event_msg(e) matches GestureMsg::End {
                tag: t,
                completed: c,
            } && t == tag && c == completed,
        },
{
}

/// A zoned panel sits in a corner of its edge: Start and Center at the low
/// end of the axis along the edge (left for top and bottom edges, top for
/// left and right ones), End at the high end (right, respectively bottom),
/// opposite Start; its first side is always its own edge.
pub proof fn law_zone_corners(edge: Edge)
    ensures
        spec_anchor_corner(edge, Zone::Start).0 == side_of(edge),
        spec_anchor_corner(edge, Zone::End).0 == side_of(edge),
        edge == Edge::Top || edge == Edge::Bottom ==> spec_anchor_corner(edge, Zone::Start).1
            == Side::Left && spec_anchor_corner(edge, Zone::End).1 == Side::Right,
        edge == Edge::Left || edge == Edge::Right ==> spec_anchor_corner(edge, Zone::Start).1
            == Side::Top && spec_anchor_corner(edge, Zone::End).1 == Side::Bottom,
        spec_anchor_corner(edge, Zone::Center) == spec_anchor_corner(edge, Zone::Start),
        spec_anchor_corner(edge, Zone::End).1 != spec_anchor_corner(edge, Zone::Start).1,
        edge == Edge::Left ==> side_of(edge) == Side::Left,
        edge == Edge::Right ==> side_of(edge) == Side::Right,
        edge == Edge::Top ==> side_of(edge) == Side::Top,
        edge == Edge::Bottom ==> side_of(edge) == Side::Bottom,
{
}

/// Setting the reveal directly clamps it to `[0, FULL]` and keeps whether
/// the panel is open; a drawer slides to the matching margin and its readout
/// follows, a bar is shown and its readout follows.
pub proof fn law_set_reveal_clamps(p: Panel, fraction: int)
    ensures
        ({
            let q = p.with_reveal(fraction);
            &&& 0 <= fraction <= FULL ==> q.reveal == fraction
            &&& fraction < 0 ==> q.reveal == 0
            &&& fraction > FULL ==> q.reveal == FULL
            &&& q.readout == Some(q.reveal)
            &&& q.is_open == p.is_open
            &&& q.gesture_active == p.gesture_active
            &&& q.animation == p.animation
            &&& p.config.style == PanelStyle::Drawer ==> q.margin == margin_for(
                q.reveal as int,
                p.config.size as int,
            ) as i32 && q.visible == p.visible
            &&& p.config.style == PanelStyle::Bar ==> q.visible && q.margin == p.margin
        }),
{
}

/// While a gesture drives a panel, a closed panel is revealed by as much as
/// the gesture has progressed (either way, at most fully) and an open one by
/// the rest of the way.
pub proof fn law_progress_drives_reveal(p: Panel, progress: int)
    requires
        p.gesture_active,
        !p.drag_active,
    ensures
        ({
            let m = if progress < 0 { -progress } else { progress };
            let shown = if m > FULL { FULL as int } else { m };
            let q = p.progressed(progress);
            &&& !p.is_open ==> q.reveal == shown
            &&& p.is_open ==> q.reveal == FULL - shown
            &&& q.is_open == p.is_open
            &&& q.gesture_active
        }),
{
}

/// A new drawer starts open, fully revealed and shown exactly when it is
/// configured to start open, and otherwise closed, hidden and pushed off its
/// edge by its size; a new bar starts closed and hidden whatever its
/// configuration says. Nothing drives or animates a new panel.
pub proof fn law_new_panel_state(c: PanelConfig)
    ensures
        ({
            let p = initial_panel(c);
            &&& p.config == c
            &&& !p.gesture_active && !p.drag_active
            &&& p.drag_snap_pending is None && p.animation is None
            &&& c.style == PanelStyle::Drawer ==> p.is_open == c.start_open && p.visible
                == c.start_open && p.reveal == (if c.start_open { FULL } else { 0 }) && p.readout
                is None
            &&& c.style == PanelStyle::Drawer && c.start_open ==> p.margin == 0
            &&& c.style == PanelStyle::Drawer && !c.start_open && c.size != i32::MIN ==> p.margin
                == -c.size
            &&& c.style == PanelStyle::Bar ==> !p.is_open && !p.visible && p.reveal == 0
                && p.readout == Some(0i64)
        }),
{
}

/// A full-zone panel spans its whole edge: the monitor's width along a top
/// or bottom edge, its height along a left or right edge; any other zone
/// spans a third of it (rounded toward zero).
pub proof fn law_parallel_extent(edge: Edge, zone: Zone, mon_w: int, mon_h: int)
    requires
        mon_w >= 0,
        mon_h >= 0,
    ensures
        ({
            let along = if edge == Edge::Top || edge == Edge::Bottom { mon_w } else { mon_h };
            let e = spec_parallel_extent(edge, zone, mon_w, mon_h);
            &&& zone == Zone::Full ==> e == along
            &&& zone != Zone::Full ==> 3 * e <= along < 3 * e + 3
        }),
{
}

/// What the listener does with a line: blank lines, the successful reply
/// and other events are skipped; a refusal ends listening with a message
/// that starts with `Niri rejected EventStream: ` and ends with the reason;
/// a gesture event is forwarded, unchanged, exactly when its tag is one of
/// the listened-to tags.
pub proof fn law_route_line(tags: Seq<String>, line: IncomingLine, r: LineOutcome)
    requires
        routes_line(tags, line, r),
    ensures
        (line is Blank || line is ReplyOk || line is Other) ==> r is Skip,
        line matches IncomingLine::ReplyErr(reason) ==> r matches LineOutcome::Fail(m) && m@.len()
            == 27 + reason@.len() && m@.subrange(0, 27) == "Niri rejected EventStream: "@
            && m@.subrange(27, m@.len() as int) == reason@,
        line matches IncomingLine::Event(e) ==> ((r is Forward) <==> (exists|i: int|
            0 <= i < tags.len() && #[trigger] tags[i]@ == event_tag(e))),
        line matches IncomingLine::Event(e) ==> (r is Forward ==> r == LineOutcome::Forward(
            spec_event_msg(e),
        )),
{
    reveal_strlit("Niri rejected EventStream: ");
    match line {
        IncomingLine::ReplyErr(reason) => {
            let pre = "Niri rejected EventStream: "@;
            assert((pre + reason@).subrange(0, 27) =~= pre);
            assert((pre + reason@).subrange(27, (pre + reason@).len() as int) =~= reason@);
        },
        _ => {},
    }
}

} // verus!
