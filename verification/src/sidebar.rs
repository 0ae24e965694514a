//! All panels, keyed by their gesture tag, and how gesture messages reach them.

use vstd::prelude::*;

use crate::config::{Config, PanelConfig, PanelStyle};
use crate::ipc::GestureMsg;
use crate::panel::{initial_panel, Panel};

verus! {

/// The panels of the sidebar, at most one per tag.
pub struct Sidebar {
    pub panels: Vec<Panel>,
}

/// Whether panel `i` of `ps` has tag `tag`.
pub open spec fn tag_at(ps: Seq<Panel>, i: int, tag: Seq<char>) -> bool {
    0 <= i < ps.len() && ps[i].config.tag@ == tag
}

/// Whether some panel of `ps` has tag `tag`.
pub open spec fn has_tag(ps: Seq<Panel>, tag: Seq<char>) -> bool {
    exists|i: int| #[trigger] tag_at(ps, i, tag)
}

/// The position of the panel with tag `tag` (meaningful when there is one).
pub open spec fn index_of(ps: Seq<Panel>, tag: Seq<char>) -> int {
    choose|i: int| #[trigger] tag_at(ps, i, tag)
}

/// No two panels share a tag.
pub open spec fn distinct_tags(ps: Seq<Panel>) -> bool {
    forall|i: int, j: int|
        0 <= i < ps.len() && 0 <= j < ps.len() && i != j ==> #[trigger] ps[i].config.tag@
            != #[trigger] ps[j].config.tag@
}

/// Every panel is well formed and no two share a tag.
pub open spec fn panels_wf(ps: Seq<Panel>) -> bool {
    &&& forall|i: int| 0 <= i < ps.len() ==> #[trigger] ps[i].wf()
    &&& distinct_tags(ps)
}

/// `ps` with panel `p` put in: in place of the panel with the same tag if
/// there is one, and at the end otherwise.
pub open spec fn inserted(ps: Seq<Panel>, p: Panel) -> Seq<Panel> {
    if has_tag(ps, p.config.tag@) {
        ps.update(index_of(ps, p.config.tag@), p)
    } else {
        ps.push(p)
    }
}

/// The panels built from a list of panel configurations, each put in by
/// [`inserted`] in order (a later panel replaces an earlier one with the
/// same tag).
pub open spec fn built(configs: Seq<PanelConfig>) -> Seq<Panel>
    decreases configs.len(),
{
    if configs.len() == 0 {
        Seq::empty()
    } else {
        inserted(built(configs.drop_last()), initial_panel(configs.last()))
    }
}

/// `ps` with the panel tagged `tag`, if any, replaced by `f` of it.
pub open spec fn apply_to_tag(ps: Seq<Panel>, tag: Seq<char>, f: spec_fn(Panel) -> Panel) -> Seq<
    Panel,
> {
    if has_tag(ps, tag) {
        ps.update(index_of(ps, tag), f(ps[index_of(ps, tag)]))
    } else {
        ps
    }
}

/// The panels after a gesture message: a begin, progress or end message
/// acts on the panel with its tag (if any) and a disconnection changes
/// nothing.
pub open spec fn after_message(ps: Seq<Panel>, msg: GestureMsg) -> Seq<Panel> {
    match msg {
        GestureMsg::Begin { tag, is_continuous, .. } => apply_to_tag(
            ps,
            tag@,
            |p: Panel| p.began(is_continuous),
        ),
        GestureMsg::Progress { tag, progress } => apply_to_tag(
            ps,
            tag@,
            |p: Panel| p.progressed(progress as int),
        ),
        GestureMsg::End { tag, .. } => apply_to_tag(ps, tag@, |p: Panel| p.ended()),
        GestureMsg::Disconnected(_) => ps,
    }
}

/// Whether a gesture message can be carried out: a discrete gesture that
/// reopens a hidden drawer must be able to negate its size.
pub open spec fn message_safe(ps: Seq<Panel>, msg: GestureMsg) -> bool {
    match msg {
        GestureMsg::Begin { tag, is_continuous, .. } => has_tag(ps, tag@) ==> ps[index_of(
            ps,
            tag@,
        )].begin_safe(is_continuous),
        _ => true,
    }
}

/// Whether every pending drag snap can be carried out (see
/// [`Panel::pending_snap_safe`]).
pub open spec fn pending_snaps_safe(ps: Seq<Panel>) -> bool {
    forall|i: int| 0 <= i < ps.len() ==> #[trigger] ps[i].pending_snap_safe()
}

/// Whether a configured drawer starts hidden behind its negated size but
/// that size cannot be negated.
pub open spec fn config_unbuildable(c: PanelConfig) -> bool {
    c.style == PanelStyle::Drawer && !c.start_open && c.size == i32::MIN
}

/// With distinct tags, the panel tagged `tag` is the one at `index_of`.
pub proof fn lemma_index_of_unique(ps: Seq<Panel>, i: int, tag: Seq<char>)
    requires
        distinct_tags(ps),
        tag_at(ps, i, tag),
    ensures
        has_tag(ps, tag),
        index_of(ps, tag) == i,
{
    let j = index_of(ps, tag);
    assert(tag_at(ps, j, tag));
    if j != i {
        assert(ps[i].config.tag@ != ps[j].config.tag@);
    }
}

impl Sidebar {
    /// The sidebar's invariant (see [`panels_wf`]).
    pub open spec fn wf(self) -> bool {
        panels_wf(self.panels@)
    }

    /// A sidebar without panels.
    pub fn empty() -> (r: Sidebar)
        ensures
            r.panels@ == Seq::<Panel>::empty(),
            r.wf(),
    {
        Sidebar { panels: Vec::new() }
    }

    /// The position of the panel tagged `tag`, if there is one.
    pub fn find(&self, tag: &String) -> (r: Option<usize>)
        requires
            self.wf(),
        ensures
            r matches Some(i) ==> tag_at(self.panels@, i as int, tag@) && i == index_of(
                self.panels@,
                tag@,
            ),
            r is None ==> !has_tag(self.panels@, tag@),
    {
        let n = self.panels.len();
        for i in 0..n
            invariant
                n == self.panels@.len(),
                self.wf(),
                forall|j: int| 0 <= j < i ==> !#[trigger] tag_at(self.panels@, j, tag@),
        {
            if self.panels[i].config.tag == *tag {
                proof {
                    lemma_index_of_unique(self.panels@, i as int, tag@);
                }
                return Some(i);
            }
        }
        assert forall|j: int| !#[trigger] tag_at(self.panels@, j, tag@) by {}
        None
    }

    /// Put a panel in, replacing the panel with the same tag if there is
    /// one; returns its position.
    pub fn insert(&mut self, p: Panel) -> (r: usize)
        requires
            old(self).wf(),
            p.wf(),
        ensures
            final(self).panels@ == inserted(old(self).panels@, p),
            final(self).wf(),
            tag_at(final(self).panels@, r as int, p.config.tag@),
    {
        match self.find(&p.config.tag) {
            Some(i) => {
                self.panels.set(i, p);
                proof {
                    let ps = final(self).panels@;
                    assert forall|a: int, b: int|
                        0 <= a < ps.len() && 0 <= b < ps.len() && a != b implies #[trigger] ps[a].config.tag@
                            != #[trigger] ps[b].config.tag@ by {
                        let o = old(self).panels@;
                        if a != i && b != i {
                            assert(o[a].config.tag@ != o[b].config.tag@);
                        } else if a == i {
                            assert(o[i as int].config.tag@ != o[b].config.tag@);
                        } else {
                            assert(o[a].config.tag@ != o[i as int].config.tag@);
                        }
                    }
                }
                i
            },
            None => {
                let n = self.panels.len();
                self.panels.push(p);
                proof {
                    let ps = final(self).panels@;
                    let o = old(self).panels@;
                    assert forall|a: int, b: int|
                        0 <= a < ps.len() && 0 <= b < ps.len() && a != b implies #[trigger] ps[a].config.tag@
                            != #[trigger] ps[b].config.tag@ by {
                        if a == n as int {
                            assert(!tag_at(o, b, p.config.tag@));
                        } else if b == n as int {
                            assert(!tag_at(o, a, p.config.tag@));
                        } else {
                            assert(o[a].config.tag@ != o[b].config.tag@);
                        }
                    }
                }
                n
            },
        }
    }

    /// Create one panel per configured panel, keyed by tag (a later panel
    /// replaces an earlier one with the same tag).
    pub fn new(config: &Config) -> (r: Sidebar)
        requires
            forall|i: int|
                0 <= i < config.panel@.len() ==> !config_unbuildable(#[trigger] config.panel@[i]),
        ensures
            r.panels@ == built(config.panel@),
            r.wf(),
    {
        let mut s = Sidebar::empty();
        let n = config.panel.len();
        for k in 0..n
            invariant
                n == config.panel@.len(),
                s.wf(),
                s.panels@ == built(config.panel@.subrange(0, k as int)),
                forall|i: int|
                    0 <= i < config.panel@.len() ==> !config_unbuildable(#[trigger] config.panel@[i]),
        {
            let p = Panel::new(&config.panel[k]);
            s.insert(p);
            proof {
                let pre = config.panel@.subrange(0, k + 1);
                assert(pre.drop_last() == config.panel@.subrange(0, k as int));
                assert(pre.last() == config.panel@[k as int]);
            }
        }
        assert(config.panel@.subrange(0, n as int) == config.panel@);
        s
    }

    /// Deliver a gesture message to the panel with its tag (see [`after_message`]).
    pub fn handle_gesture_msg(&mut self, msg: &GestureMsg)
        requires
            old(self).wf(),
            message_safe(old(self).panels@, *msg),
        ensures
            final(self).panels@ == after_message(old(self).panels@, *msg),
            final(self).wf(),
    {
        match msg {
            GestureMsg::Begin { tag, is_continuous, .. } => {
                if let Some(i) = self.find(tag) {
                    self.panels[i].begin_gesture(*is_continuous);
                    proof {
                        self.lemma_update_keeps_wf(old(self).panels@, i as int);
                    }
                }
            },
            GestureMsg::Progress { tag, progress } => {
                if let Some(i) = self.find(tag) {
                    self.panels[i].gesture_progress(*progress);
                    proof {
                        self.lemma_update_keeps_wf(old(self).panels@, i as int);
                    }
                }
            },
            GestureMsg::End { tag, .. } => {
                if let Some(i) = self.find(tag) {
                    self.panels[i].end_gesture();
                    proof {
                        self.lemma_update_keeps_wf(old(self).panels@, i as int);
                    }
                }
            },
            GestureMsg::Disconnected(_) => {},
        }
    }

    /// Replacing one panel by a well-formed one with the same config keeps
    /// the sidebar well formed.
    proof fn lemma_update_keeps_wf(self, old_panels: Seq<Panel>, i: int)
        requires
            panels_wf(old_panels),
            0 <= i < old_panels.len(),
            self.panels@ == old_panels.update(i, self.panels@[i]),
            self.panels@[i].wf(),
            self.panels@[i].config == old_panels[i].config,
        ensures
            self.wf(),
    {
        let ps = self.panels@;
        assert forall|a: int, b: int|
            0 <= a < ps.len() && 0 <= b < ps.len() && a != b implies #[trigger] ps[a].config.tag@
                != #[trigger] ps[b].config.tag@ by {
            assert(old_panels[a].config.tag@ != old_panels[b].config.tag@);
        }
    }

    /// Carry out the snaps that drags left pending: every panel with one
    /// becomes open or closed as its drag decided and animates there.
    pub fn apply_pending_snaps(&mut self)
        requires
            old(self).wf(),
            pending_snaps_safe(old(self).panels@),
        ensures
            final(self).panels@.len() == old(self).panels@.len(),
            forall|i: int|
                0 <= i < old(self).panels@.len() ==> #[trigger] final(self).panels@[i] == old(
                    self,
                ).panels@[i].pending_snap_applied(),
            final(self).wf(),
    {
        let n = self.panels.len();
        for k in 0..n
            invariant
                n == self.panels@.len(),
                n == old(self).panels@.len(),
                self.wf(),
                forall|i: int| 0 <= i < k ==> #[trigger] self.panels@[i] == old(
                    self,
                ).panels@[i].pending_snap_applied(),
                forall|i: int| k <= i < n ==> #[trigger] self.panels@[i] == old(self).panels@[i],
                pending_snaps_safe(old(self).panels@),
        {
            let ghost before = self.panels@;
            self.panels[k].apply_pending_snap();
            proof {
                self.lemma_update_keeps_wf(before, k as int);
            }
        }
    }

    /// A local drag began on panel `i`.
    pub fn drag_begin(&mut self, i: usize)
        requires
            old(self).wf(),
            i < old(self).panels@.len(),
        ensures
            final(self).panels@ == old(self).panels@.update(
                i as int,
                old(self).panels@[i as int].drag_began(),
            ),
            final(self).wf(),
    {
        self.panels[i].drag_begin();
        proof {
            self.lemma_update_keeps_wf(old(self).panels@, i as int);
        }
    }

    /// A local drag on panel `i` moved to `(offset_x, offset_y)`, in
    /// millionths of a pixel.
    pub fn drag_update(&mut self, i: usize, offset_x: i64, offset_y: i64)
        requires
            old(self).wf(),
            i < old(self).panels@.len(),
        ensures
            final(self).panels@ == old(self).panels@.update(
                i as int,
                old(self).panels@[i as int].drag_moved(offset_x as int, offset_y as int),
            ),
            final(self).wf(),
    {
        self.panels[i].drag_update(offset_x, offset_y);
        proof {
            self.lemma_update_keeps_wf(old(self).panels@, i as int);
        }
    }

    /// A local drag on panel `i` ended.
    pub fn drag_end(&mut self, i: usize)
        requires
            old(self).wf(),
            i < old(self).panels@.len(),
        ensures
            final(self).panels@ == old(self).panels@.update(
                i as int,
                old(self).panels@[i as int].drag_ended(),
            ),
            final(self).wf(),
    {
        self.panels[i].drag_end();
        proof {
            self.lemma_update_keeps_wf(old(self).panels@, i as int);
        }
    }

    /// One animation frame of panel `i`.
    pub fn animation_tick(&mut self, i: usize)
        requires
            old(self).wf(),
            i < old(self).panels@.len(),
        ensures
            final(self).panels@ == old(self).panels@.update(
                i as int,
                old(self).panels@[i as int].ticked(),
            ),
            final(self).wf(),
    {
        self.panels[i].animation_tick();
        proof {
            self.lemma_update_keeps_wf(old(self).panels@, i as int);
        }
    }

    /// Whether delivering `msg` would overflow negating a drawer's size
    /// (see [`message_safe`]).
    pub fn message_overflows(&self, msg: &GestureMsg) -> (r: bool)
        requires
            self.wf(),
        ensures
            r == !message_safe(self.panels@, *msg),
    {
        match msg {
            GestureMsg::Begin { tag, is_continuous, .. } => match self.find(tag) {
                Some(i) => self.panels[i].begin_overflows(*is_continuous),
                None => false,
            },
            _ => false,
        }
    }

    /// Whether applying the pending drag snaps would overflow negating a
    /// drawer's size (see [`pending_snaps_safe`]).
    pub fn pending_snaps_overflow(&self) -> (r: bool)
        requires
            self.wf(),
        ensures
            r == !pending_snaps_safe(self.panels@),
    {
        let n = self.panels.len();
        for k in 0..n
            invariant
                n == self.panels@.len(),
                self.wf(),
                forall|i: int| 0 <= i < k ==> #[trigger] self.panels@[i].pending_snap_safe(),
        {
            if self.panels[k].pending_snap_overflows() {
                return true;
            }
        }
        false
    }
}

} // verus!
