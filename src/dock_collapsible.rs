//! A collapsible panel on one edge: configuration, the once-only restore of stored state,
//! the per-frame plan (extent, resize rule, content), reconciliation of the realized
//! extent, and the decision to write state back.
//!
//! One frame runs: `restore` (first frame only) → `plan_frame` → draw → `reconcile_extent`
//! → `finish_frame`, whose result says whether to write `collapsible_state` to the store.
use vstd::prelude::*;

use crate::animation::{
    content_at, extent_at, content_for_progress, interpolated_extent, PanelContent,
    PROGRESS_SCALE, SNAP_EXPANDED_ABOVE,
};
use crate::button::{icon_for, ButtonIcon, CollapsibleButton};
use crate::side::PanelSide;
use crate::state::{
    clamp_to_max, default_dock_state, default_expanded_size, default_expanded_size_for,
    CollapsibleDockState, PanelState, DEFAULT_SIZE, SIZE_FLOOR,
};

verus! {

/// A realized extent within this many points of the stored one is taken as noise.
pub const RESIZE_HYSTERESIS: u32 = 5;

/// The expanded extent used for drawing: the stored one, or the substitute for a
/// stored one below `SIZE_FLOOR`.
pub open spec fn validated_size(size: int, min_size: int) -> int {
    if size < SIZE_FLOOR as int {
        default_expanded_size(min_size)
    } else {
        size
    }
}

/// `validated_size(size, min_size)`.
pub fn validated_size_for(size: u32, min_size: u32) -> (r: u32)
    ensures
        r as int == validated_size(size as int, min_size as int),
        r >= SIZE_FLOOR,
{
    if size < SIZE_FLOOR {
        default_expanded_size_for(min_size)
    } else {
        size
    }
}

/// What the host draws in one frame.
#[derive(Clone, Copy, Debug, PartialEq, Eq, Structural)]
pub struct FramePlan {
    pub side: PanelSide,
    /// The collapse flag the frame was planned with.
    pub collapsed: bool,
    /// Animation progress, `0..=PROGRESS_SCALE`.
    pub progress: u32,
    /// Whether the user may drag the region's edge this frame.
    pub resizable: bool,
    pub min_extent: u32,
    /// `None` leaves the region unbounded.
    pub max_extent: Option<u32>,
    pub default_extent: u32,
    pub content: PanelContent,
}

pub open spec fn region_name(side: PanelSide, collapsed: bool) -> Seq<char> {
    match side {
        PanelSide::Left => if collapsed {
            "left_collapsed"@
        } else {
            "left_expanded"@
        },
        PanelSide::Right => if collapsed {
            "right_collapsed"@
        } else {
            "right_expanded"@
        },
        PanelSide::Top => if collapsed {
            "top_collapsed"@
        } else {
            "top_expanded"@
        },
        PanelSide::Bottom => if collapsed {
            "bottom_collapsed"@
        } else {
            "bottom_expanded"@
        },
    }
}

pub open spec fn animation_name(side: PanelSide) -> Seq<char> {
    match side {
        PanelSide::Left => "left_animation"@,
        PanelSide::Right => "right_animation"@,
        PanelSide::Top => "top_animation"@,
        PanelSide::Bottom => "bottom_animation"@,
    }
}

impl FramePlan {
    /// The key of the drawn region under the panel's identifier. Collapsed and expanded
    /// frames use different keys, so that no drag state of one carries into the other.
    pub fn region_key(&self) -> (r: &'static str)
        ensures
            r@ == region_name(self.side, self.collapsed),
    {
        match self.side {
            PanelSide::Left => if self.collapsed {
                "left_collapsed"
            } else {
                "left_expanded"
            },
            PanelSide::Right => if self.collapsed {
                "right_collapsed"
            } else {
                "right_expanded"
            },
            PanelSide::Top => if self.collapsed {
                "top_collapsed"
            } else {
                "top_expanded"
            },
            PanelSide::Bottom => if self.collapsed {
                "bottom_collapsed"
            } else {
                "bottom_expanded"
            },
        }
    }
}

/// The collapsed and the expanded region of one side never share a key.
pub proof fn lemma_region_names_differ(side: PanelSide)
    ensures
        region_name(side, true) != region_name(side, false),
{
    match side {
        PanelSide::Left => {
            reveal_strlit("left_collapsed");
            reveal_strlit("left_expanded");
            assert(region_name(side, true).len() != region_name(side, false).len());
        },
        PanelSide::Right => {
            reveal_strlit("right_collapsed");
            reveal_strlit("right_expanded");
            assert(region_name(side, true).len() != region_name(side, false).len());
        },
        PanelSide::Top => {
            reveal_strlit("top_collapsed");
            reveal_strlit("top_expanded");
            assert(region_name(side, true).len() != region_name(side, false).len());
        },
        PanelSide::Bottom => {
            reveal_strlit("bottom_collapsed");
            reveal_strlit("bottom_expanded");
            assert(region_name(side, true).len() != region_name(side, false).len());
        },
    }
}

/// One entry of the collapsed icon strip.
#[derive(Clone, Debug)]
pub struct StripEntry {
    /// Position of the button among the panel's buttons.
    pub index: usize,
    pub icon: ButtonIcon,
    pub hover_text: String,
    /// Whether the entry is marked as the active one (only on the vertical strips of
    /// left and right panels).
    pub active: bool,
    /// The button's own `selected` flag; the horizontal strips of top and bottom panels
    /// highlight a selected vector-icon button.
    pub selected: bool,
}

/// The state of a panel, as contracts see it.
#[verifier::reject_recursive_types(Tab)]
pub struct PanelModel<Tab> {
    pub side: PanelSide,
    pub dock_state: egui_dock::DockState<Tab>,
    pub state: CollapsibleDockState,
    pub state_id: egui::Id,
    pub frame: Option<egui::Frame>,
    pub buttons: Seq<CollapsibleButton>,
    pub previous_collapsed: bool,
    pub state_loaded: bool,
    pub active_button: Option<usize>,
    /// Set by the restore, until the next write-back decision.
    pub save_pending: bool,
}

impl<Tab> PanelModel<Tab> {
    /// The state of this panel's own side.
    pub open spec fn panel(self) -> PanelState {
        self.state.panel(self.side)
    }

    pub open spec fn is_collapsed(self) -> bool {
        self.panel().collapsed
    }

    pub open spec fn size(self) -> int {
        self.panel().size as int
    }

    pub open spec fn with_panel(self, p: PanelState) -> PanelModel<Tab> {
        PanelModel { state: self.state.with_panel(self.side, p), ..self }
    }

    pub open spec fn with_collapsed(self, collapsed: bool) -> PanelModel<Tab> {
        self.with_panel(self.panel().with_collapsed(collapsed))
    }

    pub open spec fn toggled(self) -> PanelModel<Tab> {
        self.with_collapsed(!self.is_collapsed())
    }

    pub open spec fn with_size(self, requested: int) -> PanelModel<Tab> {
        self.with_panel(self.panel().with_requested_size(requested))
    }

    /// A configured minimum; an extent below one and a half times it is replaced
    /// by `default_expanded_size`.
    pub open spec fn with_min(self, min_size: u32) -> PanelModel<Tab> {
        let p = self.panel();
        let size = if 2 * (p.size as int) < 3 * (min_size as int) {
            default_expanded_size(min_size as int) as u32
        } else {
            p.size
        };
        self.with_panel(PanelState { min_size: min_size, size: size, ..p })
    }

    /// The first frame takes the collapse flag and extent of this side from `stored`;
    /// an implausible extent is replaced by `default_expanded_size`. Later frames
    /// keep what is in memory.
    pub open spec fn restored(self, stored: CollapsibleDockState) -> PanelModel<Tab> {
        if self.state_loaded {
            self
        } else {
            let s = stored.panel(self.side);
            let p = self.panel();
            let size = if s.size >= SIZE_FLOOR {
                s.size
            } else {
                default_expanded_size(p.min_size as int) as u32
            };
            PanelModel {
                previous_collapsed: s.collapsed,
                state_loaded: true,
                save_pending: true,
                ..self.with_panel(PanelState { collapsed: s.collapsed, size: size, ..p })
            }
        }
    }

    /// Nothing is drawn for a collapsed panel without buttons.
    pub open spec fn is_drawn(self) -> bool {
        !(self.is_collapsed() && self.buttons.len() == 0)
    }

    /// The plan of a frame at progress `p`: while the panel is fully expanded, not
    /// collapsed and resizable, the region spans `[min_size, max_size]` from the saved
    /// extent; otherwise it is pinned to the interpolated extent.
    pub open spec fn plan(self, p: int) -> FramePlan {
        let ps = self.panel();
        let saved = validated_size(ps.size as int, ps.min_size as int);
        let resizable = !ps.collapsed && ps.resizable && p > SNAP_EXPANDED_ABOVE as int;
        let extent = extent_at(p, saved) as u32;
        FramePlan {
            side: self.side,
            collapsed: ps.collapsed,
            progress: p as u32,
            resizable: resizable,
            min_extent: if resizable {
                ps.min_size
            } else {
                extent
            },
            max_extent: if resizable {
                ps.max_size
            } else {
                Some(extent)
            },
            default_extent: if resizable {
                saved as u32
            } else {
                extent
            },
            content: content_at(p),
        }
    }

    /// After a frame planned with `collapsed`, a realized extent that differs from the
    /// stored one by more than `RESIZE_HYSTERESIS` is stored (as `set_panel_size`
    /// stores it); a collapsed frame or a smaller difference changes nothing.
    pub open spec fn reconciled(self, collapsed: bool, realized: int) -> PanelModel<Tab> {
        let diff = if realized >= self.size() {
            realized - self.size()
        } else {
            self.size() - realized
        };
        if !collapsed && diff > RESIZE_HYSTERESIS as int {
            self.with_size(realized)
        } else {
            self
        }
    }

    /// State is written back when persistence is on and the frame restored it or the
    /// collapse flag changed since the last frame.
    pub open spec fn persist_due(self) -> bool {
        self.state.persist_state && (self.save_pending || self.is_collapsed()
            != self.previous_collapsed)
    }

    pub open spec fn finished(self) -> PanelModel<Tab> {
        PanelModel { previous_collapsed: self.is_collapsed(), save_pending: false, ..self }
    }

    /// A click on strip button `i` expands the panel and makes `i` the active button.
    pub open spec fn activated(self, i: int) -> PanelModel<Tab> {
        if 0 <= i < self.buttons.len() {
            PanelModel { active_button: Some(i as usize), ..self.with_collapsed(false) }
        } else {
            self
        }
    }

    /// Strip entry `i` shows button `i`.
    pub open spec fn strip_entry_ok(self, e: StripEntry, i: int) -> bool {
        let b = self.buttons[i];
        &&& e.index == i
        &&& e.icon == icon_for(b.icon, b.text@, self.side.is_vertical_spec())
        &&& e.hover_text@ == b.hover_text_spec()
        &&& e.active == (self.side.is_vertical_spec() && !self.is_collapsed() && self.active_button
            == Some(i as usize))
        &&& e.selected == b.selected
    }
}

/// A panel docked to one edge that collapses to an icon strip.
#[verifier::reject_recursive_types(Tab)]
pub struct CollapsibleDockPanel<Tab> {
    side: PanelSide,
    dock_state: egui_dock::DockState<Tab>,
    collapsible_state: CollapsibleDockState,
    state_id: egui::Id,
    frame: Option<egui::Frame>,
    buttons: Vec<CollapsibleButton>,
    previous_collapsed: bool,
    state_loaded: bool,
    active_button_index: Option<usize>,
    save_pending: bool,
}

impl<Tab> View for CollapsibleDockPanel<Tab> {
    type V = PanelModel<Tab>;

    closed spec fn view(&self) -> PanelModel<Tab> {
        PanelModel {
            side: self.side,
            dock_state: self.dock_state,
            state: self.collapsible_state,
            state_id: self.state_id,
            frame: self.frame,
            buttons: self.buttons@,
            previous_collapsed: self.previous_collapsed,
            state_loaded: self.state_loaded,
            active_button: self.active_button_index,
            save_pending: self.save_pending,
        }
    }
}

impl<Tab> CollapsibleDockPanel<Tab> {
    /// A panel on `side` with default state, no tabs and no buttons; the first button
    /// counts as active.
    pub fn new(side: PanelSide, state_id: egui::Id) -> (r: CollapsibleDockPanel<Tab>)
        ensures
            r@.side == side,
            r@.state_id == state_id,
            r@.state == default_dock_state(),
            r@.frame.is_none(),
            r@.buttons.len() == 0,
            !r@.previous_collapsed,
            !r@.state_loaded,
            r@.active_button == Some(0usize),
            !r@.save_pending,
    {
        CollapsibleDockPanel {
            side,
            dock_state: egui_dock::DockState::new(Vec::new()),
            collapsible_state: CollapsibleDockState::new(),
            state_id,
            frame: None,
            buttons: Vec::new(),
            previous_collapsed: false,
            state_loaded: false,
            active_button_index: Some(0),
            save_pending: false,
        }
    }

    pub fn with_dock_state(self, dock_state: egui_dock::DockState<Tab>) -> (r: CollapsibleDockPanel<Tab>)
        ensures
            r@ == (PanelModel { dock_state: dock_state, ..self@ }),
    {
        let mut p = self;
        p.dock_state = dock_state;
        p
    }

    pub fn with_frame(self, frame: egui::Frame) -> (r: CollapsibleDockPanel<Tab>)
        ensures
            r@ == (PanelModel { frame: Some(frame), ..self@ }),
    {
        let mut p = self;
        p.frame = Some(frame);
        p
    }

    /// Appends a strip button; buttons keep the order in which they were added.
    pub fn add_button(self, button: CollapsibleButton) -> (r: CollapsibleDockPanel<Tab>)
        ensures
            r@ == (PanelModel { buttons: self@.buttons.push(button), ..self@ }),
    {
        let mut p = self;
        p.buttons.push(button);
        p
    }

    pub fn with_min_size(self, min_size: u32) -> (r: CollapsibleDockPanel<Tab>)
        ensures
            r@ == self@.with_min(min_size),
    {
        let mut p = self;
        let mut ps = p.collapsible_state.panel_state(p.side);
        ps.min_size = min_size;
        if 2 * (ps.size as u64) < 3 * (min_size as u64) {
            ps.size = default_expanded_size_for(min_size);
        }
        p.collapsible_state.set_panel_state(p.side, ps);
        p
    }

    pub fn with_max_size(self, max_size: u32) -> (r: CollapsibleDockPanel<Tab>)
        ensures
            r@ == self@.with_panel(PanelState { max_size: Some(max_size), ..self@.panel() }),
    {
        let mut p = self;
        let mut ps = p.collapsible_state.panel_state(p.side);
        ps.max_size = Some(max_size);
        p.collapsible_state.set_panel_state(p.side, ps);
        p
    }

    pub fn resizable(self, resizable: bool) -> (r: CollapsibleDockPanel<Tab>)
        ensures
            r@ == self@.with_panel(PanelState { resizable: resizable, ..self@.panel() }),
    {
        let mut p = self;
        let mut ps = p.collapsible_state.panel_state(p.side);
        ps.resizable = resizable;
        p.collapsible_state.set_panel_state(p.side, ps);
        p
    }

    pub fn is_collapsed(&self) -> (r: bool)
        ensures
            r == self@.is_collapsed(),
    {
        self.collapsible_state.is_panel_collapsed(self.side)
    }

    pub fn toggle(&mut self)
        ensures
            final(self)@ == old(self)@.toggled(),
    {
        self.collapsible_state.toggle_panel(self.side);
    }

    pub fn set_collapsed(&mut self, collapsed: bool)
        ensures
            final(self)@ == old(self)@.with_collapsed(collapsed),
    {
        self.collapsible_state.set_panel_collapsed(self.side, collapsed);
    }

    pub fn get_size(&self) -> (r: u32)
        ensures
            r as int == self@.size(),
    {
        self.collapsible_state.get_panel_size(self.side)
    }

    pub fn set_size(&mut self, size: u32)
        ensures
            final(self)@ == old(self)@.with_size(size as int),
    {
        self.collapsible_state.set_panel_size(self.side, size);
    }

    /// Makes button `index` the active one; an index past the last button is ignored.
    pub fn set_active_button(&mut self, index: usize)
        ensures
            index < old(self)@.buttons.len() ==> final(self)@ == (PanelModel {
                active_button: Some(index),
                ..old(self)@
            }),
            index >= old(self)@.buttons.len() ==> final(self)@ == old(self)@,
    {
        if index < self.buttons.len() {
            self.active_button_index = Some(index);
        }
    }

    pub fn get_active_button(&self) -> (r: Option<usize>)
        ensures
            r == self@.active_button,
    {
        self.active_button_index
    }

    pub fn side(&self) -> (r: PanelSide)
        ensures
            r == self@.side,
    {
        self.side
    }

    pub fn state_id(&self) -> (r: egui::Id)
        ensures
            r == self@.state_id,
    {
        self.state_id
    }

    pub fn frame(&self) -> (r: Option<egui::Frame>)
        ensures
            r == self@.frame,
    {
        self.frame
    }

    /// The aggregate written to the store.
    pub fn collapsible_state(&self) -> (r: CollapsibleDockState)
        ensures
            r == self@.state,
    {
        self.collapsible_state
    }

    pub fn dock_state_mut(&mut self) -> (r: &mut egui_dock::DockState<Tab>)
        ensures
            *r == old(self)@.dock_state,
            final(self)@ == (PanelModel { dock_state: *final(r), ..old(self)@ }),
    {
        &mut self.dock_state
    }

    /// Whether the stored state is still to be read (before the first frame).
    pub fn needs_restore(&self) -> (r: bool)
        ensures
            r == !self@.state_loaded,
    {
        !self.state_loaded
    }

    /// Takes this side's collapse flag and extent from `stored`, on the first call only.
    /// The result says whether a stored extent below `SIZE_FLOOR` was replaced, so that
    /// the host can report it.
    pub fn restore(&mut self, stored: &CollapsibleDockState) -> (replaced: bool)
        ensures
            final(self)@ == old(self)@.restored(*stored),
            replaced == (!old(self)@.state_loaded && stored.panel(old(self)@.side).size
                < SIZE_FLOOR),
    {
        if self.state_loaded {
            return false;
        }
        let s = stored.panel_state(self.side);
        let mut p = self.collapsible_state.panel_state(self.side);
        p.collapsed = s.collapsed;
        if s.size >= SIZE_FLOOR {
            p.size = s.size;
        } else {
            p.size = default_expanded_size_for(p.min_size);
        }
        self.collapsible_state.set_panel_state(self.side, p);
        self.previous_collapsed = s.collapsed;
        self.state_loaded = true;
        self.save_pending = true;
        s.size < SIZE_FLOOR
    }

    /// Whether anything is drawn this frame.
    pub fn is_drawn(&self) -> (r: bool)
        ensures
            r == self@.is_drawn(),
    {
        !(self.is_collapsed() && self.buttons.len() == 0)
    }

    /// The progress the animation heads for: `0` when collapsed, `PROGRESS_SCALE` when not.
    pub fn target_progress(&self) -> (r: u32)
        ensures
            r == (if self@.is_collapsed() {
                0
            } else {
                PROGRESS_SCALE
            }),
    {
        if self.is_collapsed() {
            0
        } else {
            PROGRESS_SCALE
        }
    }

    /// The key of this side's animator under the panel's identifier.
    pub fn animation_key(&self) -> (r: &'static str)
        ensures
            r@ == animation_name(self@.side),
    {
        match self.side {
            PanelSide::Left => "left_animation",
            PanelSide::Right => "right_animation",
            PanelSide::Top => "top_animation",
            PanelSide::Bottom => "bottom_animation",
        }
    }

    /// What to draw at animation progress `progress`.
    pub fn plan_frame(&self, progress: u32) -> (r: FramePlan)
        requires
            progress <= PROGRESS_SCALE,
        ensures
            r == self@.plan(progress as int),
    {
        let ps = self.collapsible_state.panel_state(self.side);
        let saved = validated_size_for(ps.size, ps.min_size);
        let resizable = !ps.collapsed && ps.resizable && progress > SNAP_EXPANDED_ABOVE;
        let extent = interpolated_extent(progress, saved);
        FramePlan {
            side: self.side,
            collapsed: ps.collapsed,
            progress,
            resizable,
            min_extent: if resizable {
                ps.min_size
            } else {
                extent
            },
            max_extent: if resizable {
                ps.max_size
            } else {
                Some(extent)
            },
            default_extent: if resizable {
                saved
            } else {
                extent
            },
            content: content_for_progress(progress),
        }
    }

    /// Stores the realized extent of a frame drawn by `plan` where the user resized it.
    pub fn reconcile_extent(&mut self, plan: &FramePlan, realized: u32)
        ensures
            final(self)@ == old(self)@.reconciled(plan.collapsed, realized as int),
    {
        if plan.collapsed {
            return;
        }
        let current = self.get_size();
        let diff: u32 = if realized >= current {
            realized - current
        } else {
            current - realized
        };
        if diff > RESIZE_HYSTERESIS {
            self.collapsible_state.set_panel_size(self.side, realized);
        }
    }

    /// Ends a frame; the result says whether to write `collapsible_state` to the store.
    pub fn finish_frame(&mut self) -> (save: bool)
        ensures
            save == old(self)@.persist_due(),
            final(self)@ == old(self)@.finished(),
    {
        let collapsed = self.is_collapsed();
        let save = self.collapsible_state.persist_state && (self.save_pending || collapsed
            != self.previous_collapsed);
        self.previous_collapsed = collapsed;
        self.save_pending = false;
        save
    }

    /// A click on strip button `index`: expands the panel and makes the button active.
    pub fn activate_button(&mut self, index: usize)
        ensures
            final(self)@ == old(self)@.activated(index as int),
    {
        if index < self.buttons.len() {
            self.set_collapsed(false);
            self.active_button_index = Some(index);
        }
    }

    /// The entries of the collapsed icon strip, one per button, in the order the
    /// buttons were added.
    pub fn strip_entries(&self) -> (r: Vec<StripEntry>)
        ensures
            r@.len() == self@.buttons.len(),
            forall|i: int| 0 <= i < r@.len() ==> self@.strip_entry_ok(#[trigger] r@[i], i),
    {
        let collapsed = self.is_collapsed();
        let vertical = self.side.is_vertical();
        let mut out: Vec<StripEntry> = Vec::new();
        let mut i: usize = 0;
        while i < self.buttons.len()
            invariant
                i <= self.buttons@.len(),
                out@.len() == i,
                collapsed == self@.is_collapsed(),
                vertical == self@.side.is_vertical_spec(),
                forall|j: int| 0 <= j < i ==> self@.strip_entry_ok(#[trigger] out@[j], j),
            decreases self.buttons@.len() - i,
        {
            let b = &self.buttons[i];
            let active = vertical && !collapsed && match self.active_button_index {
                Some(a) => a == i,
                None => false,
            };
            out.push(
                StripEntry {
                    index: i,
                    icon: b.icon(self.side),
                    hover_text: b.hover_text(),
                    active,
                    selected: b.selected,
                },
            );
            i += 1;
        }
        out
    }
}

/// Toggling twice gives back the collapse flag, and the whole panel state.
pub proof fn lemma_toggle_twice<Tab>(m: PanelModel<Tab>)
    ensures
        m.toggled().toggled().is_collapsed() == m.is_collapsed(),
        m.toggled().toggled() == m,
{
}

/// Collapsing and expanding never change the stored extent.
pub proof fn lemma_toggle_keeps_size<Tab>(m: PanelModel<Tab>, collapsed: bool)
    ensures
        m.toggled().size() == m.size(),
        m.with_collapsed(collapsed).size() == m.size(),
{
}

/// `set_size(s); get_size()` gives `s` lowered to the maximum, if any; there is no
/// lower clamp, neither to the minimum nor to `SIZE_FLOOR`.
pub proof fn lemma_set_size_then_get<Tab>(m: PanelModel<Tab>, size: u32)
    ensures
        m.with_size(size as int).size() == clamp_to_max(size as int, m.panel().max_size),
        m.panel().max_size.is_none() ==> m.with_size(size as int).size() == size,
{
}

/// A stored extent below `SIZE_FLOOR` is not taken over on the first frame: the panel
/// gets `default_expanded_size`, which is at least `DEFAULT_SIZE` and at least twice the
/// minimum (up to `u32::MAX`).
pub proof fn lemma_restore_replaces_implausible<Tab>(m: PanelModel<Tab>, stored: CollapsibleDockState)
    requires
        !m.state_loaded,
        stored.panel(m.side).size < SIZE_FLOOR,
    ensures
        m.restored(stored).size() == default_expanded_size(m.panel().min_size as int),
        m.restored(stored).size() >= DEFAULT_SIZE,
        m.restored(stored).size() >= 2 * m.panel().min_size || m.restored(stored).size()
            == u32::MAX,
        m.restored(stored).size() != stored.panel(m.side).size,
{
}

/// After an expanded frame, a realized extent within `RESIZE_HYSTERESIS` of the stored
/// one leaves the state as it was; one further away is stored, lowered to the maximum if
/// any. Where it is within the maximum, the stored extent becomes exactly that extent and
/// so changes.
pub proof fn lemma_reconcile_hysteresis<Tab>(m: PanelModel<Tab>, realized: u32)
    ensures
        realized as int - m.size() <= RESIZE_HYSTERESIS as int && m.size() - realized as int
            <= RESIZE_HYSTERESIS as int ==> m.reconciled(false, realized as int) == m,
        realized as int - m.size() > RESIZE_HYSTERESIS as int || m.size() - realized as int
            > RESIZE_HYSTERESIS as int ==> m.reconciled(false, realized as int) == m.with_size(
            realized as int,
        ),
        (realized as int - m.size() > RESIZE_HYSTERESIS as int || m.size() - realized as int
            > RESIZE_HYSTERESIS as int) ==> m.reconciled(false, realized as int).size()
            == clamp_to_max(realized as int, m.panel().max_size),
        (realized as int - m.size() > RESIZE_HYSTERESIS as int || m.size() - realized as int
            > RESIZE_HYSTERESIS as int) && clamp_to_max(
            realized as int,
            m.panel().max_size,
        ) == realized ==> m.reconciled(false, realized as int).size() == realized
            && m.reconciled(false, realized as int).size() != m.size(),
        m.reconciled(true, realized as int) == m,
{
}

/// A step of the frame loop, as far as the stored extent is concerned.
pub enum PanelEvent {
    /// `toggle` between frames.
    Toggle,
    /// A frame planned with the given collapse flag whose region was realized at the
    /// given extent: `reconcile_extent`, then `finish_frame`.
    Frame(bool, u32),
}

pub open spec fn after_event<Tab>(m: PanelModel<Tab>, e: PanelEvent) -> PanelModel<Tab> {
    match e {
        PanelEvent::Toggle => m.toggled(),
        PanelEvent::Frame(collapsed, realized) => m.reconciled(collapsed, realized as int).finished(),
    }
}

pub open spec fn after_events<Tab>(m: PanelModel<Tab>, events: Seq<PanelEvent>) -> PanelModel<Tab>
    decreases events.len(),
{
    if events.len() == 0 {
        m
    } else {
        after_events(after_event(m, events[0]), events.drop_first())
    }
}

/// How many toggles a run holds.
pub open spec fn toggle_count(events: Seq<PanelEvent>) -> nat
    decreases events.len(),
{
    if events.len() == 0 {
        0
    } else {
        (if events[0] is Toggle {
            1nat
        } else {
            0nat
        }) + toggle_count(events.drop_first())
    }
}

/// Any run of toggles and frames in which no frame is resized (every realized extent
/// within `RESIZE_HYSTERESIS` of the stored one) leaves the stored extent unchanged, and
/// leaves the panel collapsed exactly when it was collapsed before an even number of
/// toggles (frames never change the flag).
pub proof fn lemma_toggles_without_resize_keep_size<Tab>(m: PanelModel<Tab>, events: Seq<PanelEvent>)
    requires
        forall|i: int|
            0 <= i < events.len() ==> match #[trigger] events[i] {
                PanelEvent::Toggle => true,
                PanelEvent::Frame(_, realized) => realized as int - m.size()
                    <= RESIZE_HYSTERESIS as int && m.size() - realized as int
                    <= RESIZE_HYSTERESIS as int,
            },
    ensures
        after_events(m, events).size() == m.size(),
        after_events(m, events).is_collapsed() == (m.is_collapsed() != (toggle_count(events) % 2
            == 1)),
    decreases events.len(),
{
    if events.len() > 0 {
        let next = after_event(m, events[0]);
        assert(next.size() == m.size());
        let rest = events.drop_first();
        assert forall|i: int| 0 <= i < rest.len() implies match #[trigger] rest[i] {
            PanelEvent::Toggle => true,
            PanelEvent::Frame(_, realized) => realized as int - next.size()
                <= RESIZE_HYSTERESIS as int && next.size() - realized as int
                <= RESIZE_HYSTERESIS as int,
        } by {
            assert(rest[i] == events[i + 1]);
        }
        lemma_toggles_without_resize_keep_size(next, rest);
    }
}

} // verus!
