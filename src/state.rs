//! Per-side panel state and the aggregate of all four sides.
use vstd::prelude::*;

use crate::side::PanelSide;

verus! {

/// Extent of a panel that was never sized, in points.
pub const DEFAULT_SIZE: u32 = 300;

/// Minimum extent of a panel that was never configured, in points.
pub const DEFAULT_MIN_SIZE: u32 = 150;

/// A loaded or drawn expanded extent below this is implausible and is replaced.
pub const SIZE_FLOOR: u32 = 100;

/// Version of the stored layout of `CollapsibleDockState`; state stored under another
/// version is not taken over.
pub const STORED_LAYOUT_VERSION: u32 = 1;

/// Nominal duration of the collapse/expand animation, in milliseconds.
pub const DEFAULT_ANIMATION_MS: u32 = 200;

/// The collapse flag and extents of the panel on one side.
#[derive(Clone, Copy, Debug, PartialEq, Eq, Structural)]
pub struct PanelState {
    /// Whether the panel is collapsed to its icon strip.
    pub collapsed: bool,
    /// Extent of the expanded panel along its resize axis, in points.
    pub size: u32,
    /// Smallest extent a user may drag the expanded panel to.
    pub min_size: u32,
    /// Largest extent of the panel, if bounded.
    pub max_size: Option<u32>,
    /// Whether the user may drag-resize the expanded panel.
    pub resizable: bool,
}

pub open spec fn default_panel_state() -> PanelState {
    PanelState {
        collapsed: false,
        size: DEFAULT_SIZE,
        min_size: DEFAULT_MIN_SIZE,
        max_size: None,
        resizable: true,
    }
}

/// `value`, lowered to `max` where there is one.
pub open spec fn clamp_to_max(value: int, max: Option<u32>) -> int {
    match max {
        Some(m) => if value > m as int {
            m as int
        } else {
            value
        },
        None => value,
    }
}

/// The expanded extent substituted for a missing or implausible one:
/// twice the minimum, but at least `DEFAULT_SIZE` (saturating at `u32::MAX`).
pub open spec fn default_expanded_size(min_size: int) -> int {
    let twice = 2 * min_size;
    let v = if twice > DEFAULT_SIZE as int {
        twice
    } else {
        DEFAULT_SIZE as int
    };
    if v > u32::MAX as int {
        u32::MAX as int
    } else {
        v
    }
}

/// `default_expanded_size(min_size)`.
pub fn default_expanded_size_for(min_size: u32) -> (r: u32)
    ensures
        r as int == default_expanded_size(min_size as int),
{
    let twice: u32 = if min_size > u32::MAX / 2 {
        u32::MAX
    } else {
        min_size * 2
    };
    if twice > DEFAULT_SIZE {
        twice
    } else {
        DEFAULT_SIZE
    }
}

impl PanelState {
    /// This state with `size` set as `set_panel_size` sets it: the requested extent,
    /// lowered to the maximum if any. There is no lower clamp: a user who dragged below
    /// the minimum keeps that extent.
    pub open spec fn with_requested_size(self, requested: int) -> PanelState {
        PanelState { size: clamp_to_max(requested, self.max_size) as u32, ..self }
    }

    /// This state with the collapse flag replaced.
    pub open spec fn with_collapsed(self, collapsed: bool) -> PanelState {
        PanelState { collapsed: collapsed, ..self }
    }

    /// Sets `size` to `requested`, lowered to the maximum if any.
    pub fn set_requested_size(&mut self, requested: u32)
        ensures
            *final(self) == old(self).with_requested_size(requested as int),
    {
        let v: u32 = requested;
        self.size = match self.max_size {
            Some(m) => if v > m {
                m
            } else {
                v
            },
            None => v,
        };
    }
}

impl Default for PanelState {
    fn default() -> (r: PanelState)
        ensures
            r == default_panel_state(),
    {
        PanelState {
            collapsed: false,
            size: DEFAULT_SIZE,
            min_size: DEFAULT_MIN_SIZE,
            max_size: None,
            resizable: true,
        }
    }
}

/// The panel state of every side, with the persistence policy.
#[derive(Clone, Copy, Debug, PartialEq, Eq, Structural)]
pub struct CollapsibleDockState {
    pub left: PanelState,
    pub right: PanelState,
    pub top: PanelState,
    pub bottom: PanelState,
    /// Nominal animation length in milliseconds (the transition itself always
    /// runs for `TRANSITION_MS`).
    pub animation_duration_ms: u32,
    /// Whether the state is written to the host's store to outlive the process.
    pub persist_state: bool,
}

pub open spec fn default_dock_state() -> CollapsibleDockState {
    CollapsibleDockState {
        left: default_panel_state(),
        right: default_panel_state(),
        top: default_panel_state(),
        bottom: default_panel_state(),
        animation_duration_ms: DEFAULT_ANIMATION_MS,
        persist_state: true,
    }
}

impl CollapsibleDockState {
    /// The state of the panel on `side`.
    pub open spec fn panel(self, side: PanelSide) -> PanelState {
        match side {
            PanelSide::Left => self.left,
            PanelSide::Right => self.right,
            PanelSide::Top => self.top,
            PanelSide::Bottom => self.bottom,
        }
    }

    /// This aggregate with the state on `side` replaced and the others kept.
    pub open spec fn with_panel(self, side: PanelSide, p: PanelState) -> CollapsibleDockState {
        match side {
            PanelSide::Left => CollapsibleDockState { left: p, ..self },
            PanelSide::Right => CollapsibleDockState { right: p, ..self },
            PanelSide::Top => CollapsibleDockState { top: p, ..self },
            PanelSide::Bottom => CollapsibleDockState { bottom: p, ..self },
        }
    }

    pub fn new() -> (r: CollapsibleDockState)
        ensures
            r == default_dock_state(),
    {
        CollapsibleDockState {
            left: PanelState::default(),
            right: PanelState::default(),
            top: PanelState::default(),
            bottom: PanelState::default(),
            animation_duration_ms: DEFAULT_ANIMATION_MS,
            persist_state: true,
        }
    }

    /// The aggregate to take over from the store: `stored` where it was written in the
    /// current layout `version`, else the default aggregate.
    pub fn from_stored(version: u32, stored: CollapsibleDockState) -> (r: CollapsibleDockState)
        ensures
            r == (if version == STORED_LAYOUT_VERSION {
                stored
            } else {
                default_dock_state()
            }),
    {
        if version == STORED_LAYOUT_VERSION {
            stored
        } else {
            CollapsibleDockState::new()
        }
    }

    /// The state of the panel on `side`.
    pub fn panel_state(&self, side: PanelSide) -> (r: PanelState)
        ensures
            r == self.panel(side),
    {
        match side {
            PanelSide::Left => self.left,
            PanelSide::Right => self.right,
            PanelSide::Top => self.top,
            PanelSide::Bottom => self.bottom,
        }
    }

    /// Replaces the state of the panel on `side`.
    pub fn set_panel_state(&mut self, side: PanelSide, p: PanelState)
        ensures
            *final(self) == old(self).with_panel(side, p),
    {
        match side {
            PanelSide::Left => self.left = p,
            PanelSide::Right => self.right = p,
            PanelSide::Top => self.top = p,
            PanelSide::Bottom => self.bottom = p,
        }
    }

    pub fn set_panel_collapsed(&mut self, side: PanelSide, collapsed: bool)
        ensures
            *final(self) == old(self).with_panel(side, old(self).panel(side).with_collapsed(collapsed)),
    {
        let mut p = self.panel_state(side);
        p.collapsed = collapsed;
        self.set_panel_state(side, p);
    }

    pub fn is_panel_collapsed(&self, side: PanelSide) -> (r: bool)
        ensures
            r == self.panel(side).collapsed,
    {
        self.panel_state(side).collapsed
    }

    pub fn toggle_panel(&mut self, side: PanelSide)
        ensures
            *final(self) == old(self).with_panel(
                side,
                old(self).panel(side).with_collapsed(!old(self).panel(side).collapsed),
            ),
    {
        let mut p = self.panel_state(side);
        p.collapsed = !p.collapsed;
        self.set_panel_state(side, p);
    }

    /// Stores `size` for `side`, lowered to the side's maximum, if any.
    pub fn set_panel_size(&mut self, side: PanelSide, size: u32)
        ensures
            *final(self) == old(self).with_panel(side, old(self).panel(side).with_requested_size(size as int)),
    {
        let mut p = self.panel_state(side);
        p.set_requested_size(size);
        self.set_panel_state(side, p);
    }

    pub fn get_panel_size(&self, side: PanelSide) -> (r: u32)
        ensures
            r == self.panel(side).size,
    {
        self.panel_state(side).size
    }
}

impl Default for CollapsibleDockState {
    fn default() -> (r: CollapsibleDockState)
        ensures
            r == default_dock_state(),
    {
        CollapsibleDockState::new()
    }
}

/// Toggling a side twice gives back its collapse flag, and touches nothing else.
pub proof fn lemma_toggle_twice(s: CollapsibleDockState, side: PanelSide)
    ensures
        ({
            let once = s.with_panel(side, s.panel(side).with_collapsed(!s.panel(side).collapsed));
            let twice = once.with_panel(side, once.panel(side).with_collapsed(!once.panel(side).collapsed));
            twice == s
        }),
{
}

/// Setting a size stores it, lowered to the maximum if any:
/// `set_panel_size(s); get_panel_size() == min(s, max_size)`.
pub proof fn lemma_set_then_get_size(s: CollapsibleDockState, side: PanelSide, size: u32)
    ensures
        s.with_panel(side, s.panel(side).with_requested_size(size as int)).panel(side).size as int
            == clamp_to_max(size as int, s.panel(side).max_size),
{
}

} // verus!
