//! A simpler collapsible toolbar: a row or column of tabs that expands to show the
//! selected tab's content.
use vstd::prelude::*;

use crate::side::PanelSide;

verus! {

/// Minimum extent of a new toolbar, in points.
pub const TOOLBAR_DEFAULT_MIN_SIZE: u32 = 200;

/// Extent of a collapsed left or right toolbar.
pub const TOOLBAR_COLLAPSED_WIDTH: u32 = 16;

/// Extent of a collapsed top or bottom toolbar.
pub const TOOLBAR_COLLAPSED_HEIGHT: u32 = 35;

/// Which tabs a toolbar has, which is selected, and whether it is expanded.
#[derive(Clone, Debug)]
pub struct ToolbarState<Tab> {
    pub tabs: Vec<Tab>,
    pub selected_tab: Option<usize>,
    pub is_expanded: bool,
}

impl<Tab> Default for ToolbarState<Tab> {
    fn default() -> (r: ToolbarState<Tab>)
        ensures
            r.tabs@.len() == 0,
            r.selected_tab.is_none(),
            !r.is_expanded,
    {
        ToolbarState { tabs: Vec::new(), selected_tab: None, is_expanded: false }
    }
}

impl<Tab> ToolbarState<Tab> {
    /// The selected tab's index, where it names one of the tabs.
    pub fn selected_index(&self) -> (r: Option<usize>)
        ensures
            r == (match self.selected_tab {
                Some(i) => if i < self.tabs@.len() {
                    Some(i)
                } else {
                    None
                },
                None => None,
            }),
    {
        match self.selected_tab {
            Some(i) => if i < self.tabs.len() {
                Some(i)
            } else {
                None
            },
            None => None,
        }
    }

    /// A click on tab `index` of the collapsed strip: selects it and expands.
    pub fn open_tab(&mut self, index: usize)
        ensures
            final(self).tabs == old(self).tabs,
            final(self).selected_tab == Some(index),
            final(self).is_expanded,
    {
        self.selected_tab = Some(index);
        self.is_expanded = true;
    }

    /// A click on tab `index` of the tab bar: the selected tab collapses the toolbar,
    /// another one is selected and expands it.
    pub fn click_tab(&mut self, index: usize)
        ensures
            final(self).tabs == old(self).tabs,
            old(self).selected_tab == Some(index) ==> final(self).selected_tab.is_none()
                && !final(self).is_expanded,
            old(self).selected_tab != Some(index) ==> final(self).selected_tab == Some(index)
                && final(self).is_expanded,
    {
        let is_selected = match self.selected_tab {
            Some(s) => s == index,
            None => false,
        };
        if is_selected {
            self.selected_tab = None;
            self.is_expanded = false;
        } else {
            self.selected_tab = Some(index);
            self.is_expanded = true;
        }
    }

    /// Collapses the toolbar and clears the selection.
    pub fn collapse(&mut self)
        ensures
            final(self).tabs == old(self).tabs,
            final(self).selected_tab.is_none(),
            !final(self).is_expanded,
    {
        self.is_expanded = false;
        self.selected_tab = None;
    }
}

/// `k` is the position of the first space in `s`.
pub open spec fn is_first_space(s: Seq<char>, k: int) -> bool {
    0 <= k < s.len() && s[k] == ' ' && forall|j: int| 0 <= j < k ==> s[j] != ' '
}

/// The short form of a tab title on a collapsed toolbar: what comes before the first
/// space (usually an icon), or else the first two characters.
pub open spec fn short_title_of(s: Seq<char>) -> Seq<char> {
    if exists|k: int| is_first_space(s, k) {
        s.subrange(0, choose|k: int| is_first_space(s, k))
    } else if s.len() < 2 {
        s
    } else {
        s.subrange(0, 2)
    }
}

pub fn short_title(title: &str) -> (r: String)
    ensures
        r@ == short_title_of(title@),
{
    let n = title.unicode_len();
    let mut i: usize = 0;
    while i < n
        invariant
            n == title@.len(),
            i <= n,
            forall|j: int| 0 <= j < i ==> title@[j] != ' ',
        decreases n - i,
    {
        if title.get_char(i) == ' ' {
            proof {
                assert(is_first_space(title@, i as int));
                let k = choose|k: int| is_first_space(title@, k);
                assert(k == i) by {
                    if k < i {
                        assert(title@[k] != ' ');
                    } else if k > i {
                        assert(title@[i as int] != ' ');
                    }
                }
            }
            return title.substring_char(0, i).to_owned();
        }
        i += 1;
    }
    assert(!exists|k: int| is_first_space(title@, k)) by {
        if exists|k: int| is_first_space(title@, k) {
            let k = choose|k: int| is_first_space(title@, k);
            assert(title@[k] != ' ');
        }
    }
    if n < 2 {
        assert(title@.subrange(0, n as int) =~= title@);
        title.substring_char(0, n).to_owned()
    } else {
        title.substring_char(0, 2).to_owned()
    }
}

/// Extents and resize rule of a toolbar's region in one state.
#[derive(Clone, Copy, Debug, PartialEq, Eq, Structural)]
pub struct ToolbarLayout {
    pub min_extent: u32,
    pub default_extent: u32,
    pub max_extent: u64,
    pub resizable: bool,
    /// Whether the frame loses its margins, for the narrow collapsed side strip.
    pub bare_frame: bool,
}

/// The extent of a collapsed toolbar on `side`.
pub open spec fn toolbar_collapsed_extent(side: PanelSide) -> u32 {
    if side.is_vertical_spec() {
        TOOLBAR_COLLAPSED_WIDTH
    } else {
        TOOLBAR_COLLAPSED_HEIGHT
    }
}

/// A toolbar of tabs on one edge of the window.
pub struct CollapsibleToolbar<Tab> {
    side: PanelSide,
    default_tabs: Vec<Tab>,
    persist: bool,
    expanded_frame: Option<egui::Frame>,
    tabs_frame: Option<egui::Frame>,
    min_size: u32,
    resizable: bool,
}

impl<Tab> CollapsibleToolbar<Tab> {
    pub closed spec fn side_spec(&self) -> PanelSide {
        self.side
    }

    pub closed spec fn default_tabs_spec(&self) -> Seq<Tab> {
        self.default_tabs@
    }

    pub closed spec fn persist_spec(&self) -> bool {
        self.persist
    }

    pub closed spec fn expanded_frame_spec(&self) -> Option<egui::Frame> {
        self.expanded_frame
    }

    pub closed spec fn tabs_frame_spec(&self) -> Option<egui::Frame> {
        self.tabs_frame
    }

    pub closed spec fn min_size_spec(&self) -> u32 {
        self.min_size
    }

    pub closed spec fn resizable_spec(&self) -> bool {
        self.resizable
    }

    /// The region of this toolbar, expanded or not: it spans from the collapsed extent
    /// to twice the minimum, opens at the minimum, and resizes only when expanded.
    pub open spec fn layout_spec(&self, expanded: bool) -> ToolbarLayout {
        let c = toolbar_collapsed_extent(self.side_spec());
        ToolbarLayout {
            min_extent: c,
            default_extent: if expanded {
                self.min_size_spec()
            } else {
                c
            },
            max_extent: (2 * (self.min_size_spec() as u64)) as u64,
            resizable: self.resizable_spec() && expanded,
            bare_frame: self.side_spec().is_vertical_spec() && !expanded,
        }
    }

    pub fn new(side: PanelSide, default_tabs: Vec<Tab>) -> (r: CollapsibleToolbar<Tab>)
        ensures
            r.side_spec() == side,
            r.default_tabs_spec() == default_tabs@,
            !r.persist_spec(),
            r.expanded_frame_spec().is_none(),
            r.tabs_frame_spec().is_none(),
            r.min_size_spec() == TOOLBAR_DEFAULT_MIN_SIZE,
            r.resizable_spec(),
    {
        CollapsibleToolbar {
            side,
            default_tabs,
            persist: false,
            expanded_frame: None,
            tabs_frame: None,
            min_size: TOOLBAR_DEFAULT_MIN_SIZE,
            resizable: true,
        }
    }

    /// Whether the state outlives the process (else it lives for the session only).
    pub fn persist(self, persist: bool) -> (r: CollapsibleToolbar<Tab>)
        ensures
            r.persist_spec() == persist,
            r.side_spec() == self.side_spec(),
            r.default_tabs_spec() == self.default_tabs_spec(),
            r.expanded_frame_spec() == self.expanded_frame_spec(),
            r.tabs_frame_spec() == self.tabs_frame_spec(),
            r.min_size_spec() == self.min_size_spec(),
            r.resizable_spec() == self.resizable_spec(),
    {
        let mut t = self;
        t.persist = persist;
        t
    }

    pub fn expanded_frame(self, frame: egui::Frame) -> (r: CollapsibleToolbar<Tab>)
        ensures
            r.expanded_frame_spec() == Some(frame),
            r.side_spec() == self.side_spec(),
            r.default_tabs_spec() == self.default_tabs_spec(),
            r.persist_spec() == self.persist_spec(),
            r.tabs_frame_spec() == self.tabs_frame_spec(),
            r.min_size_spec() == self.min_size_spec(),
            r.resizable_spec() == self.resizable_spec(),
    {
        let mut t = self;
        t.expanded_frame = Some(frame);
        t
    }

    pub fn tabs_frame(self, frame: egui::Frame) -> (r: CollapsibleToolbar<Tab>)
        ensures
            r.tabs_frame_spec() == Some(frame),
            r.side_spec() == self.side_spec(),
            r.default_tabs_spec() == self.default_tabs_spec(),
            r.persist_spec() == self.persist_spec(),
            r.expanded_frame_spec() == self.expanded_frame_spec(),
            r.min_size_spec() == self.min_size_spec(),
            r.resizable_spec() == self.resizable_spec(),
    {
        let mut t = self;
        t.tabs_frame = Some(frame);
        t
    }

    pub fn min_size(self, size: u32) -> (r: CollapsibleToolbar<Tab>)
        ensures
            r.min_size_spec() == size,
            r.side_spec() == self.side_spec(),
            r.default_tabs_spec() == self.default_tabs_spec(),
            r.persist_spec() == self.persist_spec(),
            r.expanded_frame_spec() == self.expanded_frame_spec(),
            r.tabs_frame_spec() == self.tabs_frame_spec(),
            r.resizable_spec() == self.resizable_spec(),
    {
        let mut t = self;
        t.min_size = size;
        t
    }

    pub fn resizable(self, resizable: bool) -> (r: CollapsibleToolbar<Tab>)
        ensures
            r.resizable_spec() == resizable,
            r.side_spec() == self.side_spec(),
            r.default_tabs_spec() == self.default_tabs_spec(),
            r.persist_spec() == self.persist_spec(),
            r.expanded_frame_spec() == self.expanded_frame_spec(),
            r.tabs_frame_spec() == self.tabs_frame_spec(),
            r.min_size_spec() == self.min_size_spec(),
    {
        let mut t = self;
        t.resizable = resizable;
        t
    }

    pub fn side(&self) -> (r: PanelSide)
        ensures
            r == self.side_spec(),
    {
        self.side
    }

    pub fn persists(&self) -> (r: bool)
        ensures
            r == self.persist_spec(),
    {
        self.persist
    }

    pub fn expanded_frame_style(&self) -> (r: Option<egui::Frame>)
        ensures
            r == self.expanded_frame_spec(),
    {
        self.expanded_frame
    }

    pub fn tabs_frame_style(&self) -> (r: Option<egui::Frame>)
        ensures
            r == self.tabs_frame_spec(),
    {
        self.tabs_frame
    }

    pub fn default_tabs(&self) -> (r: &Vec<Tab>)
        ensures
            r@ == self.default_tabs_spec(),
    {
        &self.default_tabs
    }

    /// The region of this toolbar, expanded or not.
    pub fn layout(&self, expanded: bool) -> (r: ToolbarLayout)
        ensures
            r == self.layout_spec(expanded),
    {
        let c = if self.side.is_vertical() {
            TOOLBAR_COLLAPSED_WIDTH
        } else {
            TOOLBAR_COLLAPSED_HEIGHT
        };
        ToolbarLayout {
            min_extent: c,
            default_extent: if expanded {
                self.min_size
            } else {
                c
            },
            max_extent: 2 * (self.min_size as u64),
            resizable: self.resizable && expanded,
            bare_frame: self.side.is_vertical() && !expanded,
        }
    }
}

impl<Tab: Clone> CollapsibleToolbar<Tab> {
    /// A state that holds no tabs is given copies of the default tabs; any other
    /// state is left as it is.
    pub fn fill_default_tabs(&self, state: &mut ToolbarState<Tab>)
        ensures
            old(state).tabs@.len() > 0 ==> *final(state) == *old(state),
            old(state).tabs@.len() == 0 ==> {
                &&& final(state).tabs@.len() == self.default_tabs_spec().len()
                &&& forall|i: int|
                    0 <= i < final(state).tabs@.len() ==> cloned::<Tab>(
                        self.default_tabs_spec()[i],
                        #[trigger] final(state).tabs@[i],
                    )
                &&& final(state).selected_tab == old(state).selected_tab
                &&& final(state).is_expanded == old(state).is_expanded
            },
    {
        if state.tabs.len() == 0 {
            state.tabs = self.default_tabs.clone();
        }
    }

    /// The state of a toolbar that has none stored: the default tabs, nothing selected,
    /// collapsed.
    pub fn initial_state(&self) -> (r: ToolbarState<Tab>)
        ensures
            r.tabs@.len() == self.default_tabs_spec().len(),
            forall|i: int|
                0 <= i < r.tabs@.len() ==> cloned::<Tab>(
                    self.default_tabs_spec()[i],
                    #[trigger] r.tabs@[i],
                ),
            r.selected_tab.is_none(),
            !r.is_expanded,
    {
        ToolbarState { tabs: self.default_tabs.clone(), selected_tab: None, is_expanded: false }
    }
}

} // verus!
