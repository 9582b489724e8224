//! Descriptors of the icon buttons shown on a collapsed panel, and which icon each shows.
use vstd::prelude::*;

use crate::side::PanelSide;
use crate::text::{after_prefix, starts_with, str_eq};

verus! {

/// An icon of the fixed glyph set, chosen by a button's label.
#[derive(Clone, Copy, Debug, PartialEq, Eq, Structural)]
pub enum GlyphIcon {
    MagnifyingGlass,
    Folder,
    Warning,
    ClockCounterClockwise,
    Gear,
    TreeStructure,
    ListBullets,
    Terminal,
    /// The generic dot used for any other label.
    Circle,
}

/// A hand-drawn vector icon, named by a tagged icon string.
#[derive(Clone, Copy, Debug, PartialEq, Eq, Structural)]
pub enum VectorIcon {
    SceneTree,
    Properties,
    Console,
    Files,
    Terminal,
    Settings,
    Close,
    /// The filled circle drawn for an unknown name.
    Dot,
}

/// The icon a strip button shows.
#[derive(Clone, Copy, Debug, PartialEq, Eq, Structural)]
pub enum ButtonIcon {
    Glyph(GlyphIcon),
    Vector(VectorIcon),
}

/// The tag that marks an icon string as naming a vector icon (`"svg:SceneTree"`).
pub open spec fn vector_tag() -> Seq<char> {
    "svg:"@
}

pub open spec fn glyph_for(label: Seq<char>) -> GlyphIcon {
    if label == "Search"@ {
        GlyphIcon::MagnifyingGlass
    } else if label == "Files"@ {
        GlyphIcon::Folder
    } else if label == "Diagnostics"@ {
        GlyphIcon::Warning
    } else if label == "History"@ {
        GlyphIcon::ClockCounterClockwise
    } else if label == "Settings"@ {
        GlyphIcon::Gear
    } else if label == "场景树"@ {
        GlyphIcon::TreeStructure
    } else if label == "属性"@ {
        GlyphIcon::ListBullets
    } else if label == "控制台"@ {
        GlyphIcon::Terminal
    } else {
        GlyphIcon::Circle
    }
}

/// The vector icon a name stands for. `Close` is drawn only on the strips of left and
/// right panels (`vertical`); the strips of top and bottom panels show the dot for it.
pub open spec fn vector_for(name: Seq<char>, vertical: bool) -> VectorIcon {
    if name == "SceneTree"@ {
        VectorIcon::SceneTree
    } else if name == "Properties"@ {
        VectorIcon::Properties
    } else if name == "Console"@ {
        VectorIcon::Console
    } else if name == "Files"@ {
        VectorIcon::Files
    } else if name == "Terminal"@ {
        VectorIcon::Terminal
    } else if name == "Settings"@ {
        VectorIcon::Settings
    } else if name == "Close"@ && vertical {
        VectorIcon::Close
    } else {
        VectorIcon::Dot
    }
}

/// A tagged icon string names a vector icon; anything else falls back to the glyph
/// chosen by the label. `vertical` says whether the strip belongs to a left or right panel.
pub open spec fn icon_for(icon: Option<String>, label: Seq<char>, vertical: bool) -> ButtonIcon {
    match icon {
        Some(s) => if starts_with(s@, vector_tag()) {
            ButtonIcon::Vector(
                vector_for(s@.subrange(vector_tag().len() as int, s@.len() as int), vertical),
            )
        } else {
            ButtonIcon::Glyph(glyph_for(label))
        },
        None => ButtonIcon::Glyph(glyph_for(label)),
    }
}

/// The glyph for a button label.
pub fn glyph_for_label(label: &str) -> (r: GlyphIcon)
    ensures
        r == glyph_for(label@),
{
    if str_eq(label, "Search") {
        GlyphIcon::MagnifyingGlass
    } else if str_eq(label, "Files") {
        GlyphIcon::Folder
    } else if str_eq(label, "Diagnostics") {
        GlyphIcon::Warning
    } else if str_eq(label, "History") {
        GlyphIcon::ClockCounterClockwise
    } else if str_eq(label, "Settings") {
        GlyphIcon::Gear
    } else if str_eq(label, "场景树") {
        GlyphIcon::TreeStructure
    } else if str_eq(label, "属性") {
        GlyphIcon::ListBullets
    } else if str_eq(label, "控制台") {
        GlyphIcon::Terminal
    } else {
        GlyphIcon::Circle
    }
}

/// The vector icon for a name that followed the tag, on a strip of a left or right
/// panel (`vertical`) or of a top or bottom one.
pub fn vector_icon_named(name: &str, vertical: bool) -> (r: VectorIcon)
    ensures
        r == vector_for(name@, vertical),
{
    if str_eq(name, "SceneTree") {
        VectorIcon::SceneTree
    } else if str_eq(name, "Properties") {
        VectorIcon::Properties
    } else if str_eq(name, "Console") {
        VectorIcon::Console
    } else if str_eq(name, "Files") {
        VectorIcon::Files
    } else if str_eq(name, "Terminal") {
        VectorIcon::Terminal
    } else if str_eq(name, "Settings") {
        VectorIcon::Settings
    } else if vertical && str_eq(name, "Close") {
        VectorIcon::Close
    } else {
        VectorIcon::Dot
    }
}

/// An icon button shown on a collapsed panel.
#[derive(Clone, Debug)]
pub struct CollapsibleButton {
    /// The label, also the hover text when there is no tooltip.
    pub text: String,
    /// An icon string; one that starts with the vector tag names a vector icon.
    pub icon: Option<String>,
    pub tooltip: Option<String>,
    pub selected: bool,
}

impl CollapsibleButton {
    pub fn new(text: &str) -> (r: CollapsibleButton)
        ensures
            r.text@ == text@,
            r.icon.is_none(),
            r.tooltip.is_none(),
            !r.selected,
    {
        CollapsibleButton { text: text.to_owned(), icon: None, tooltip: None, selected: false }
    }

    pub fn with_icon(self, icon: &str) -> (r: CollapsibleButton)
        ensures
            r.icon.is_some() && r.icon.unwrap()@ == icon@,
            r.text == self.text,
            r.tooltip == self.tooltip,
            r.selected == self.selected,
    {
        let mut b = self;
        b.icon = Some(icon.to_owned());
        b
    }

    pub fn with_tooltip(self, tooltip: &str) -> (r: CollapsibleButton)
        ensures
            r.tooltip.is_some() && r.tooltip.unwrap()@ == tooltip@,
            r.text == self.text,
            r.icon == self.icon,
            r.selected == self.selected,
    {
        let mut b = self;
        b.tooltip = Some(tooltip.to_owned());
        b
    }

    pub fn selected(self, selected: bool) -> (r: CollapsibleButton)
        ensures
            r.selected == selected,
            r.text == self.text,
            r.icon == self.icon,
            r.tooltip == self.tooltip,
    {
        let mut b = self;
        b.selected = selected;
        b
    }

    /// The text shown on hover: the tooltip if any, else the label.
    pub open spec fn hover_text_spec(&self) -> Seq<char> {
        match self.tooltip {
            Some(t) => t@,
            None => self.text@,
        }
    }

    pub fn hover_text(&self) -> (r: String)
        ensures
            r@ == self.hover_text_spec(),
    {
        match &self.tooltip {
            Some(t) => t.clone(),
            None => self.text.clone(),
        }
    }

    /// The icon this button shows on the strip of a panel on `side`.
    pub fn icon(&self, side: PanelSide) -> (r: ButtonIcon)
        ensures
            r == icon_for(self.icon, self.text@, side.is_vertical_spec()),
    {
        match &self.icon {
            Some(s) => match after_prefix(s.as_str(), "svg:") {
                Some(name) => ButtonIcon::Vector(vector_icon_named(name, side.is_vertical())),
                None => ButtonIcon::Glyph(glyph_for_label(self.text.as_str())),
            },
            None => ButtonIcon::Glyph(glyph_for_label(self.text.as_str())),
        }
    }
}

} // verus!
