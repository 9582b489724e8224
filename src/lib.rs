//! Collapsible edge-docked panels for an immediate-mode GUI.
//!
//! A panel sits on one edge of the window, animates between a thin icon strip and its
//! last-used extent, and keeps its collapse flag and extent across frames and sessions.
//! Everything here is plain state and arithmetic: the host draws what a frame plan says
//! and reports back the extent that was realized.

pub mod side;
pub mod animation;
pub mod state;
pub mod text;
pub mod button;
pub mod outside;
pub mod dock_collapsible;
pub mod collapsible_toolbar;

pub use button::CollapsibleButton;
pub use collapsible_toolbar::{CollapsibleToolbar, ToolbarState};
pub use dock_collapsible::{CollapsibleDockPanel, FramePlan, StripEntry};
pub use side::PanelSide;
pub use state::{CollapsibleDockState, PanelState};
