//! Types of the GUI toolkit and the docking widget that panels carry through unchanged.
use vstd::prelude::*;

verus! {

/// An opaque widget identifier of egui; a panel keeps the one it was made with.
#[verifier::external_type_specification]
#[verifier::external_body]
pub struct ExId(egui::Id);

/// egui's frame style of a panel, kept as the user set it.
#[verifier::external_type_specification]
#[verifier::external_body]
pub struct ExFrame(egui::Frame);

/// The arrangement of tabs owned by the docking widget; opaque to the panel.
#[verifier::external_type_specification]
#[verifier::external_body]
#[verifier::reject_recursive_types(Tab)]
pub struct ExDockState<Tab>(egui_dock::DockState<Tab>);

/// Relies on egui_dock's `DockState::new`, which builds a dock state around the given
/// tabs; nothing is claimed of the value.
pub assume_specification<Tab>[ egui_dock::DockState::<Tab>::new ](tabs: Vec<Tab>) -> egui_dock::DockState<Tab>;

} // verus!
