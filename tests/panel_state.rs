use egui_collapsible_dock::state::{default_expanded_size_for, DEFAULT_SIZE};
use egui_collapsible_dock::{CollapsibleDockState, PanelSide, PanelState};

const SIDES: [PanelSide; 4] = [PanelSide::Left, PanelSide::Right, PanelSide::Top, PanelSide::Bottom];

#[test]
fn default_state_has_all_sides_expanded() {
    let s = CollapsibleDockState::new();
    for side in SIDES {
        assert!(!s.is_panel_collapsed(side));
        assert_eq!(s.get_panel_size(side), 300);
    }
    assert_eq!(s.animation_duration_ms, 200);
    assert!(s.persist_state);
    let p = PanelState::default();
    assert_eq!(p.min_size, 150);
    assert_eq!(p.max_size, None);
    assert!(p.resizable);
}

#[test]
fn toggle_panel_twice_restores_flag() {
    for side in SIDES {
        let mut s = CollapsibleDockState::new();
        let before = s.is_panel_collapsed(side);
        s.toggle_panel(side);
        assert_ne!(s.is_panel_collapsed(side), before);
        s.toggle_panel(side);
        assert_eq!(s.is_panel_collapsed(side), before);
    }
}

#[test]
fn toggle_touches_only_its_side() {
    let mut s = CollapsibleDockState::new();
    s.toggle_panel(PanelSide::Top);
    assert!(s.is_panel_collapsed(PanelSide::Top));
    assert!(!s.is_panel_collapsed(PanelSide::Left));
    assert!(!s.is_panel_collapsed(PanelSide::Right));
    assert!(!s.is_panel_collapsed(PanelSide::Bottom));
}

#[test]
fn set_panel_collapsed_sets_flag() {
    let mut s = CollapsibleDockState::new();
    s.set_panel_collapsed(PanelSide::Bottom, true);
    assert!(s.is_panel_collapsed(PanelSide::Bottom));
    s.set_panel_collapsed(PanelSide::Bottom, false);
    assert!(!s.is_panel_collapsed(PanelSide::Bottom));
}

#[test]
fn set_panel_size_has_no_lower_clamp_to_min() {
    let mut s = CollapsibleDockState::new();
    s.set_panel_size(PanelSide::Left, 120);
    assert_eq!(s.get_panel_size(PanelSide::Left), 120);
    s.set_panel_size(PanelSide::Left, 450);
    assert_eq!(s.get_panel_size(PanelSide::Left), 450);
    assert_eq!(s.get_panel_size(PanelSide::Right), 300);
}

#[test]
fn set_panel_size_clamps_to_max() {
    let mut s = CollapsibleDockState::new();
    s.left.max_size = Some(400);
    s.set_panel_size(PanelSide::Left, 650);
    assert_eq!(s.get_panel_size(PanelSide::Left), 400);
    s.set_panel_size(PanelSide::Left, 350);
    assert_eq!(s.get_panel_size(PanelSide::Left), 350);
}

#[test]
fn set_panel_size_stores_small_value_as_given() {
    let mut s = CollapsibleDockState::new();
    s.set_panel_size(PanelSide::Top, 50);
    assert_eq!(s.get_panel_size(PanelSide::Top), 50);
    s.set_panel_size(PanelSide::Top, 99);
    assert_eq!(s.get_panel_size(PanelSide::Top), 99);
    s.set_panel_size(PanelSide::Top, 0);
    assert_eq!(s.get_panel_size(PanelSide::Top), 0);
    s.bottom.max_size = Some(200);
    s.set_panel_size(PanelSide::Bottom, 10);
    assert_eq!(s.get_panel_size(PanelSide::Bottom), 10);
    s.set_panel_size(PanelSide::Bottom, 650);
    assert_eq!(s.get_panel_size(PanelSide::Bottom), 200);
}

#[test]
fn default_expanded_size_formula() {
    assert_eq!(default_expanded_size_for(0), DEFAULT_SIZE);
    assert_eq!(default_expanded_size_for(150), 300);
    assert_eq!(default_expanded_size_for(151), 302);
    assert_eq!(default_expanded_size_for(200), 400);
    assert_eq!(default_expanded_size_for(u32::MAX), u32::MAX);
    assert_eq!(default_expanded_size_for(u32::MAX / 2), u32::MAX - 1);
}
