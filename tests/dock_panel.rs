use egui_collapsible_dock::animation::{PanelContent, COLLAPSED_EXTENT, PROGRESS_SCALE};
use egui_collapsible_dock::button::{ButtonIcon, GlyphIcon, VectorIcon};
use egui_collapsible_dock::{CollapsibleButton, CollapsibleDockPanel, CollapsibleDockState, PanelSide};

type Panel = CollapsibleDockPanel<String>;

fn panel(side: PanelSide) -> Panel {
    CollapsibleDockPanel::new(side, egui::Id::new("test_panel"))
}

/// One frame as the host runs it, with the realized extent equal to the planned one.
fn run_frame(p: &mut Panel, stored: &CollapsibleDockState, progress: u32) -> bool {
    if p.needs_restore() {
        p.restore(stored);
    }
    let plan = p.plan_frame(progress);
    p.reconcile_extent(&plan, plan.default_extent);
    p.finish_frame()
}

#[test]
fn new_panel_defaults() {
    let p = panel(PanelSide::Left);
    assert_eq!(p.side(), PanelSide::Left);
    assert!(!p.is_collapsed());
    assert_eq!(p.get_size(), 300);
    assert_eq!(p.get_active_button(), Some(0));
    assert!(p.needs_restore());
    assert!(p.frame().is_none());
    assert_eq!(p.state_id(), egui::Id::new("test_panel"));
}

#[test]
fn toggle_twice_restores_collapsed() {
    for side in [PanelSide::Left, PanelSide::Right, PanelSide::Top, PanelSide::Bottom] {
        let mut p = panel(side);
        let before = p.is_collapsed();
        p.toggle();
        assert_ne!(p.is_collapsed(), before);
        p.toggle();
        assert_eq!(p.is_collapsed(), before);
    }
}

#[test]
fn set_collapsed_sets_flag() {
    let mut p = panel(PanelSide::Right);
    p.set_collapsed(true);
    assert!(p.is_collapsed());
    p.set_collapsed(false);
    assert!(!p.is_collapsed());
}

#[test]
fn set_size_then_get_size() {
    let mut p = panel(PanelSide::Left).with_max_size(500);
    p.set_size(420);
    assert_eq!(p.get_size(), 420);
    p.set_size(800);
    assert_eq!(p.get_size(), 500);
    // Below the minimum (150) but above the floor: kept as is.
    p.set_size(110);
    assert_eq!(p.get_size(), 110);
}

#[test]
fn with_min_size_raises_small_extent() {
    let p = panel(PanelSide::Left).with_min_size(250);
    // 300 < 1.5 * 250, so the extent becomes max(2 * 250, 300).
    assert_eq!(p.get_size(), 500);
    let q = panel(PanelSide::Left).with_min_size(200);
    assert_eq!(q.get_size(), 300);
    assert_eq!(q.collapsible_state().left.min_size, 200);
}

#[test]
fn restore_replaces_implausible_size() {
    let mut stored = CollapsibleDockState::new();
    stored.left.size = 50;
    let mut p = panel(PanelSide::Left).with_min_size(200);
    assert!(p.restore(&stored));
    assert_ne!(p.get_size(), 50);
    assert!(p.get_size() >= 400);
    assert_eq!(p.get_size(), 400);

    let mut q = panel(PanelSide::Left);
    q.restore(&stored);
    assert_eq!(q.get_size(), 300);
}

#[test]
fn restore_takes_own_side_once() {
    let mut stored = CollapsibleDockState::new();
    stored.right.size = 420;
    stored.right.collapsed = true;
    stored.left.size = 999;
    let mut p = panel(PanelSide::Right);
    assert!(!p.restore(&stored));
    assert!(!p.needs_restore());
    assert_eq!(p.get_size(), 420);
    assert!(p.is_collapsed());
    assert_eq!(p.collapsible_state().left.size, 300);

    stored.right.size = 50;
    stored.right.collapsed = false;
    assert!(!p.restore(&stored));
    assert_eq!(p.get_size(), 420);
    assert!(p.is_collapsed());
}

#[test]
fn reconcile_hysteresis() {
    let mut p = panel(PanelSide::Left);
    p.restore(&CollapsibleDockState::new());
    let plan = p.plan_frame(PROGRESS_SCALE);
    p.reconcile_extent(&plan, 305);
    assert_eq!(p.get_size(), 300);
    p.reconcile_extent(&plan, 295);
    assert_eq!(p.get_size(), 300);
    p.reconcile_extent(&plan, 306);
    assert_eq!(p.get_size(), 306);
    p.reconcile_extent(&plan, 300);
    assert_eq!(p.get_size(), 300);
    p.reconcile_extent(&plan, 50);
    assert_eq!(p.get_size(), 50);
}

#[test]
fn reconcile_lowers_to_max() {
    let mut p = panel(PanelSide::Bottom).with_max_size(400);
    let plan = p.plan_frame(PROGRESS_SCALE);
    p.reconcile_extent(&plan, 900);
    assert_eq!(p.get_size(), 400);
}

#[test]
fn small_set_size_is_kept_and_drawn_validated() {
    let mut p = panel(PanelSide::Left).with_min_size(220);
    p.set_size(50);
    assert_eq!(p.get_size(), 50);
    let plan = p.plan_frame(PROGRESS_SCALE);
    assert_eq!(plan.default_extent, 440);
}

#[test]
fn top_strip_shows_dot_for_tagged_close() {
    let mut p = panel(PanelSide::Top).add_button(CollapsibleButton::new("Close").with_icon("svg:Close"));
    p.set_collapsed(true);
    assert_eq!(p.strip_entries()[0].icon, ButtonIcon::Vector(VectorIcon::Dot));
    let mut q = panel(PanelSide::Right).add_button(CollapsibleButton::new("Close").with_icon("svg:Close"));
    q.set_collapsed(true);
    assert_eq!(q.strip_entries()[0].icon, ButtonIcon::Vector(VectorIcon::Close));
}

#[test]
fn reconcile_ignores_collapsed_frames() {
    let mut p = panel(PanelSide::Top);
    p.set_collapsed(true);
    let plan = p.plan_frame(0);
    p.reconcile_extent(&plan, COLLAPSED_EXTENT);
    assert_eq!(p.get_size(), 300);
}

#[test]
fn first_show_with_min_size_then_toggles_keep_size() {
    let stored = CollapsibleDockState::new();
    let mut p = panel(PanelSide::Left)
        .with_min_size(200)
        .add_button(CollapsibleButton::new("Files"));
    run_frame(&mut p, &stored, PROGRESS_SCALE);
    let size = p.get_size();
    assert!(size >= 300);
    for _ in 0..3 {
        p.toggle();
        assert!(p.is_collapsed());
        run_frame(&mut p, &stored, 0);
        p.toggle();
        assert!(!p.is_collapsed());
        run_frame(&mut p, &stored, PROGRESS_SCALE);
    }
    assert_eq!(p.get_size(), size);
}

#[test]
fn toggles_with_several_frames_keep_size() {
    let stored = CollapsibleDockState::new();
    let mut p = panel(PanelSide::Right).with_min_size(200).add_button(CollapsibleButton::new("Files"));
    run_frame(&mut p, &stored, PROGRESS_SCALE);
    let size = p.get_size();
    for _ in 0..3 {
        p.toggle();
        for _ in 0..4 {
            let plan = p.plan_frame(0);
            p.reconcile_extent(&plan, size + 3);
            p.finish_frame();
        }
        p.toggle();
        for _ in 0..4 {
            let plan = p.plan_frame(PROGRESS_SCALE);
            p.reconcile_extent(&plan, size - 5);
            p.finish_frame();
        }
    }
    assert!(!p.is_collapsed());
    assert_eq!(p.get_size(), size);
}

#[test]
fn strip_keeps_insertion_order() {
    let p = panel(PanelSide::Left)
        .add_button(CollapsibleButton::new("Search"))
        .add_button(CollapsibleButton::new("Files"));
    let entries = p.strip_entries();
    assert_eq!(entries.len(), 2);
    assert_eq!(entries[0].index, 0);
    assert_eq!(entries[0].hover_text, "Search");
    assert_eq!(entries[0].icon, ButtonIcon::Glyph(GlyphIcon::MagnifyingGlass));
    assert_eq!(entries[1].index, 1);
    assert_eq!(entries[1].hover_text, "Files");
    assert_eq!(entries[1].icon, ButtonIcon::Glyph(GlyphIcon::Folder));
}

#[test]
fn strip_marks_active_only_when_expanded() {
    let mut p = panel(PanelSide::Left)
        .add_button(CollapsibleButton::new("Search").with_tooltip("Find in files"))
        .add_button(CollapsibleButton::new("Files"));
    let e = p.strip_entries();
    assert!(e[0].active);
    assert!(!e[1].active);
    assert_eq!(e[0].hover_text, "Find in files");
    p.set_collapsed(true);
    let e = p.strip_entries();
    assert!(!e[0].active && !e[1].active);
}

#[test]
fn activate_button_expands_and_selects() {
    let mut p = panel(PanelSide::Left)
        .add_button(CollapsibleButton::new("Search"))
        .add_button(CollapsibleButton::new("Files"));
    p.set_collapsed(true);
    p.activate_button(1);
    assert!(!p.is_collapsed());
    assert_eq!(p.get_active_button(), Some(1));
    p.set_collapsed(true);
    p.activate_button(2);
    assert!(p.is_collapsed());
    assert_eq!(p.get_active_button(), Some(1));
}

#[test]
fn set_active_button_ignores_out_of_range() {
    let mut p = panel(PanelSide::Left).add_button(CollapsibleButton::new("Search"));
    p.set_active_button(3);
    assert_eq!(p.get_active_button(), Some(0));
    p.set_active_button(0);
    assert_eq!(p.get_active_button(), Some(0));
}

#[test]
fn hidden_when_collapsed_without_buttons() {
    let mut p = panel(PanelSide::Bottom);
    assert!(p.is_drawn());
    p.set_collapsed(true);
    assert!(!p.is_drawn());
    let mut q = panel(PanelSide::Bottom).add_button(CollapsibleButton::new("History"));
    q.set_collapsed(true);
    assert!(q.is_drawn());
}

#[test]
fn plan_when_fully_expanded() {
    let p = panel(PanelSide::Left).with_min_size(120).with_max_size(700);
    let plan = p.plan_frame(PROGRESS_SCALE);
    assert!(plan.resizable);
    assert_eq!(plan.min_extent, 120);
    assert_eq!(plan.max_extent, Some(700));
    assert_eq!(plan.default_extent, 300);
    assert_eq!(plan.content, PanelContent::Dock);
    assert_eq!(plan.region_key(), "left_expanded");
}

#[test]
fn plan_while_animating_pins_extent() {
    let p = panel(PanelSide::Right);
    let plan = p.plan_frame(500);
    assert!(!plan.resizable);
    assert_eq!(plan.min_extent, 163);
    assert_eq!(plan.max_extent, Some(163));
    assert_eq!(plan.default_extent, 163);
    assert_eq!(plan.content, PanelContent::Placeholder);
    let q = p.resizable(false);
    let plan = q.plan_frame(PROGRESS_SCALE);
    assert!(!plan.resizable);
    assert_eq!(plan.max_extent, Some(300));
}

#[test]
fn plan_when_collapsed() {
    let mut p = panel(PanelSide::Top);
    p.set_collapsed(true);
    let plan = p.plan_frame(0);
    assert!(!plan.resizable);
    assert_eq!(plan.default_extent, COLLAPSED_EXTENT);
    assert_eq!(plan.content, PanelContent::IconStrip);
    assert_eq!(plan.region_key(), "top_collapsed");
    assert_eq!(p.target_progress(), 0);
    assert_eq!(p.animation_key(), "top_animation");
}

#[test]
fn plan_uses_stored_size() {
    let mut p = panel(PanelSide::Left).with_min_size(220);
    p.restore(&CollapsibleDockState::new());
    p.set_size(100);
    assert_eq!(p.get_size(), 100);
    let plan = p.plan_frame(PROGRESS_SCALE);
    assert_eq!(plan.default_extent, 100);
    assert_eq!(plan.min_extent, 220);
}

#[test]
fn persist_on_first_frame_and_on_change() {
    let stored = CollapsibleDockState::new();
    let mut p = panel(PanelSide::Left).add_button(CollapsibleButton::new("Files"));
    assert!(run_frame(&mut p, &stored, PROGRESS_SCALE));
    assert!(!run_frame(&mut p, &stored, PROGRESS_SCALE));
    p.toggle();
    assert!(run_frame(&mut p, &stored, 0));
    assert!(!run_frame(&mut p, &stored, 0));
}

#[test]
fn persist_after_toggle_between_frames() {
    let mut p = panel(PanelSide::Left);
    p.toggle();
    assert!(p.finish_frame());
    assert!(!p.finish_frame());
    p.toggle();
    p.toggle();
    assert!(!p.finish_frame());
}

#[test]
fn strip_entries_carry_selected_flag() {
    let p = panel(PanelSide::Bottom)
        .add_button(CollapsibleButton::new("Search").with_icon("svg:SceneTree").selected(true))
        .add_button(CollapsibleButton::new("Files").with_icon("svg:Files"));
    let e = p.strip_entries();
    assert!(e[0].selected);
    assert!(!e[1].selected);
    // Horizontal strips never mark an active entry.
    assert!(!e[0].active && !e[1].active);
    let q = panel(PanelSide::Left).add_button(CollapsibleButton::new("Search").selected(true));
    let e = q.strip_entries();
    assert!(e[0].selected);
    assert!(e[0].active);
}

#[test]
fn stored_state_of_other_version_is_not_taken_over() {
    let mut stored = CollapsibleDockState::new();
    stored.left.size = 480;
    stored.top.collapsed = true;
    let taken = CollapsibleDockState::from_stored(
        egui_collapsible_dock::state::STORED_LAYOUT_VERSION,
        stored,
    );
    assert_eq!(taken, stored);
    let fresh = CollapsibleDockState::from_stored(0, stored);
    assert_eq!(fresh, CollapsibleDockState::new());
    assert_eq!(fresh.left.size, 300);
}
