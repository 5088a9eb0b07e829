use atom_sim::controls::{
    initial_spawn_indices, template_grid_cell, ClickAction, InfoPanel, SimControls,
};
use atom_sim::interactions::{attraction_pairs, collision_pairs};

#[test]
fn start_up_controls() {
    let c = SimControls::new(3);
    assert!(!c.paused);
    assert!(c.collisions_enabled);
    assert!(!c.gravity_enabled);
    assert!(c.show_orbitals);
    assert_eq!(c.selected_template, None);
    assert_eq!(c.dragged_atom, None);
    assert!(c.drag_tool_active());
    assert_eq!(c.pause_label(), "Pause");
}

#[test]
fn toggles_flip_and_undo() {
    let mut c = SimControls::new(3);
    c.toggle_pause();
    assert!(c.paused);
    assert_eq!(c.pause_label(), "Reprendre");
    c.toggle_pause();
    assert!(!c.paused);
    c.toggle_collisions();
    assert!(!c.collisions_enabled);
    c.toggle_gravity();
    assert!(c.gravity_enabled);
    c.toggle_orbitals();
    assert!(!c.show_orbitals);
}

#[test]
fn template_buttons_toggle_selection() {
    let mut c = SimControls::new(4);
    c.press_template(2);
    assert_eq!(c.selected_template, Some(2));
    assert!(!c.drag_tool_active());
    c.press_template(1);
    assert_eq!(c.selected_template, Some(1));
    c.press_template(1);
    assert_eq!(c.selected_template, None);
    c.press_template(3);
    c.select_drag_tool();
    assert_eq!(c.selected_template, None);
}

#[test]
fn clicks_drag_spawn_or_nothing() {
    let mut c = SimControls::new(4);
    assert_eq!(c.click_in_simulation(None), ClickAction::Nothing);
    c.press_template(3);
    assert_eq!(c.click_in_simulation(None), ClickAction::Spawn(3));
    assert_eq!(c.dragged_atom, None);
    assert_eq!(c.click_in_simulation(Some(5)), ClickAction::StartDrag(5));
    assert_eq!(c.dragged_atom, Some(5));
    assert!(!c.integrates(5));
    assert!(c.integrates(4));
    assert_eq!(c.drag_target(6), Some(5));
    assert_eq!(c.drag_target(5), None);
    c.release_mouse();
    assert_eq!(c.dragged_atom, None);
    assert!(c.integrates(5));
}

#[test]
fn info_panel_choice() {
    let mut c = SimControls::new(2);
    assert_eq!(c.info_panel(None, 3), InfoPanel::Instructions);
    assert_eq!(c.info_panel(Some(1), 3), InfoPanel::Card(1));
    assert_eq!(c.info_panel(Some(7), 3), InfoPanel::Blank);
    c.click_in_simulation(Some(2));
    assert_eq!(c.info_panel(None, 3), InfoPanel::Card(2));
    assert_eq!(c.info_panel(Some(0), 3), InfoPanel::Card(0));
    assert_eq!(c.info_panel(None, 2), InfoPanel::Blank);
}

#[test]
fn spawn_set_and_grid() {
    assert_eq!(initial_spawn_indices(0), Vec::<usize>::new());
    assert_eq!(initial_spawn_indices(1), vec![0]);
    assert_eq!(initial_spawn_indices(3), vec![0, 1]);
    assert_eq!(initial_spawn_indices(5), vec![0, 1]);
    assert_eq!(initial_spawn_indices(6), vec![0, 1, 5]);
    assert_eq!(initial_spawn_indices(20), vec![0, 1, 5]);
    assert_eq!(template_grid_cell(0), (0, 0));
    assert_eq!(template_grid_cell(1), (1, 0));
    assert_eq!(template_grid_cell(4), (0, 2));
    assert_eq!(template_grid_cell(7), (1, 3));
}

#[test]
fn collision_pair_order() {
    assert_eq!(collision_pairs(0), Vec::new());
    assert_eq!(collision_pairs(1), Vec::new());
    assert_eq!(collision_pairs(3), vec![(0, 1), (0, 2), (1, 2)]);
    assert_eq!(collision_pairs(10).len(), 45);
}

#[test]
fn attraction_pair_order() {
    assert_eq!(attraction_pairs(1), Vec::new());
    assert_eq!(
        attraction_pairs(3),
        vec![(0, 1), (0, 2), (1, 0), (1, 2), (2, 0), (2, 1)]
    );
    assert_eq!(attraction_pairs(10).len(), 90);
}
