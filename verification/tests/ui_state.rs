use slime_sim::config::ConfigEntry;
use slime_sim::spawn::SpawnMode;
use slime_sim::ui::{status_is_error, FloatBits, UiState};
use std::path::PathBuf;

fn bits(x: f32) -> FloatBits {
    FloatBits(x.to_bits())
}

#[test]
fn default_state_matches_panel_defaults() {
    let ui = UiState::default();
    assert_eq!(ui.num_species, 1);
    assert_eq!(ui.trail_weight, bits(5.0));
    assert_eq!(ui.decay_rate, bits(0.3));
    assert_eq!(ui.diffuse_rate, bits(3.0));
    assert_eq!(ui.num_agents, 250_000);
    assert_eq!(ui.spawn_mode, SpawnMode::CentreCircle);
    assert_eq!(ui.species[0].move_speed, bits(100.0));
    assert_eq!(ui.species[0].turn_speed, bits(2.0));
    assert_eq!(ui.species[0].sensor_angle_deg, bits(30.0));
    assert_eq!(ui.species[0].sensor_offset, bits(35.0));
    assert_eq!(ui.species[0].colour, [bits(1.0), bits(1.0), bits(1.0)]);
    assert_eq!(ui.species[1].colour, [bits(0.306), bits(0.475), bits(0.655)]);
    assert_eq!(ui.species[2].colour, [bits(0.949), bits(0.557), bits(0.169)]);
    assert_eq!(ui.species[3].colour, [bits(0.882), bits(0.341), bits(0.349)]);
    assert_eq!(ui.food_clump_radius, bits(30.0));
    assert_eq!(ui.food_viz_weight, bits(0.3));
    assert_eq!(ui.food_seed, 42);
    assert!(ui.panel_open && ui.show_food && !ui.paused);
}

#[test]
fn positive_float_bits() {
    assert!(bits(0.07).is_positive());
    assert!(bits(f32::INFINITY).is_positive());
    assert!(bits(f32::MIN_POSITIVE).is_positive());
    assert!(!bits(0.0).is_positive());
    assert!(!bits(-0.0).is_positive());
    assert!(!bits(-1.0).is_positive());
    assert!(!bits(f32::NAN).is_positive());
    for x in [0.5f32, -0.5, 1e-40, -1e-40, 3.0e38, f32::NEG_INFINITY] {
        assert_eq!(bits(x).is_positive(), x > 0.0);
    }
}

#[test]
fn frame_requests_are_taken_once() {
    let mut ui = UiState::default();
    ui.reset_requested = true;
    ui.food_regen_requested = true;
    ui.food_weight = bits(0.5);
    let r = ui.take_frame_requests();
    assert!(r.reset && r.upload_food_after_reset && r.regenerate_food);
    assert!(!ui.reset_requested && !ui.food_regen_requested);
    let again = ui.take_frame_requests();
    assert!(!again.reset && !again.upload_food_after_reset && !again.regenerate_food);
}

#[test]
fn reset_without_food_weight_skips_food_upload() {
    let mut ui = UiState::default();
    ui.reset_requested = true;
    let r = ui.take_frame_requests();
    assert!(r.reset && !r.upload_food_after_reset && !r.regenerate_food);
}

#[test]
fn paused_frames_run_no_steps() {
    let mut ui = UiState::default();
    ui.steps_per_frame = 4;
    assert_eq!(ui.steps_this_frame(), 4);
    ui.paused = true;
    assert_eq!(ui.steps_this_frame(), 0);
}

#[test]
fn regenerate_food_advances_seed() {
    let mut ui = UiState::default();
    ui.request_food_regeneration();
    assert_eq!(ui.food_seed, 43);
    assert!(ui.food_regen_requested);
    ui.food_seed = u32::MAX;
    ui.request_food_regeneration();
    assert_eq!(ui.food_seed, 0);
}

#[test]
fn load_dialog_offers_configs_unselected() {
    let mut ui = UiState::default();
    ui.selected_config_index = Some(3);
    let entry = ConfigEntry { path: PathBuf::from("configs/a-1.xml"), display_name: "a-1".to_string() };
    ui.open_load_dialog(vec![entry]);
    assert!(ui.load_dialog_open);
    assert_eq!(ui.selected_config_index, None);
    assert_eq!(ui.available_configs.len(), 1);
    assert_eq!(ui.available_configs[0].display_name, "a-1");
}

#[test]
fn palette_sets_every_slot_colour() {
    let mut ui = UiState::default();
    let palette = [
        [bits(0.6), bits(0.0), bits(0.0)],
        [bits(1.0), bits(0.1), bits(0.0)],
        [bits(1.0), bits(0.5), bits(0.0)],
        [bits(1.0), bits(1.0), bits(0.0)],
    ];
    ui.apply_palette(&palette);
    for i in 0..4 {
        assert_eq!(ui.species[i].colour, palette[i]);
        assert_eq!(ui.species[i].move_speed, bits(100.0));
    }
}

#[test]
fn save_outcome_sets_status() {
    let mut ui = UiState::default();
    assert!(ui.record_save_outcome(Ok("configs/a-1.xml".to_string())));
    assert_eq!(ui.save_status.as_deref(), Some("Saved configuration: configs/a-1.xml"));
    assert!(!status_is_error(ui.save_status.as_deref().unwrap()));
    assert!(!ui.record_save_outcome(Err("Title is required.".to_string())));
    assert_eq!(ui.save_status.as_deref(), Some("Error: Title is required."));
    assert!(status_is_error(ui.save_status.as_deref().unwrap()));
}

#[test]
fn load_error_sets_status() {
    let mut ui = UiState::default();
    ui.record_load_error("Failed to parse XML: bad");
    assert_eq!(ui.load_status.as_deref(), Some("Error: Failed to parse XML: bad"));
}

#[test]
fn loaded_config_keeps_panel_view() {
    let mut ui = UiState::default();
    ui.panel_open = false;
    ui.paused = true;
    ui.fps = bits(59.5);
    ui.panel_width_points = bits(280.0);
    ui.load_dialog_open = true;
    let mut loaded = UiState::default();
    loaded.trail_weight = bits(9.0);
    loaded.num_species = 3;
    ui.apply_loaded_config(loaded, "fancy-17");
    assert!(!ui.panel_open && ui.paused);
    assert_eq!(ui.fps, bits(59.5));
    assert_eq!(ui.panel_width_points, bits(280.0));
    assert_eq!(ui.trail_weight, bits(9.0));
    assert_eq!(ui.num_species, 3);
    assert!(ui.reset_requested);
    assert!(!ui.load_dialog_open);
    assert_eq!(ui.load_status.as_deref(), Some("Loaded: fancy-17"));
}

#[test]
fn hidden_food_has_no_visible_weight() {
    let mut ui = UiState::default();
    assert_eq!(ui.visible_food_weight(), bits(0.3));
    ui.show_food = false;
    assert_eq!(f32::from_bits(ui.visible_food_weight().0), 0.0);
}
