use slime_sim::config::{
    build_config, default_food_clump_radius, default_food_num_clumps, default_food_viz_weight,
    default_true, ui_state_from_config, ConfigEntry, ConfigFile, ColourConfig, Metadata,
    SimulationConfig, SpeciesConfig,
};
use slime_sim::filename::{config_file_name, sanitize_title_for_filename};
use slime_sim::listing::{sort_config_entries, str_lt, xml_display_name};
use slime_sim::save::{plan_save, plan_save_at};
use slime_sim::spawn::{spawn_mode_to_string, string_to_spawn_mode, SpawnMode};
use slime_sim::ui::{FloatBits, UiState};
use std::path::PathBuf;

fn bits(x: f32) -> FloatBits {
    FloatBits(x.to_bits())
}

fn val(b: FloatBits) -> f32 {
    f32::from_bits(b.0)
}

#[test]
fn sanitize_title_my_great_config() {
    assert_eq!(sanitize_title_for_filename("My Great Config!"), "my-great-config");
}

#[test]
fn sanitize_title_only_separators_gives_config() {
    assert_eq!(sanitize_title_for_filename("___"), "config");
}

#[test]
fn sanitize_title_collapses_dash_runs() {
    assert_eq!(sanitize_title_for_filename("  alpha---beta  "), "alpha-beta");
}

#[test]
fn sanitize_title_version_number() {
    assert_eq!(sanitize_title_for_filename("Version 2.1"), "version-2-1");
}

#[test]
fn sanitize_title_inner_separator_runs() {
    assert_eq!(sanitize_title_for_filename("___A___B___"), "a-b");
}

#[test]
fn sanitize_title_is_idempotent_on_examples() {
    for t in ["My Great Config!", "___", "  alpha---beta  ", "Ünïcödé title", ""] {
        let once = sanitize_title_for_filename(t);
        assert_eq!(sanitize_title_for_filename(&once), once);
    }
}

#[test]
fn sanitize_title_drops_non_ascii_letters() {
    assert_eq!(sanitize_title_for_filename("Crème Brûlée"), "cr-me-br-l-e");
}

#[test]
fn config_file_name_joins_title_and_timestamp() {
    assert_eq!(config_file_name("My Great Config!", 1_700_000_000), "my-great-config-1700000000.xml");
    assert_eq!(config_file_name("x", 0), "x-0.xml");
    assert_eq!(config_file_name("x", u64::MAX), "x-18446744073709551615.xml");
}

#[test]
fn save_rejects_empty_title() {
    let ui = UiState::default();
    let result = plan_save(&ui, "   ", "notes");
    assert!(result.is_err());
}

#[test]
fn save_rejects_blank_title_with_message() {
    let ui = UiState::default();
    match plan_save_at(&ui, " \t\n\u{3000}", "notes", 5) {
        Err(msg) => assert_eq!(msg, "Title is required."),
        Ok(_) => panic!("blank title accepted"),
    }
}

#[test]
fn save_plan_trims_title_and_names_file() {
    let ui = UiState::default();
    let plan = match plan_save_at(&ui, "  Hello World  ", "some notes", 123) {
        Ok(p) => p,
        Err(e) => panic!("unexpected error {e}"),
    };
    assert_eq!(plan.config.metadata.title, "Hello World");
    assert_eq!(plan.config.metadata.notes, "some notes");
    assert_eq!(plan.config.metadata.saved_at, "123");
    assert_eq!(plan.file_name, "hello-world-123.xml");
    assert_eq!(plan.timestamp, 123);
}

#[test]
fn save_plan_now_uses_clock() {
    let ui = UiState::default();
    let plan = match plan_save(&ui, "now", "") {
        Ok(p) => p,
        Err(e) => panic!("unexpected error {e}"),
    };
    assert!(plan.timestamp > 1_600_000_000);
    assert_eq!(plan.file_name, format!("now-{}.xml", plan.timestamp));
}

#[test]
fn serialized_config_uses_active_species_count() {
    let mut ui = UiState::default();
    ui.num_species = 2;
    ui.species[0].colour = [bits(0.9), bits(0.1), bits(0.2)];
    ui.species[1].colour = [bits(0.2), bits(0.8), bits(0.4)];

    let cfg = build_config("title", "notes", &ui, 42);

    assert_eq!(cfg.version, 1);
    assert_eq!(cfg.metadata.title, "title");
    assert_eq!(cfg.metadata.notes, "notes");
    assert_eq!(cfg.metadata.saved_at, "42");
    assert_eq!(cfg.simulation.num_species, 2);
    assert_eq!(cfg.simulation.species_list.len(), 2);
    assert_eq!(val(cfg.simulation.species_list[0].colour.r), 0.9);
    assert_eq!(val(cfg.simulation.species_list[1].colour.g), 0.8);
}

#[test]
fn build_config_clamps_species_count_to_available_slots() {
    let mut ui = UiState::default();
    ui.num_species = 99;

    let cfg = build_config("title", "notes", &ui, 99);

    assert_eq!(cfg.simulation.num_species, 4);
    assert_eq!(cfg.simulation.species_list.len(), 4);
}

#[test]
fn build_config_writes_spawn_mode_name() {
    let mut ui = UiState::default();
    ui.spawn_mode = SpawnMode::RandomFill;
    let cfg = build_config("t", "", &ui, 7);
    assert_eq!(cfg.simulation.spawn_mode, "random_fill");
}

#[test]
fn spawn_mode_to_string_maps_centre_circle() {
    assert_eq!(spawn_mode_to_string(SpawnMode::CentreCircle), "centre_circle");
}

#[test]
fn spawn_mode_to_string_maps_random_fill() {
    assert_eq!(spawn_mode_to_string(SpawnMode::RandomFill), "random_fill");
}

#[test]
fn spawn_mode_to_string_maps_inward_circle() {
    assert_eq!(spawn_mode_to_string(SpawnMode::InwardCircle), "inward_circle");
}

#[test]
fn string_to_spawn_mode_maps_centre_circle() {
    assert_eq!(string_to_spawn_mode("centre_circle").unwrap(), SpawnMode::CentreCircle);
}

#[test]
fn string_to_spawn_mode_maps_random_fill() {
    assert_eq!(string_to_spawn_mode("random_fill").unwrap(), SpawnMode::RandomFill);
}

#[test]
fn string_to_spawn_mode_maps_inward_circle() {
    assert_eq!(string_to_spawn_mode("inward_circle").unwrap(), SpawnMode::InwardCircle);
}

#[test]
fn string_to_spawn_mode_rejects_unknown() {
    assert!(string_to_spawn_mode("unknown").is_err());
}

#[test]
fn string_to_spawn_mode_error_message() {
    assert_eq!(string_to_spawn_mode("Centre_Circle").unwrap_err(), "Unknown spawn mode: 'Centre_Circle'");
}

#[test]
fn spawn_mode_round_trip() {
    for m in [SpawnMode::CentreCircle, SpawnMode::RandomFill, SpawnMode::InwardCircle] {
        assert_eq!(string_to_spawn_mode(spawn_mode_to_string(m)).unwrap(), m);
    }
}

#[test]
fn default_food_fields() {
    assert_eq!(default_food_num_clumps(), 5);
    assert_eq!(val(default_food_clump_radius()), 30.0);
    assert_eq!(val(default_food_viz_weight()), 0.3);
    assert!(default_true());
}

#[test]
fn build_then_load_preserves_simulation_params() {
    let mut ui = UiState::default();
    ui.num_species = 2;
    ui.trail_weight = bits(7.5);
    ui.spawn_mode = SpawnMode::InwardCircle;
    ui.species[0].move_speed = bits(200.0);
    ui.species[1].colour = [bits(0.5), bits(0.6), bits(0.7)];

    let cfg = build_config("round-trip-test", "", &ui, 1);
    let loaded = ui_state_from_config(&cfg).unwrap();

    assert_eq!(loaded.num_species, 2);
    assert_eq!(val(loaded.trail_weight), 7.5);
    assert_eq!(loaded.spawn_mode, SpawnMode::InwardCircle);
    assert_eq!(val(loaded.species[0].move_speed), 200.0);
    assert_eq!(val(loaded.species[1].colour[1]), 0.6);
}

#[test]
fn build_then_load_preserves_food_params() {
    let mut ui = UiState::default();
    ui.food_weight = bits(0.07);
    ui.food_num_clumps = 12;
    ui.food_clump_radius = bits(45.5);
    ui.food_viz_weight = bits(0.8);
    ui.show_food = false;

    let cfg = build_config("food-round-trip", "", &ui, 1);
    let loaded = ui_state_from_config(&cfg).unwrap();

    assert_eq!(val(loaded.food_weight), 0.07);
    assert_eq!(loaded.food_num_clumps, 12);
    assert_eq!(val(loaded.food_clump_radius), 45.5);
    assert_eq!(val(loaded.food_viz_weight), 0.8);
    assert!(!loaded.show_food);
}

fn species(move_speed: f32) -> SpeciesConfig {
    SpeciesConfig {
        move_speed: bits(move_speed),
        turn_speed: bits(2.0),
        sensor_angle_deg: bits(30.0),
        sensor_offset: bits(35.0),
        sensor_size: 1,
        colour: ColourConfig { r: bits(1.0), g: bits(1.0), b: bits(1.0) },
    }
}

fn config_with(spawn_mode: &str, num_species: u32, species_list: Vec<SpeciesConfig>) -> ConfigFile {
    ConfigFile {
        version: 1,
        metadata: Metadata { title: "old config".to_string(), notes: String::new(), saved_at: "0".to_string() },
        simulation: SimulationConfig {
            trail_weight: bits(5.0),
            decay_rate: bits(0.3),
            diffuse_rate: bits(3.0),
            steps_per_frame: 1,
            spawn_mode: spawn_mode.to_string(),
            num_agents: 1000,
            num_species,
            species_list,
            food_weight: FloatBits(0),
            food_num_clumps: default_food_num_clumps(),
            food_clump_radius: default_food_clump_radius(),
            food_viz_weight: default_food_viz_weight(),
            show_food: default_true(),
        },
    }
}

#[test]
fn load_config_without_food_fields_uses_defaults() {
    let cfg = config_with("centre_circle", 1, vec![species(100.0)]);
    let loaded = ui_state_from_config(&cfg).unwrap();
    assert_eq!(val(loaded.food_weight), 0.0);
    assert_eq!(loaded.food_num_clumps, 5);
    assert_eq!(val(loaded.food_clump_radius), 30.0);
    assert_eq!(val(loaded.food_viz_weight), 0.3);
    assert!(loaded.show_food);
}

#[test]
fn load_caps_species_at_four_slots() {
    let list = vec![species(11.0), species(12.0), species(13.0), species(14.0), species(15.0)];
    let cfg = config_with("random_fill", 9, list);
    let loaded = ui_state_from_config(&cfg).unwrap();
    assert_eq!(loaded.num_species, 4);
    assert_eq!(val(loaded.species[3].move_speed), 14.0);
    assert_eq!(loaded.spawn_mode, SpawnMode::RandomFill);
}

#[test]
fn load_keeps_default_species_beyond_file() {
    let cfg = config_with("centre_circle", 2, vec![species(42.0)]);
    let loaded = ui_state_from_config(&cfg).unwrap();
    let defaults = UiState::default();
    assert_eq!(val(loaded.species[0].move_speed), 42.0);
    assert_eq!(loaded.species[1].colour, defaults.species[1].colour);
    assert_eq!(loaded.num_species, 2);
}

#[test]
fn load_rejects_unknown_spawn_mode() {
    let cfg = config_with("spiral", 1, vec![species(100.0)]);
    match ui_state_from_config(&cfg) {
        Err(msg) => assert_eq!(msg, "Unknown spawn mode: 'spiral'"),
        Ok(_) => panic!("unknown spawn mode accepted"),
    }
}

#[test]
fn xml_display_name_takes_stem_of_xml_files() {
    assert_eq!(xml_display_name("my-config-12.xml"), Some("my-config-12".to_string()));
    assert_eq!(xml_display_name("a.b.xml"), Some("a.b".to_string()));
    assert_eq!(xml_display_name(".xml"), None);
    assert_eq!(xml_display_name("notes.txt"), None);
    assert_eq!(xml_display_name("xml"), None);
    assert_eq!(xml_display_name("config.XML"), None);
}

#[test]
fn str_lt_is_lexicographic() {
    assert!(str_lt("a", "b"));
    assert!(str_lt("ab", "abc"));
    assert!(!str_lt("abc", "ab"));
    assert!(!str_lt("same", "same"));
    assert!(str_lt("Z", "a"));
}

#[test]
fn config_entries_sorted_greatest_first() {
    let names = ["alpha-100", "zeta-1", "alpha-200", "beta-5"];
    let entries: Vec<ConfigEntry> = names
        .iter()
        .map(|n| ConfigEntry { path: PathBuf::from(format!("configs/{n}.xml")), display_name: n.to_string() })
        .collect();
    let sorted = sort_config_entries(entries);
    let got: Vec<&str> = sorted.iter().map(|e| e.display_name.as_str()).collect();
    assert_eq!(got, vec!["zeta-1", "beta-5", "alpha-200", "alpha-100"]);
    assert_eq!(sorted[0].path, PathBuf::from("configs/zeta-1.xml"));
}

#[test]
fn config_entries_with_equal_names_keep_their_order() {
    let make = |p: &str, n: &str| ConfigEntry { path: PathBuf::from(p), display_name: n.to_string() };
    let sorted = sort_config_entries(vec![
        make("one/a.xml", "a"),
        make("x.xml", "x"),
        make("two/a.xml", "a"),
    ]);
    assert_eq!(sorted[0].display_name, "x");
    assert_eq!(sorted[1].path, PathBuf::from("one/a.xml"));
    assert_eq!(sorted[2].path, PathBuf::from("two/a.xml"));
}
