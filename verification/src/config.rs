use vstd::prelude::*;

use crate::spawn::{
    spawn_mode_name, spawn_mode_named, spawn_mode_to_string, string_to_spawn_mode,
    unknown_spawn_mode_message,
};
use crate::text::{decimal, u64_to_decimal};
use crate::ui::{default_species, FloatBits, SpeciesUi, UiState};

verus! {

#[verifier::external_type_specification]
#[verifier::external_body]
pub struct ExPathBuf(std::path::PathBuf);

/// A saved configuration offered in the load dialog.
pub struct ConfigEntry {
    pub path: std::path::PathBuf,
    pub display_name: String,
}

/// Colour of a species in a configuration file.
#[derive(Clone, Copy)]
pub struct ColourConfig {
    pub r: FloatBits,
    pub g: FloatBits,
    pub b: FloatBits,
}

/// Settings of one species in a configuration file.
#[derive(Clone, Copy)]
pub struct SpeciesConfig {
    pub move_speed: FloatBits,
    pub turn_speed: FloatBits,
    pub sensor_angle_deg: FloatBits,
    pub sensor_offset: FloatBits,
    pub sensor_size: i32,
    pub colour: ColourConfig,
}

/// Descriptive part of a configuration file.
pub struct Metadata {
    pub title: String,
    pub notes: String,
    pub saved_at: String,
}

/// Simulation part of a configuration file.
pub struct SimulationConfig {
    pub trail_weight: FloatBits,
    pub decay_rate: FloatBits,
    pub diffuse_rate: FloatBits,
    pub steps_per_frame: u32,
    pub spawn_mode: String,
    pub num_agents: u32,
    pub num_species: u32,
    pub species_list: Vec<SpeciesConfig>,
    pub food_weight: FloatBits,
    pub food_num_clumps: u32,
    pub food_clump_radius: FloatBits,
    pub food_viz_weight: FloatBits,
    pub show_food: bool,
}

/// A configuration file (`<slime_config version="1">`).
pub struct ConfigFile {
    pub version: u32,
    pub metadata: Metadata,
    pub simulation: SimulationConfig,
}

/// Number of clumps assumed when a file has no `food_num_clumps`.
pub fn default_food_num_clumps() -> (r: u32)
    ensures
        r == 5,
{
    5
}

/// Clump radius assumed when a file has no `food_clump_radius` (30.0).
pub fn default_food_clump_radius() -> (r: FloatBits)
    ensures
        r == FloatBits(0x41f0_0000),
{
    FloatBits(0x41f0_0000)
}

/// Food visibility assumed when a file has no `food_viz_weight` (0.3).
pub fn default_food_viz_weight() -> (r: FloatBits)
    ensures
        r == FloatBits(0x3e99_999a),
{
    FloatBits(0x3e99_999a)
}

/// `show_food` assumed when a file has none.
pub fn default_true() -> (r: bool)
    ensures
        r,
{
    true
}

/// Number of species slots of the control panel.
pub const SPECIES_SLOTS: u32 = 4;

/// The smaller of two counts.
pub open spec fn min_u32(a: u32, b: u32) -> u32 {
    if a <= b {
        a
    } else {
        b
    }
}

/// A species' panel settings as written to a file.
pub open spec fn species_to_config(s: SpeciesUi) -> SpeciesConfig {
    SpeciesConfig {
        move_speed: s.move_speed,
        turn_speed: s.turn_speed,
        sensor_angle_deg: s.sensor_angle_deg,
        sensor_offset: s.sensor_offset,
        sensor_size: s.sensor_size,
        colour: ColourConfig { r: s.colour[0], g: s.colour[1], b: s.colour[2] },
    }
}

/// A species read from a file as panel settings.
pub open spec fn species_from_config(c: SpeciesConfig) -> SpeciesUi {
    SpeciesUi {
        move_speed: c.move_speed,
        turn_speed: c.turn_speed,
        sensor_angle_deg: c.sensor_angle_deg,
        sensor_offset: c.sensor_offset,
        sensor_size: c.sensor_size,
        colour: [c.colour.r, c.colour.g, c.colour.b],
    }
}

/// `cfg` is the configuration file describing the panel `ui`, titled `title`
/// with `notes`, saved at `timestamp`: the active species (at most four) and
/// every simulation setting.
pub open spec fn describes(
    cfg: ConfigFile,
    title: Seq<char>,
    notes: Seq<char>,
    ui: UiState,
    timestamp: nat,
) -> bool {
    let count = min_u32(ui.num_species, SPECIES_SLOTS);
    let sim = cfg.simulation;
    &&& cfg.version == 1
    &&& cfg.metadata.title@ == title
    &&& cfg.metadata.notes@ == notes
    &&& cfg.metadata.saved_at@ == decimal(timestamp)
    &&& sim.trail_weight == ui.trail_weight
    &&& sim.decay_rate == ui.decay_rate
    &&& sim.diffuse_rate == ui.diffuse_rate
    &&& sim.steps_per_frame == ui.steps_per_frame
    &&& sim.spawn_mode@ == spawn_mode_name(ui.spawn_mode)
    &&& sim.num_agents == ui.num_agents
    &&& sim.num_species == count
    &&& sim.species_list@.len() == count
    &&& forall|i: int|
        0 <= i < count ==> #[trigger] sim.species_list@[i] == species_to_config(ui.species@[i])
    &&& sim.food_weight == ui.food_weight
    &&& sim.food_num_clumps == ui.food_num_clumps
    &&& sim.food_clump_radius == ui.food_clump_radius
    &&& sim.food_viz_weight == ui.food_viz_weight
    &&& sim.show_food == ui.show_food
}

/// Builds the configuration file for the panel `ui`: the active species
/// (never more than the four slots) and every simulation setting.
pub fn build_config(title: &str, notes: &str, ui: &UiState, timestamp: u64) -> (r: ConfigFile)
    ensures
        describes(r, title@, notes@, *ui, timestamp as nat),
        r.simulation.trail_weight == ui.trail_weight,
        r.simulation.decay_rate == ui.decay_rate,
        r.simulation.diffuse_rate == ui.diffuse_rate,
        r.simulation.steps_per_frame == ui.steps_per_frame,
        r.simulation.num_agents == ui.num_agents,
        r.simulation.food_weight == ui.food_weight,
        r.simulation.food_num_clumps == ui.food_num_clumps,
        r.simulation.food_clump_radius == ui.food_clump_radius,
        r.simulation.food_viz_weight == ui.food_viz_weight,
        r.simulation.show_food == ui.show_food,
{
    let species_count: u32 = if ui.num_species < SPECIES_SLOTS {
        ui.num_species
    } else {
        SPECIES_SLOTS
    };
    let mut species_list: Vec<SpeciesConfig> = Vec::new();
    let mut i: usize = 0;
    while i < species_count as usize
        invariant
            species_count <= 4,
            i <= species_count,
            species_list@.len() == i,
            forall|k: int|
                0 <= k < i ==> #[trigger] species_list@[k] == species_to_config(ui.species@[k]),
        decreases species_count - i,
    {
        let s = &ui.species[i];
        species_list.push(
            SpeciesConfig {
                move_speed: s.move_speed,
                turn_speed: s.turn_speed,
                sensor_angle_deg: s.sensor_angle_deg,
                sensor_offset: s.sensor_offset,
                sensor_size: s.sensor_size,
                colour: ColourConfig { r: s.colour[0], g: s.colour[1], b: s.colour[2] },
            },
        );
        i = i + 1;
    }
    ConfigFile {
        version: 1,
        metadata: Metadata {
            title: String::from_str(title),
            notes: String::from_str(notes),
            saved_at: u64_to_decimal(timestamp),
        },
        simulation: SimulationConfig {
            trail_weight: ui.trail_weight,
            decay_rate: ui.decay_rate,
            diffuse_rate: ui.diffuse_rate,
            steps_per_frame: ui.steps_per_frame,
            spawn_mode: String::from_str(spawn_mode_to_string(ui.spawn_mode)),
            num_agents: ui.num_agents,
            num_species: species_count,
            species_list,
            food_weight: ui.food_weight,
            food_num_clumps: ui.food_num_clumps,
            food_clump_radius: ui.food_clump_radius,
            food_viz_weight: ui.food_viz_weight,
            show_food: ui.show_food,
        },
    }
}

/// `ui` holds the settings read from `cfg`: every simulation setting, at most
/// four species (slots beyond the file's species keep their defaults), and a
/// fresh session.
pub open spec fn loaded_from(cfg: ConfigFile, ui: UiState) -> bool {
    let sim = cfg.simulation;
    let n = sim.species_list@.len();
    &&& spawn_mode_named(sim.spawn_mode@) == Some(ui.spawn_mode)
    &&& ui.trail_weight == sim.trail_weight
    &&& ui.decay_rate == sim.decay_rate
    &&& ui.diffuse_rate == sim.diffuse_rate
    &&& ui.steps_per_frame == sim.steps_per_frame
    &&& ui.num_agents == sim.num_agents
    &&& ui.num_species == min_u32(sim.num_species, SPECIES_SLOTS)
    &&& ui.food_weight == sim.food_weight
    &&& ui.food_num_clumps == sim.food_num_clumps
    &&& ui.food_clump_radius == sim.food_clump_radius
    &&& ui.food_viz_weight == sim.food_viz_weight
    &&& ui.show_food == sim.show_food
    &&& forall|i: int|
        0 <= i < 4 ==> #[trigger] ui.species@[i] == if i < n {
            species_from_config(sim.species_list@[i])
        } else {
            default_species(i)
        }
    &&& ui.has_fresh_session()
}

/// Turns a parsed configuration file into panel settings. Fails, with the
/// message of `string_to_spawn_mode`, exactly when the spawn mode is unknown.
pub fn ui_state_from_config(cfg: &ConfigFile) -> (r: Result<UiState, String>)
    ensures
        r matches Ok(ui) ==> {
            &&& ui.trail_weight == cfg.simulation.trail_weight
            &&& ui.decay_rate == cfg.simulation.decay_rate
            &&& ui.diffuse_rate == cfg.simulation.diffuse_rate
            &&& ui.steps_per_frame == cfg.simulation.steps_per_frame
            &&& ui.num_agents == cfg.simulation.num_agents
            &&& ui.food_weight == cfg.simulation.food_weight
            &&& ui.food_num_clumps == cfg.simulation.food_num_clumps
            &&& ui.food_clump_radius == cfg.simulation.food_clump_radius
            &&& ui.food_viz_weight == cfg.simulation.food_viz_weight
            &&& ui.show_food == cfg.simulation.show_food
            &&& !ui.save_dialog_open
            &&& !ui.load_dialog_open
        },
        match r {
            Ok(ui) => loaded_from(*cfg, ui),
            Err(msg) => spawn_mode_named(cfg.simulation.spawn_mode@) is None && msg@
                == unknown_spawn_mode_message(cfg.simulation.spawn_mode@),
        },
{
    let sim = &cfg.simulation;
    let spawn_mode = match string_to_spawn_mode(sim.spawn_mode.as_str()) {
        Ok(m) => m,
        Err(e) => {
            return Err(e);
        },
    };
    let mut ui = UiState::default();
    ui.trail_weight = sim.trail_weight;
    ui.decay_rate = sim.decay_rate;
    ui.diffuse_rate = sim.diffuse_rate;
    ui.steps_per_frame = sim.steps_per_frame;
    ui.spawn_mode = spawn_mode;
    ui.num_agents = sim.num_agents;
    ui.num_species = if sim.num_species < SPECIES_SLOTS {
        sim.num_species
    } else {
        SPECIES_SLOTS
    };
    ui.food_weight = sim.food_weight;
    ui.food_num_clumps = sim.food_num_clumps;
    ui.food_clump_radius = sim.food_clump_radius;
    ui.food_viz_weight = sim.food_viz_weight;
    ui.show_food = sim.show_food;

    let n = sim.species_list.len();
    let mut i: usize = 0;
    while i < n && i < 4
        invariant
            n == sim.species_list@.len(),
            i <= 4,
            i <= n,
            spawn_mode_named(sim.spawn_mode@) == Some(ui.spawn_mode),
            ui.trail_weight == sim.trail_weight,
            ui.decay_rate == sim.decay_rate,
            ui.diffuse_rate == sim.diffuse_rate,
            ui.steps_per_frame == sim.steps_per_frame,
            ui.num_agents == sim.num_agents,
            ui.num_species == min_u32(sim.num_species, SPECIES_SLOTS),
            ui.food_weight == sim.food_weight,
            ui.food_num_clumps == sim.food_num_clumps,
            ui.food_clump_radius == sim.food_clump_radius,
            ui.food_viz_weight == sim.food_viz_weight,
            ui.show_food == sim.show_food,
            ui.has_fresh_session(),
            forall|k: int|
                0 <= k < 4 ==> #[trigger] ui.species@[k] == if k < i {
                    species_from_config(sim.species_list@[k])
                } else {
                    default_species(k)
                },
        decreases 4 - i,
    {
        let sc = &sim.species_list[i];
        ui.species[i] = SpeciesUi {
            move_speed: sc.move_speed,
            turn_speed: sc.turn_speed,
            sensor_angle_deg: sc.sensor_angle_deg,
            sensor_offset: sc.sensor_offset,
            sensor_size: sc.sensor_size,
            colour: [sc.colour.r, sc.colour.g, sc.colour.b],
        };
        i = i + 1;
    }
    Ok(ui)
}

/// Loading reads each panel setting from the file field of the same name,
/// and the panel comes up with no dialog open and nothing requested.
pub proof fn lemma_load_reads_fields_by_name(cfg: ConfigFile, ui: UiState)
    requires
        loaded_from(cfg, ui),
    ensures
        ui.trail_weight == cfg.simulation.trail_weight,
        ui.decay_rate == cfg.simulation.decay_rate,
        ui.diffuse_rate == cfg.simulation.diffuse_rate,
        ui.steps_per_frame == cfg.simulation.steps_per_frame,
        ui.num_agents == cfg.simulation.num_agents,
        ui.food_weight == cfg.simulation.food_weight,
        ui.food_num_clumps == cfg.simulation.food_num_clumps,
        ui.food_clump_radius == cfg.simulation.food_clump_radius,
        ui.food_viz_weight == cfg.simulation.food_viz_weight,
        ui.show_food == cfg.simulation.show_food,
        !ui.save_dialog_open,
        !ui.load_dialog_open,
        !ui.reset_requested,
        !ui.food_regen_requested,
        forall|i: int|
            0 <= i < cfg.simulation.species_list@.len() && i < 4 ==> {
                let s = #[trigger] ui.species@[i];
                let c = cfg.simulation.species_list@[i];
                &&& s.move_speed == c.move_speed
                &&& s.turn_speed == c.turn_speed
                &&& s.sensor_angle_deg == c.sensor_angle_deg
                &&& s.sensor_offset == c.sensor_offset
                &&& s.sensor_size == c.sensor_size
                &&& s.colour[0] == c.colour.r
                &&& s.colour[1] == c.colour.g
                &&& s.colour[2] == c.colour.b
            },
{
}

/// Saving writes each panel setting into the file field of the same name.
pub proof fn lemma_save_writes_fields_by_name(
    cfg: ConfigFile,
    title: Seq<char>,
    notes: Seq<char>,
    ui: UiState,
    timestamp: nat,
)
    requires
        describes(cfg, title, notes, ui, timestamp),
    ensures
        cfg.simulation.trail_weight == ui.trail_weight,
        cfg.simulation.decay_rate == ui.decay_rate,
        cfg.simulation.diffuse_rate == ui.diffuse_rate,
        cfg.simulation.steps_per_frame == ui.steps_per_frame,
        cfg.simulation.num_agents == ui.num_agents,
        cfg.simulation.food_weight == ui.food_weight,
        cfg.simulation.food_num_clumps == ui.food_num_clumps,
        cfg.simulation.food_clump_radius == ui.food_clump_radius,
        cfg.simulation.food_viz_weight == ui.food_viz_weight,
        cfg.simulation.show_food == ui.show_food,
        cfg.metadata.title@ == title,
        cfg.metadata.notes@ == notes,
        forall|i: int|
            0 <= i < cfg.simulation.species_list@.len() ==> {
                let c = #[trigger] cfg.simulation.species_list@[i];
                let s = ui.species@[i];
                &&& c.move_speed == s.move_speed
                &&& c.turn_speed == s.turn_speed
                &&& c.sensor_angle_deg == s.sensor_angle_deg
                &&& c.sensor_offset == s.sensor_offset
                &&& c.sensor_size == s.sensor_size
                &&& c.colour.r == s.colour[0]
                &&& c.colour.g == s.colour[1]
                &&& c.colour.b == s.colour[2]
            },
{
}

/// Saving then loading gives back the settings: reading the file that
/// describes a panel succeeds and restores every simulation setting, the
/// species count (capped at the four slots) and each active species.
pub proof fn lemma_config_round_trip(
    cfg: ConfigFile,
    title: Seq<char>,
    notes: Seq<char>,
    ui: UiState,
    timestamp: nat,
    loaded: UiState,
)
    requires
        describes(cfg, title, notes, ui, timestamp),
    ensures
        spawn_mode_named(cfg.simulation.spawn_mode@) == Some(ui.spawn_mode),
        loaded_from(cfg, loaded) ==> {
            &&& loaded.spawn_mode == ui.spawn_mode
            &&& loaded.trail_weight == ui.trail_weight
            &&& loaded.decay_rate == ui.decay_rate
            &&& loaded.diffuse_rate == ui.diffuse_rate
            &&& loaded.steps_per_frame == ui.steps_per_frame
            &&& loaded.num_agents == ui.num_agents
            &&& loaded.num_species == min_u32(ui.num_species, SPECIES_SLOTS)
            &&& forall|i: int|
                0 <= i < min_u32(ui.num_species, SPECIES_SLOTS) ==> #[trigger] loaded.species@[i]
                    == ui.species@[i]
            &&& loaded.food_weight == ui.food_weight
            &&& loaded.food_num_clumps == ui.food_num_clumps
            &&& loaded.food_clump_radius == ui.food_clump_radius
            &&& loaded.food_viz_weight == ui.food_viz_weight
            &&& loaded.show_food == ui.show_food
        },
{
    crate::spawn::lemma_spawn_mode_name_round_trip(ui.spawn_mode, cfg.simulation.spawn_mode@);
    if loaded_from(cfg, loaded) {
        crate::spawn::lemma_spawn_mode_name_round_trip(loaded.spawn_mode, cfg.simulation.spawn_mode@);
        assert forall|i: int|
            0 <= i < min_u32(ui.num_species, SPECIES_SLOTS) implies #[trigger] loaded.species@[i]
            == ui.species@[i] by {
            let s = ui.species@[i];
            assert(cfg.simulation.species_list@[i] == species_to_config(s));
            assert(loaded.species@[i] == species_from_config(species_to_config(s)));
            let back = species_from_config(species_to_config(s));
            assert(back.colour =~= s.colour) by {
                broadcast use vstd::array::group_array_axioms;
            }
            assert(back == s);
        }
    }
}

} // verus!
