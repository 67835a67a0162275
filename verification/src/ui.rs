use vstd::prelude::*;

use crate::config::ConfigEntry;
use crate::spawn::SpawnMode;
use crate::text::{concat_str, seq_starts_with, str_starts_with};

verus! {

/// A 32-bit floating-point setting, carried by its IEEE-754 bit pattern.
/// The library stores, copies and compares these values but never computes
/// with them; the application turns them into `f32` and back with
/// `f32::from_bits` / `f32::to_bits`.
#[derive(Clone, Copy, Debug, PartialEq, Eq, Structural)]
pub struct FloatBits(pub u32);

impl FloatBits {
    /// Whether the value is greater than zero: the sign bit is clear, the bit
    /// pattern is not that of `+0.0`, and it is not a NaN (whose exponent
    /// bits are all set with a non-zero fraction, above `0x7f80_0000`).
    pub open spec fn spec_is_positive(self) -> bool {
        0 < self.0 <= 0x7f80_0000
    }

    /// Whether the value is greater than zero (`x > 0.0`).
    pub fn is_positive(&self) -> (r: bool)
        ensures
            r == self.spec_is_positive(),
    {
        0 < self.0 && self.0 <= 0x7f80_0000
    }
}

/// The `FloatBits` of `+0.0`.
pub open spec fn zero_bits() -> FloatBits {
    FloatBits(0)
}

/// The control-panel settings of one species.
#[derive(Clone, Copy)]
pub struct SpeciesUi {
    pub move_speed: FloatBits,
    pub turn_speed: FloatBits,
    pub sensor_angle_deg: FloatBits,
    pub sensor_offset: FloatBits,
    pub sensor_size: i32,
    pub colour: [FloatBits; 3],
}

/// The state of the control panel: simulation settings, dialog state and
/// requests that the frame loop picks up.
pub struct UiState {
    pub num_species: u32,
    pub species: [SpeciesUi; 4],
    pub trail_weight: FloatBits,
    pub decay_rate: FloatBits,
    pub diffuse_rate: FloatBits,
    pub steps_per_frame: u32,
    pub spawn_mode: SpawnMode,
    pub reset_requested: bool,
    pub num_agents: u32,
    pub paused: bool,
    pub fps: FloatBits,
    pub panel_open: bool,
    pub panel_width_points: FloatBits,
    pub save_dialog_open: bool,
    pub save_title: String,
    pub save_notes: String,
    pub save_status: Option<String>,
    pub load_dialog_open: bool,
    pub available_configs: Vec<ConfigEntry>,
    pub selected_config_index: Option<usize>,
    pub load_status: Option<String>,
    pub food_weight: FloatBits,
    pub food_num_clumps: u32,
    pub food_clump_radius: FloatBits,
    pub food_viz_weight: FloatBits,
    pub show_food: bool,
    pub food_regen_requested: bool,
    pub food_seed: u32,
}

/// Default motion and sensing of every species, with the given colour.
pub open spec fn species_with_colour(r: u32, g: u32, b: u32) -> SpeciesUi {
    SpeciesUi {
        move_speed: FloatBits(0x42c8_0000),  // 100.0
        turn_speed: FloatBits(0x4000_0000),  // 2.0
        sensor_angle_deg: FloatBits(0x41f0_0000),  // 30.0
        sensor_offset: FloatBits(0x420c_0000),  // 35.0
        sensor_size: 1,
        colour: [FloatBits(r), FloatBits(g), FloatBits(b)],
    }
}

/// The default settings of species slot `i`: white, then the first three
/// colours of the Tableau 10 palette.
pub open spec fn default_species(i: int) -> SpeciesUi {
    if i == 0 {
        // 1.0, 1.0, 1.0
        species_with_colour(0x3f80_0000, 0x3f80_0000, 0x3f80_0000)
    } else if i == 1 {
        // 0.306, 0.475, 0.655
        species_with_colour(0x3e9c_ac08, 0x3ef3_3333, 0x3f27_ae14)
    } else if i == 2 {
        // 0.949, 0.557, 0.169
        species_with_colour(0x3f72_f1aa, 0x3f0e_978d, 0x3e2d_0e56)
    } else {
        // 0.882, 0.341, 0.349
        species_with_colour(0x3f61_cac1, 0x3eae_978d, 0x3eb2_b021)
    }
}

impl UiState {
    /// The simulation settings are those of a fresh panel.
    pub open spec fn has_default_settings(&self) -> bool {
        &&& self.num_species == 1
        &&& forall|i: int| 0 <= i < 4 ==> #[trigger] self.species@[i] == default_species(i)
        &&& self.trail_weight == FloatBits(0x40a0_0000)  // 5.0
        &&& self.decay_rate == FloatBits(0x3e99_999a)  // 0.3
        &&& self.diffuse_rate == FloatBits(0x4040_0000)  // 3.0
        &&& self.steps_per_frame == 1
        &&& self.spawn_mode == SpawnMode::CentreCircle
        &&& self.num_agents == 250_000
        &&& self.food_weight == zero_bits()
        &&& self.food_num_clumps == 5
        &&& self.food_clump_radius == FloatBits(0x41f0_0000)  // 30.0
        &&& self.food_viz_weight == FloatBits(0x3e99_999a)  // 0.3
        &&& self.show_food
    }

    /// Everything that is not a simulation setting is as on start-up: no
    /// request pending, no dialog open, no status, panel open, seed 42.
    pub open spec fn has_fresh_session(&self) -> bool {
        &&& !self.reset_requested
        &&& !self.paused
        &&& self.fps == zero_bits()
        &&& self.panel_open
        &&& self.panel_width_points == zero_bits()
        &&& !self.save_dialog_open
        &&& self.save_title@ == Seq::<char>::empty()
        &&& self.save_notes@ == Seq::<char>::empty()
        &&& self.save_status is None
        &&& !self.load_dialog_open
        &&& self.available_configs@ == Seq::<ConfigEntry>::empty()
        &&& self.selected_config_index is None
        &&& self.load_status is None
        &&& !self.food_regen_requested
        &&& self.food_seed == 42
    }
}

/// A panel in a fresh session has no dialog open, no request pending, no
/// status line, no configuration offered or selected, and is shown unpaused.
pub proof fn lemma_fresh_session_has_nothing_open(ui: UiState)
    requires
        ui.has_fresh_session(),
    ensures
        !ui.save_dialog_open,
        !ui.load_dialog_open,
        !ui.reset_requested,
        !ui.food_regen_requested,
        !ui.paused,
        ui.panel_open,
        ui.save_status is None,
        ui.load_status is None,
        ui.selected_config_index is None,
        ui.available_configs@.len() == 0,
{
}

impl Default for UiState {
    fn default() -> (r: Self)
        ensures
            r.has_default_settings(),
            r.has_fresh_session(),
            !r.save_dialog_open,
            !r.load_dialog_open,
            !r.reset_requested,
            !r.food_regen_requested,
            !r.paused,
            r.panel_open,
            r.save_status is None,
            r.load_status is None,
            r.selected_config_index is None,
            r.available_configs@.len() == 0,
            r.num_species == 1,
            r.steps_per_frame == 1,
            r.num_agents == 250_000,
            r.food_num_clumps == 5,
            r.food_seed == 42,
            r.show_food,
    {
        let r = UiState {
            num_species: 1,
            species: [
                SpeciesUi {
                    move_speed: FloatBits(0x42c8_0000),
                    turn_speed: FloatBits(0x4000_0000),
                    sensor_angle_deg: FloatBits(0x41f0_0000),
                    sensor_offset: FloatBits(0x420c_0000),
                    sensor_size: 1,
                    colour: [FloatBits(0x3f80_0000), FloatBits(0x3f80_0000), FloatBits(0x3f80_0000)],
                },
                SpeciesUi {
                    move_speed: FloatBits(0x42c8_0000),
                    turn_speed: FloatBits(0x4000_0000),
                    sensor_angle_deg: FloatBits(0x41f0_0000),
                    sensor_offset: FloatBits(0x420c_0000),
                    sensor_size: 1,
                    colour: [FloatBits(0x3e9c_ac08), FloatBits(0x3ef3_3333), FloatBits(0x3f27_ae14)],
                },
                SpeciesUi {
                    move_speed: FloatBits(0x42c8_0000),
                    turn_speed: FloatBits(0x4000_0000),
                    sensor_angle_deg: FloatBits(0x41f0_0000),
                    sensor_offset: FloatBits(0x420c_0000),
                    sensor_size: 1,
                    colour: [FloatBits(0x3f72_f1aa), FloatBits(0x3f0e_978d), FloatBits(0x3e2d_0e56)],
                },
                SpeciesUi {
                    move_speed: FloatBits(0x42c8_0000),
                    turn_speed: FloatBits(0x4000_0000),
                    sensor_angle_deg: FloatBits(0x41f0_0000),
                    sensor_offset: FloatBits(0x420c_0000),
                    sensor_size: 1,
                    colour: [FloatBits(0x3f61_cac1), FloatBits(0x3eae_978d), FloatBits(0x3eb2_b021)],
                },
            ],
            trail_weight: FloatBits(0x40a0_0000),
            decay_rate: FloatBits(0x3e99_999a),
            diffuse_rate: FloatBits(0x4040_0000),
            steps_per_frame: 1,
            spawn_mode: SpawnMode::CentreCircle,
            reset_requested: false,
            num_agents: 250_000,
            paused: false,
            fps: FloatBits(0),
            panel_open: true,
            panel_width_points: FloatBits(0),
            save_dialog_open: false,
            save_title: String::new(),
            save_notes: String::new(),
            save_status: None,
            load_dialog_open: false,
            available_configs: Vec::new(),
            selected_config_index: None,
            load_status: None,
            food_weight: FloatBits(0),
            food_num_clumps: 5,
            food_clump_radius: FloatBits(0x41f0_0000),
            food_viz_weight: FloatBits(0x3e99_999a),
            show_food: true,
            food_regen_requested: false,
            food_seed: 42,
        };
        assert(r.species@[0] == default_species(0));
        assert(r.species@[1] == default_species(1));
        assert(r.species@[2] == default_species(2));
        assert(r.species@[3] == default_species(3));
        r
    }
}

/// What the frame loop must do for the requests raised in the panel since
/// the last frame.
pub struct FrameRequests {
    /// Re-create the agents and clear the trails.
    pub reset: bool,
    /// After the reset, upload a freshly generated food map.
    pub upload_food_after_reset: bool,
    /// Generate and upload a new food map.
    pub regenerate_food: bool,
}

/// A status line is shown as an error when it starts with `Error:`.
pub open spec fn is_error_status(status: Seq<char>) -> bool {
    seq_starts_with(status, "Error:"@)
}

/// The status lines the panel writes are told apart by their start: a
/// failed save or load ("Error: ...") is an error, a successful save
/// ("Saved configuration: ...") or load ("Loaded: ...") is not, whatever
/// follows.
pub proof fn lemma_status_lines(name: Seq<char>, path: Seq<char>, err: Seq<char>)
    ensures
        is_error_status("Error: "@ + err),
        !is_error_status("Loaded: "@ + name),
        !is_error_status("Saved configuration: "@ + path),
{
    reveal_strlit("Error:");
    reveal_strlit("Error: ");
    reveal_strlit("Loaded: ");
    reveal_strlit("Saved configuration: ");
    let e = "Error: "@ + err;
    assert(e.subrange(0, 6) =~= "Error:"@);
    let l = "Loaded: "@ + name;
    assert(l.subrange(0, 6)[0] == 'L');
    let s = "Saved configuration: "@ + path;
    assert(s.subrange(0, 6)[0] == 'S');
}

/// Whether a status line reports an error.
pub fn status_is_error(status: &str) -> (r: bool)
    ensures
        r == is_error_status(status@),
        r == (status@.len() >= 6 && status@.subrange(0, 6) == "Error:"@),
{
    proof {
        reveal_strlit("Error:");
    }
    str_starts_with(status, "Error:")
}

impl UiState {
    /// Takes the reset and food-regeneration requests, clearing them. The
    /// food map is uploaded after a reset only when food has a positive
    /// weight.
    pub fn take_frame_requests(&mut self) -> (r: FrameRequests)
        ensures
            r.reset == old(self).reset_requested,
            r.upload_food_after_reset == (old(self).reset_requested
                && old(self).food_weight.spec_is_positive()),
            r.regenerate_food == old(self).food_regen_requested,
            *final(self) == (UiState {
                reset_requested: false,
                food_regen_requested: false,
                ..*old(self)
            }),
    {
        let reset = self.reset_requested;
        let upload_food_after_reset = reset && self.food_weight.is_positive();
        let regenerate_food = self.food_regen_requested;
        self.reset_requested = false;
        self.food_regen_requested = false;
        FrameRequests { reset, upload_food_after_reset, regenerate_food }
    }

    /// The weight the colour pass gives the food map: none while it is hidden.
    pub fn visible_food_weight(&self) -> (r: FloatBits)
        ensures
            r == if self.show_food {
                self.food_viz_weight
            } else {
                zero_bits()
            },
    {
        if self.show_food {
            self.food_viz_weight
        } else {
            FloatBits(0)
        }
    }

    /// How many simulation steps this frame runs: none while paused.
    pub fn steps_this_frame(&self) -> (r: u32)
        ensures
            r == if self.paused {
                0
            } else {
                self.steps_per_frame
            },
    {
        if self.paused {
            0
        } else {
            self.steps_per_frame
        }
    }

    /// "Regenerate Food": moves to the next food seed (wrapping around) and
    /// asks for a new food map.
    pub fn request_food_regeneration(&mut self)
        ensures
            *final(self) == (UiState {
                food_seed: old(self).food_seed.wrapping_add(1),
                food_regen_requested: true,
                ..*old(self)
            }),
    {
        self.food_seed = self.food_seed.wrapping_add(1);
        self.food_regen_requested = true;
    }

    /// "Load Configuration": offers `configs`, with none selected.
    pub fn open_load_dialog(&mut self, configs: Vec<ConfigEntry>)
        ensures
            *final(self) == (UiState {
                available_configs: configs,
                selected_config_index: None,
                load_dialog_open: true,
                ..*old(self)
            }),
    {
        self.available_configs = configs;
        self.selected_config_index = None;
        self.load_dialog_open = true;
    }

    /// A palette preset: species slot `i` takes colour `i` of the palette.
    pub fn apply_palette(&mut self, colours: &[[FloatBits; 3]; 4])
        ensures
            forall|i: int|
                0 <= i < 4 ==> #[trigger] final(self).species@[i] == (SpeciesUi {
                    colour: colours@[i],
                    ..old(self).species@[i]
                }),
            *final(self) == (UiState { species: final(self).species, ..*old(self) }),
    {
        let mut i: usize = 0;
        while i < 4
            invariant
                i <= 4,
                forall|k: int|
                    0 <= k < 4 ==> #[trigger] self.species@[k] == if k < i {
                        SpeciesUi { colour: colours@[k], ..old(self).species@[k] }
                    } else {
                        old(self).species@[k]
                    },
                *self == (UiState { species: self.species, ..*old(self) }),
            decreases 4 - i,
        {
            self.species[i].colour = colours[i];
            i = i + 1;
        }
    }

    /// Records the outcome of saving: the file written (`Ok`, as displayed),
    /// or the error. Returns whether the save dialog closes, which it does
    /// only after a successful save.
    pub fn record_save_outcome(&mut self, outcome: Result<String, String>) -> (close: bool)
        ensures
            close == outcome is Ok,
            match outcome {
                Ok(path) => final(self).save_status matches Some(s) && s@
                    == "Saved configuration: "@ + path@,
                Err(err) => final(self).save_status matches Some(s) && s@ == "Error: "@ + err@,
            },
            *final(self) == (UiState { save_status: final(self).save_status, ..*old(self) }),
    {
        match outcome {
            Ok(path) => {
                self.save_status = Some(concat_str("Saved configuration: ", path.as_str()));
                true
            },
            Err(err) => {
                self.save_status = Some(concat_str("Error: ", err.as_str()));
                false
            },
        }
    }

    /// Records a configuration that could not be loaded.
    pub fn record_load_error(&mut self, err: &str)
        ensures
            final(self).load_status matches Some(s) && s@ == "Error: "@ + err@,
            *final(self) == (UiState { load_status: final(self).load_status, ..*old(self) }),
    {
        self.load_status = Some(concat_str("Error: ", err));
    }

    /// Replaces the panel by a loaded configuration named `name`, keeping how
    /// the panel is shown (open, width, frame rate, paused) and asking for a
    /// reset so the simulation starts from the loaded settings.
    pub fn apply_loaded_config(&mut self, loaded: UiState, name: &str)
        ensures
            final(self).load_status matches Some(s) && s@ == "Loaded: "@ + name@,
            *final(self) == (UiState {
                panel_open: old(self).panel_open,
                panel_width_points: old(self).panel_width_points,
                fps: old(self).fps,
                paused: old(self).paused,
                reset_requested: true,
                load_status: final(self).load_status,
                ..loaded
            }),
    {
        let panel_open = self.panel_open;
        let panel_width_points = self.panel_width_points;
        let fps = self.fps;
        let paused = self.paused;
        *self = loaded;
        self.panel_open = panel_open;
        self.panel_width_points = panel_width_points;
        self.fps = fps;
        self.paused = paused;
        self.reset_requested = true;
        self.load_status = Some(concat_str("Loaded: ", name));
    }
}

} // verus!
