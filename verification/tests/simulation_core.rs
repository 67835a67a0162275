use slime_sim::hash::hash_u32;
use slime_sim::schedule::{workgroups, SimulationCore};
use slime_sim::seeds::{agent_seeds, clump_seeds};
use slime_sim::text::{trim, u64_to_decimal};

#[test]
fn hash_u32_of_0() {
    assert_eq!(hash_u32(0), 129708002);
}

#[test]
fn hash_u32_of_1() {
    assert_eq!(hash_u32(1), 2831084092);
}

#[test]
fn hash_u32_of_7() {
    assert_eq!(hash_u32(7), 2120684060);
}

#[test]
fn hash_u32_of_42() {
    assert_eq!(hash_u32(42), 1223963391);
}

#[test]
fn hash_u32_of_123456789() {
    assert_eq!(hash_u32(123456789), 4272394698);
}

#[test]
fn hash_u32_of_max() {
    assert_eq!(hash_u32(u32::MAX), 3861530882);
}

#[test]
fn agent_seeds_are_deterministic_and_cycle_species() {
    let first = agent_seeds(512, 3);
    let second = agent_seeds(512, 3);
    assert_eq!(first.len(), 512);
    assert_eq!(first, second);
    for (i, s) in first.iter().enumerate() {
        let i = i as u32;
        assert_eq!(s.species_index, i % 3);
        assert_eq!(s.h1, hash_u32(i * 3 + 7));
        assert_eq!(s.h2, hash_u32(i * 5 + 13));
    }
}

#[test]
fn agent_seeds_empty() {
    assert!(agent_seeds(0, 0).is_empty());
}

#[test]
fn clump_seeds_follow_seed() {
    let c = clump_seeds(99, 3);
    assert_eq!(c.len(), 3);
    assert_eq!(c[0], (hash_u32(99), hash_u32(100)));
    assert_eq!(c[2], (hash_u32(103), hash_u32(104)));
    assert_eq!(c, clump_seeds(99, 3));
    assert_ne!(clump_seeds(1, 3), clump_seeds(2, 3));
}

#[test]
fn clump_seeds_wrap_around() {
    let c = clump_seeds(u32::MAX, 2);
    assert_eq!(c[0], (hash_u32(u32::MAX), hash_u32(0)));
    assert_eq!(c[1], (hash_u32(1), hash_u32(2)));
}

#[test]
fn workgroups_round_up() {
    assert_eq!(workgroups(0, 256), 0);
    assert_eq!(workgroups(1, 256), 1);
    assert_eq!(workgroups(256, 256), 1);
    assert_eq!(workgroups(257, 256), 2);
    assert_eq!(workgroups(250_000, 256), 977);
    assert_eq!(workgroups(u32::MAX, 8), 536_870_912);
    assert_eq!(workgroups(u32::MAX, 1), u32::MAX);
}

#[test]
fn step_ping_pongs_trails() {
    let mut core = SimulationCore::new(1280, 720, 250_000);
    assert_eq!(core.trail_idx(), 0);
    let p1 = core.step();
    assert_eq!(p1.update_bind_group, 0);
    assert_eq!(p1.diffuse_bind_group, 1);
    assert_eq!(p1.agent_workgroups, 977);
    assert_eq!(p1.pixel_workgroups_x, 160);
    assert_eq!(p1.pixel_workgroups_y, 90);
    assert_eq!(core.trail_idx(), 1);
    let r = core.render();
    assert_eq!(r.colour_bind_group, 0);
    let p2 = core.step();
    assert_eq!(p2.update_bind_group, 1);
    assert_eq!(p2.diffuse_bind_group, 0);
    assert_eq!(core.trail_idx(), 0);
    assert_eq!(core.render().colour_bind_group, 1);
}

#[test]
fn reset_restarts_trails() {
    let mut core = SimulationCore::new(64, 64, 10);
    core.step();
    core.reset(1000);
    assert_eq!(core.trail_idx(), 0);
    assert_eq!(core.num_agents(), 1000);
    assert_eq!(core.width(), 64);
    assert_eq!(core.step().agent_workgroups, 4);
}

#[test]
fn trim_removes_unicode_white_space() {
    assert_eq!(trim("  a b \t"), "a b");
    assert_eq!(trim("\u{3000}\u{a0}x\u{2028}"), "x");
    assert_eq!(trim("   "), "");
    assert_eq!(trim(""), "");
    for s in ["  a b \t", "\u{85}z\u{200a}", "\u{200b}q", "x\u{1680}"] {
        assert_eq!(trim(s), s.trim());
    }
}

#[test]
fn decimal_matches_to_string() {
    for n in [0u64, 9, 10, 99, 100, 1_700_000_000, u64::MAX] {
        assert_eq!(u64_to_decimal(n), n.to_string());
    }
}
