use vstd::prelude::*;

use crate::hash::{hash_u32, spec_hash_u32};

verus! {

/// The deterministic inputs from which agent `i` is placed: its species and
/// two hashes that the application scales to angles, radii and positions.
#[derive(Clone, Copy, Debug, PartialEq, Eq, Structural)]
pub struct AgentSeed {
    pub species_index: u32,
    pub h1: u32,
    pub h2: u32,
}

/// The seed of agent `i` when species take turns among `num_species`.
pub open spec fn spec_agent_seed(i: u32, num_species: u32) -> AgentSeed {
    AgentSeed {
        species_index: i % num_species,
        h1: spec_hash_u32((i * 3 + 7) as u32),
        h2: spec_hash_u32((i * 5 + 13) as u32),
    }
}

/// Whether `i * 3 + 7` and `i * 5 + 13` fit in 32 bits for every agent index
/// `i < num` (beyond that the index arithmetic overflows).
pub open spec fn agent_count_in_range(num: u32) -> bool {
    num == 0 || (num - 1) * 5 + 13 <= u32::MAX
}

/// Whether `agent_seeds` can seed `num` agents without overflow.
pub fn agent_count_fits(num: u32) -> (r: bool)
    ensures
        r == agent_count_in_range(num),
{
    num == 0 || (num - 1) as u64 * 5 + 13 <= u32::MAX as u64
}

/// The seeds of `num` agents: species assigned in turn, hashes of
/// `3i + 7` and `5i + 13`.
pub fn agent_seeds(num: u32, num_species: u32) -> (r: Vec<AgentSeed>)
    requires
        num == 0 || num_species > 0,
        agent_count_in_range(num),
    ensures
        r@.len() == num,
        forall|i: int| 0 <= i < num ==> #[trigger] r@[i] == spec_agent_seed(i as u32, num_species),
        forall|i: int|
            0 <= i < num ==> {
                &&& (#[trigger] r@[i]).species_index == i % (num_species as int)
                &&& r@[i].h1 == spec_hash_u32((3 * i + 7) as u32)
                &&& r@[i].h2 == spec_hash_u32((5 * i + 13) as u32)
            },
{
    let mut r: Vec<AgentSeed> = Vec::new();
    let mut i: u32 = 0;
    while i < num
        invariant
            i <= num,
            num == 0 || num_species > 0,
            agent_count_in_range(num),
            r@.len() == i,
            forall|k: int| 0 <= k < i ==> #[trigger] r@[k] == spec_agent_seed(k as u32, num_species),
        decreases num - i,
    {
        let seed = AgentSeed {
            species_index: i % num_species,
            h1: hash_u32(i * 3 + 7),
            h2: hash_u32(i * 5 + 13),
        };
        r.push(seed);
        i = i + 1;
    }
    r
}

/// Whether `i * 2 + 1` fits in 32 bits for every clump index `i < num_clumps`.
pub open spec fn clump_count_in_range(num_clumps: u32) -> bool {
    num_clumps == 0 || (num_clumps - 1) * 2 + 1 <= u32::MAX
}

/// Whether `clump_seeds` can seed `num_clumps` clumps without overflow.
pub fn clump_count_fits(num_clumps: u32) -> (r: bool)
    ensures
        r == clump_count_in_range(num_clumps),
{
    num_clumps == 0 || (num_clumps - 1) as u64 * 2 + 1 <= u32::MAX as u64
}

/// Agent `i` is seeded from its own index: its species is `i` modulo the
/// number of species and its hashes are those of `3i + 7` and `5i + 13`,
/// computed without wrapping, so different agents hash different inputs.
pub proof fn lemma_agent_seed_uses_full_index(num: u32, num_species: u32, seeds: Seq<AgentSeed>)
    requires
        num_species > 0,
        agent_count_in_range(num),
        seeds.len() == num,
        forall|i: int| 0 <= i < num ==> #[trigger] seeds[i] == spec_agent_seed(i as u32, num_species),
    ensures
        forall|i: int|
            0 <= i < num ==> {
                &&& (#[trigger] seeds[i]).species_index == i % (num_species as int)
                &&& seeds[i].h1 == spec_hash_u32((3 * i + 7) as u32)
                &&& seeds[i].h2 == spec_hash_u32((5 * i + 13) as u32)
                &&& 3 * i + 7 <= u32::MAX
                &&& 5 * i + 13 <= u32::MAX
            },
        forall|i: int, k: int|
            #![trigger seeds[i], seeds[k]]
            0 <= i < k < num ==> (3 * i + 7) as u32 != (3 * k + 7) as u32 && (5 * i + 13) as u32
                != (5 * k + 13) as u32,
{
}

/// The two hashes from which food clump `i` is centred, for `seed`.
pub open spec fn spec_clump_seed(seed: u32, i: u32) -> (u32, u32) {
    (
        spec_hash_u32(seed.wrapping_add((i * 2) as u32)),
        spec_hash_u32(seed.wrapping_add((i * 2 + 1) as u32)),
    )
}

/// The centre hashes of `num_clumps` food clumps: clump `i` hashes
/// `seed + 2i` and `seed + 2i + 1`, the sums wrapping around.
pub fn clump_seeds(seed: u32, num_clumps: u32) -> (r: Vec<(u32, u32)>)
    requires
        clump_count_in_range(num_clumps),
    ensures
        r@.len() == num_clumps,
        forall|i: int| 0 <= i < num_clumps ==> #[trigger] r@[i] == spec_clump_seed(seed, i as u32),
{
    let mut r: Vec<(u32, u32)> = Vec::new();
    let mut i: u32 = 0;
    while i < num_clumps
        invariant
            i <= num_clumps,
            clump_count_in_range(num_clumps),
            r@.len() == i,
            forall|k: int| 0 <= k < i ==> #[trigger] r@[k] == spec_clump_seed(seed, k as u32),
        decreases num_clumps - i,
    {
        let hx = hash_u32(seed.wrapping_add(i * 2));
        let hy = hash_u32(seed.wrapping_add(i * 2 + 1));
        r.push((hx, hy));
        i = i + 1;
    }
    r
}

} // verus!
