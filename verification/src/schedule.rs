use vstd::prelude::*;

verus! {

/// Agents handled by one workgroup of the update pass.
pub const AGENT_WORKGROUP_SIZE: u32 = 256;

/// Pixels along each side of one workgroup of the diffuse and colour passes.
pub const PIXEL_WORKGROUP_SIDE: u32 = 8;

/// `n / d` rounded up.
pub open spec fn ceil_div(n: nat, d: nat) -> nat
    recommends
        d > 0,
{
    ((n + d - 1) as nat) / d
}

/// Number of workgroups of `size` items needed to cover `n` items
/// (`u32::div_ceil`).
pub fn workgroups(n: u32, size: u32) -> (r: u32)
    requires
        size > 0,
    ensures
        r == ceil_div(n as nat, size as nat),
        r * size >= n,
        n > 0 ==> (r - 1) * size < n,
{
    let q = n / size;
    let r = if n % size != 0 {
        assert(q < u32::MAX) by (nonlinear_arith)
            requires
                size >= 2,
                q == n / size,
        ;
        q + 1
    } else {
        q
    };
    proof {
        let ni = n as int;
        let si = size as int;
        assert(ni == si * (ni / si) + ni % si) by (nonlinear_arith)
            requires
                si > 0,
        ;
        assert(0 <= ni % si < si) by (nonlinear_arith)
            requires
                si > 0,
        ;
        if ni % si != 0 {
            assert((ni + si - 1) / si == ni / si + 1) by (nonlinear_arith)
                requires
                    si > 0,
                    ni == si * (ni / si) + ni % si,
                    0 < ni % si < si,
            ;
        } else {
            assert((ni + si - 1) / si == ni / si) by (nonlinear_arith)
                requires
                    si > 0,
                    ni == si * (ni / si),
            ;
        }
        assert(r * si >= ni) by (nonlinear_arith)
            requires
                si > 0,
                ni == si * (ni / si) + ni % si,
                0 <= ni % si < si,
                r == ni / si + if ni % si != 0 {
                    1int
                } else {
                    0int
                },
        ;
        if ni > 0 {
            assert((r - 1) * si < ni) by (nonlinear_arith)
                requires
                    si > 0,
                    ni > 0,
                    ni == si * (ni / si) + ni % si,
                    0 <= ni % si < si,
                    r == ni / si + if ni % si != 0 {
                        1int
                    } else {
                        0int
                    },
            ;
        }
    }
    r
}

/// Trail texture read through bind group `g` of the update pass (group `g`
/// reads trail `g` and deposits into the other one).
pub open spec fn update_reads(g: int) -> int {
    g
}

/// Trail texture written through bind group `g` of the update pass.
pub open spec fn update_writes(g: int) -> int {
    1 - g
}

/// Trail texture read through bind group `g` of the diffuse pass (group `g`
/// reads trail `g` and writes the other one).
pub open spec fn diffuse_reads(g: int) -> int {
    g
}

/// Trail texture written through bind group `g` of the diffuse pass.
pub open spec fn diffuse_writes(g: int) -> int {
    1 - g
}

/// Trail texture read through bind group `g` of the colour pass.
pub open spec fn colour_reads(g: int) -> int {
    g
}

/// The passes of one simulation step: which bind group each uses and how
/// many workgroups each dispatches.
pub struct StepPlan {
    pub update_bind_group: usize,
    pub agent_workgroups: u32,
    pub diffuse_bind_group: usize,
    pub pixel_workgroups_x: u32,
    pub pixel_workgroups_y: u32,
}

/// The colour pass of a frame.
pub struct RenderPlan {
    pub colour_bind_group: usize,
    pub pixel_workgroups_x: u32,
    pub pixel_workgroups_y: u32,
}

/// The GPU-independent state of the simulation: its size, its number of
/// agents, and which of the two ping-pong trail textures is read next.
pub struct SimulationCore {
    width: u32,
    height: u32,
    num_agents: u32,
    trail_idx: usize,
}

impl SimulationCore {
    #[verifier::type_invariant]
    spec fn well_formed(self) -> bool {
        self.trail_idx < 2
    }

    pub closed spec fn spec_width(self) -> u32 {
        self.width
    }

    pub closed spec fn spec_height(self) -> u32 {
        self.height
    }

    pub closed spec fn spec_num_agents(self) -> u32 {
        self.num_agents
    }

    /// The trail texture the next step's update pass reads.
    pub closed spec fn spec_trail_idx(self) -> int {
        self.trail_idx as int
    }

    /// A simulation of `width` × `height` pixels and `num_agents` agents,
    /// reading trail texture 0 first.
    pub fn new(width: u32, height: u32, num_agents: u32) -> (r: Self)
        ensures
            r.spec_width() == width,
            r.spec_height() == height,
            r.spec_num_agents() == num_agents,
            r.spec_trail_idx() == 0,
    {
        SimulationCore { width, height, num_agents, trail_idx: 0 }
    }

    pub fn width(&self) -> (r: u32)
        ensures
            r == self.spec_width(),
    {
        self.width
    }

    pub fn height(&self) -> (r: u32)
        ensures
            r == self.spec_height(),
    {
        self.height
    }

    pub fn num_agents(&self) -> (r: u32)
        ensures
            r == self.spec_num_agents(),
    {
        self.num_agents
    }

    pub fn trail_idx(&self) -> (r: usize)
        ensures
            r == self.spec_trail_idx(),
            r < 2,
    {
        proof {
            use_type_invariant(self);
        }
        self.trail_idx
    }

    /// Plans one step: the update pass reads the current trail and deposits
    /// into the other, the diffuse pass reads those deposits and writes back
    /// into the current trail; then the roles of the two textures swap.
    pub fn step(&mut self) -> (r: StepPlan)
        ensures
            r.update_bind_group == old(self).spec_trail_idx(),
            r.diffuse_bind_group == 1 - old(self).spec_trail_idx(),
            r.agent_workgroups == ceil_div(
                old(self).spec_num_agents() as nat,
                AGENT_WORKGROUP_SIZE as nat,
            ),
            r.pixel_workgroups_x == ceil_div(
                old(self).spec_width() as nat,
                PIXEL_WORKGROUP_SIDE as nat,
            ),
            r.pixel_workgroups_y == ceil_div(
                old(self).spec_height() as nat,
                PIXEL_WORKGROUP_SIDE as nat,
            ),
            final(self).spec_trail_idx() == 1 - old(self).spec_trail_idx(),
            final(self).spec_width() == old(self).spec_width(),
            final(self).spec_height() == old(self).spec_height(),
            final(self).spec_num_agents() == old(self).spec_num_agents(),
    {
        proof {
            use_type_invariant(&*self);
        }
        let read_idx = self.trail_idx;
        let write_idx = 1 - read_idx;
        let plan = StepPlan {
            update_bind_group: read_idx,
            agent_workgroups: workgroups(self.num_agents, AGENT_WORKGROUP_SIZE),
            diffuse_bind_group: write_idx,
            pixel_workgroups_x: workgroups(self.width, PIXEL_WORKGROUP_SIDE),
            pixel_workgroups_y: workgroups(self.height, PIXEL_WORKGROUP_SIDE),
        };
        self.trail_idx = write_idx;
        plan
    }

    /// Plans the colour pass: it reads the trail the last diffuse pass wrote.
    pub fn render(&self) -> (r: RenderPlan)
        ensures
            r.colour_bind_group == 1 - self.spec_trail_idx(),
            r.pixel_workgroups_x == ceil_div(self.spec_width() as nat, PIXEL_WORKGROUP_SIDE as nat),
            r.pixel_workgroups_y == ceil_div(
                self.spec_height() as nat,
                PIXEL_WORKGROUP_SIDE as nat,
            ),
    {
        proof {
            use_type_invariant(self);
        }
        RenderPlan {
            colour_bind_group: 1 - self.trail_idx,
            pixel_workgroups_x: workgroups(self.width, PIXEL_WORKGROUP_SIDE),
            pixel_workgroups_y: workgroups(self.height, PIXEL_WORKGROUP_SIDE),
        }
    }

    /// Restarts with `num_agents` agents, reading trail texture 0 first.
    pub fn reset(&mut self, num_agents: u32)
        ensures
            final(self).spec_num_agents() == num_agents,
            final(self).spec_trail_idx() == 0,
            final(self).spec_width() == old(self).spec_width(),
            final(self).spec_height() == old(self).spec_height(),
    {
        *self = SimulationCore { width: self.width, height: self.height, num_agents, trail_idx: 0 };
    }
}

/// Within a step, the diffuse pass reads the trail the update pass just
/// deposited into, and writes the other one.
pub proof fn lemma_step_diffuses_deposits(before: SimulationCore, plan: StepPlan)
    requires
        0 <= before.spec_trail_idx() < 2,
        plan.update_bind_group == before.spec_trail_idx(),
        plan.diffuse_bind_group == 1 - before.spec_trail_idx(),
    ensures
        diffuse_reads(plan.diffuse_bind_group as int) == update_writes(
            plan.update_bind_group as int,
        ),
        diffuse_writes(plan.diffuse_bind_group as int) == update_reads(
            plan.update_bind_group as int,
        ),
{
}

/// After a step, the colour pass shows the trail the step's diffuse pass
/// wrote.
pub proof fn lemma_render_shows_diffused_trail(
    before: SimulationCore,
    plan: StepPlan,
    after: SimulationCore,
    render: RenderPlan,
)
    requires
        0 <= before.spec_trail_idx() < 2,
        plan.diffuse_bind_group == 1 - before.spec_trail_idx(),
        after.spec_trail_idx() == 1 - before.spec_trail_idx(),
        render.colour_bind_group == 1 - after.spec_trail_idx(),
    ensures
        colour_reads(render.colour_bind_group as int) == diffuse_writes(
            plan.diffuse_bind_group as int,
        ),
{
}

/// Two steps bring the ping-pong textures back to their roles.
pub proof fn lemma_two_steps_restore_trail(a: SimulationCore, b: SimulationCore, c: SimulationCore)
    requires
        b.spec_trail_idx() == 1 - a.spec_trail_idx(),
        c.spec_trail_idx() == 1 - b.spec_trail_idx(),
    ensures
        c.spec_trail_idx() == a.spec_trail_idx(),
{
}

} // verus!
