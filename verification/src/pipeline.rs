//! The draw inputs of one render pass: a fixed full-viewport quad, the two
//! shader paths, the offscreen target's size, and the uniform values taken
//! from the parameters.
//!
//! Everything the pass reads is pinned here as a function of the parameters
//! alone; the GPU work itself is the caller's business.

use vstd::prelude::*;
use crate::params::State;
use crate::shader::{fragment_path_spec, fragment_shader_path, vertex_path_spec, vertex_shader_path};

verus! {

/// Width of the offscreen colour target, in pixels.
pub const TEXTURE_WIDTH: u32 = 512;

/// Height of the offscreen colour target, in pixels.
pub const TEXTURE_HEIGHT: u32 = 512;

/// One corner of the quad, in normalized device coordinates. Each coordinate
/// is `-1` or `1`, so an integer carries it exactly.
#[derive(Clone, Copy, Debug, PartialEq, Eq, Structural)]
pub struct Vertex {
    /// Horizontal coordinate, `-1` or `1`.
    pub x: i8,
    /// Vertical coordinate, `-1` or `1`.
    pub y: i8,
}

/// The named uniform values bound for one draw call.
#[derive(Clone, Copy, Debug, PartialEq, Eq, Structural)]
pub struct Uniforms {
    /// `lum`: luminosity, in thousandths of the displayed `[0, 1]` range.
    pub lum: u16,
    /// `layers`: the layer count, widened to the shader's integer type.
    pub layers: i32,
    /// `seed`: the seed, passed through unchanged.
    pub seed: i32,
    /// First component of `res`: the target's width.
    pub res_x: u32,
    /// Second component of `res`: the target's height.
    pub res_y: u32,
}

/// The uniforms a parameter set binds: luminosity and seed unchanged, the
/// layer count widened, and the fixed target size.
pub open spec fn uniforms_of(s: State) -> Uniforms {
    Uniforms {
        lum: s.luminosity,
        layers: s.layers as i32,
        seed: s.seed,
        res_x: TEXTURE_WIDTH,
        res_y: TEXTURE_HEIGHT,
    }
}

/// The four corners of the full-viewport quad, spanning `[-1, 1]` in both
/// axes. The order never changes between passes.
pub open spec fn quad_vertices() -> Seq<Vertex> {
    seq![
        Vertex { x: -1i8, y: -1i8 },
        Vertex { x: -1i8, y: 1i8 },
        Vertex { x: 1i8, y: -1i8 },
        Vertex { x: 1i8, y: 1i8 },
    ]
}

/// The index order that splits the quad into two triangles.
pub open spec fn quad_indices() -> Seq<u8> {
    seq![0u8, 1u8, 2u8, 1u8, 2u8, 3u8]
}

/// Everything one render pass reads: target size, geometry, shader paths and
/// uniform values. Built fresh on every invocation.
#[derive(Debug, PartialEq, Eq)]
pub struct RenderPlan {
    /// Width of the offscreen target.
    pub width: u32,
    /// Height of the offscreen target.
    pub height: u32,
    /// The quad's corners, in normalized device coordinates.
    pub vertices: Vec<Vertex>,
    /// Indices into `vertices`, two triangles covering the quad.
    pub indices: Vec<u8>,
    /// Path the vertex shader source is read from.
    pub vertex_path: String,
    /// Path the fragment shader source is read from.
    pub fragment_path: String,
    /// The uniform values bound for the draw call.
    pub uniforms: Uniforms,
}

/// What a plan for a parameter set holds: the fixed size, geometry and paths,
/// and the uniforms of exactly those parameters.
pub open spec fn plan_matches(p: RenderPlan, s: State) -> bool {
    &&& p.width == TEXTURE_WIDTH
    &&& p.height == TEXTURE_HEIGHT
    &&& p.vertices@ == quad_vertices()
    &&& p.indices@ == quad_indices()
    &&& p.vertex_path@ == vertex_path_spec()
    &&& p.fragment_path@ == fragment_path_spec()
    &&& p.uniforms == uniforms_of(s)
}

/// Builds the draw inputs for one render pass from the parameters. The
/// parameters are taken as they are: the pipeline itself enforces no bounds
/// on them, that is the settings panel's business.
pub fn render_plan(state: &State) -> (p: RenderPlan)
    ensures
        plan_matches(p, *state),
{
    let mut vertices: Vec<Vertex> = Vec::new();
    vertices.push(Vertex { x: -1, y: -1 });
    vertices.push(Vertex { x: -1, y: 1 });
    vertices.push(Vertex { x: 1, y: -1 });
    vertices.push(Vertex { x: 1, y: 1 });

    let mut indices: Vec<u8> = Vec::new();
    indices.push(0);
    indices.push(1);
    indices.push(2);
    indices.push(1);
    indices.push(2);
    indices.push(3);

    proof {
        assert(vertices@ =~= quad_vertices());
        assert(indices@ =~= quad_indices());
    }

    RenderPlan {
        width: TEXTURE_WIDTH,
        height: TEXTURE_HEIGHT,
        vertices,
        indices,
        vertex_path: vertex_shader_path(),
        fragment_path: fragment_shader_path(),
        uniforms: Uniforms {
            lum: state.luminosity,
            layers: state.layers as i32,
            seed: state.seed,
            res_x: TEXTURE_WIDTH,
            res_y: TEXTURE_HEIGHT,
        },
    }
}

/// Every index of a plan names one of its vertices: the two triangles only
/// ever touch the quad's four corners.
pub proof fn lemma_plan_indices_valid(p: RenderPlan, s: State)
    requires
        plan_matches(p, s),
    ensures
        forall|i: int| 0 <= i < p.indices@.len() ==> p.indices@[i] < p.vertices@.len(),
{
    assert forall|i: int| 0 <= i < p.indices@.len() implies p.indices@[i] < p.vertices@.len() by {
        assert(p.indices@ == quad_indices());
        assert(p.vertices@.len() == 4);
    }
}

/// The draw inputs are a function of the parameters alone: any two plans
/// built for the same parameters agree in every part the pass reads. No
/// hidden state enters a pass outside the seed the parameters carry.
pub proof fn lemma_plan_deterministic(a: RenderPlan, b: RenderPlan, s: State)
    requires
        plan_matches(a, s),
        plan_matches(b, s),
    ensures
        a.width == b.width,
        a.height == b.height,
        a.vertices@ == b.vertices@,
        a.indices@ == b.indices@,
        a.vertex_path@ == b.vertex_path@,
        a.fragment_path@ == b.fragment_path@,
        a.uniforms == b.uniforms,
{
}

} // verus!
