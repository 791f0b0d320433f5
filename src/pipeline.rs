use vstd::prelude::*;

verus! {

/// Depth comparison of a depth test or a depth sampler.
#[derive(Clone, Copy, Debug, PartialEq, Eq, Structural)]
pub enum CompareFunction {
    Less,
    LessEqual,
}

/// Winding that makes a triangle face the viewer.
#[derive(Clone, Copy, Debug, PartialEq, Eq, Structural)]
pub enum FrontFace {
    Ccw,
    Cw,
}

/// The fixed-function state of the one pipeline, in one record.
#[derive(Clone, Copy, Debug, PartialEq, Eq, Structural)]
pub struct PipelinePolicy {
    /// Primitives are triangle lists.
    pub triangle_list: bool,
    pub front_face: FrontFace,
    /// Triangles facing away from the viewer are dropped.
    pub cull_back_faces: bool,
    pub depth_compare: CompareFunction,
    pub depth_write: bool,
    /// The pipeline has a stencil test.
    pub stencil: bool,
    pub sample_count: u32,
    /// Fragments are blended with what is there; when false they replace it.
    pub blending: bool,
}

/// The frozen policy: counter-clockwise triangle lists with back faces
/// culled, a less-than depth test that writes depth, no stencil, one sample,
/// and opaque replacement instead of blending.
pub fn frozen_policy() -> (r: PipelinePolicy)
    ensures
        r == (PipelinePolicy {
            triangle_list: true,
            front_face: FrontFace::Ccw,
            cull_back_faces: true,
            depth_compare: CompareFunction::Less,
            depth_write: true,
            stencil: false,
            sample_count: 1,
            blending: false,
        }),
{
    PipelinePolicy {
        triangle_list: true,
        front_face: FrontFace::Ccw,
        cull_back_faces: true,
        depth_compare: CompareFunction::Less,
        depth_write: true,
        stencil: false,
        sample_count: 1,
        blending: false,
    }
}

} // verus!
