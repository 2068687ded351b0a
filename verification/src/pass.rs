//! Render pass kinds.

use vstd::prelude::*;

verus! {

/// Which kind of pipeline a pass binds: the rasterisation pipeline of the
/// presentation pass, or the ray-tracing pipeline of the main pass.
#[derive(Clone, Copy, Debug, PartialEq, Eq, Structural)]
pub enum PipelineType {
    GraphicsPipeline,
    RayTracingPipeline,
}

/// What a descriptor binding holds.
#[derive(Clone, Copy, Debug, PartialEq, Eq, Structural)]
pub enum DescriptorKind {
    /// The top-level acceleration structure the rays traverse.
    AccelerationStructure,
    /// The storage image the ray-generation shader writes.
    StorageImage,
    /// A uniform buffer read by a shader stage.
    UniformBuffer,
}

/// The shader stage a binding is visible to.
#[derive(Clone, Copy, Debug, PartialEq, Eq, Structural)]
pub enum StageVisibility {
    RayGeneration,
    ClosestHit,
}

/// One binding of the ray-tracing descriptor set.
#[derive(Clone, Copy, Debug, PartialEq, Eq, Structural)]
pub struct DescriptorBinding {
    pub binding: u32,
    pub kind: DescriptorKind,
    pub count: u32,
    pub stage: StageVisibility,
}

/// The fixed descriptor layout of the ray-tracing pipeline.
pub open spec fn spec_rt_descriptor_bindings() -> Seq<DescriptorBinding> {
    seq![
        DescriptorBinding {
            binding: 0,
            kind: DescriptorKind::AccelerationStructure,
            count: 1,
            stage: StageVisibility::RayGeneration,
        },
        DescriptorBinding {
            binding: 1,
            kind: DescriptorKind::StorageImage,
            count: 1,
            stage: StageVisibility::RayGeneration,
        },
        DescriptorBinding {
            binding: 2,
            kind: DescriptorKind::UniformBuffer,
            count: 1,
            stage: StageVisibility::ClosestHit,
        },
    ]
}

/// The descriptor set layout the ray-tracing pipeline is created with: the
/// acceleration structure and the output image visible to the ray-generation
/// stage, and the colors buffer visible to the closest-hit stage, at
/// consecutive binding indices.
pub fn rt_descriptor_bindings() -> (bindings: Vec<DescriptorBinding>)
    ensures
        bindings@ == spec_rt_descriptor_bindings(),
        forall|i: int| 0 <= i < bindings@.len() ==> bindings@[i].binding == i,
{
    let mut bindings: Vec<DescriptorBinding> = Vec::new();
    bindings.push(
        DescriptorBinding {
            binding: 0,
            kind: DescriptorKind::AccelerationStructure,
            count: 1,
            stage: StageVisibility::RayGeneration,
        },
    );
    bindings.push(
        DescriptorBinding {
            binding: 1,
            kind: DescriptorKind::StorageImage,
            count: 1,
            stage: StageVisibility::RayGeneration,
        },
    );
    bindings.push(
        DescriptorBinding {
            binding: 2,
            kind: DescriptorKind::UniformBuffer,
            count: 1,
            stage: StageVisibility::ClosestHit,
        },
    );
    proof {
        assert(bindings@ =~= spec_rt_descriptor_bindings());
    }
    bindings
}

} // verus!
