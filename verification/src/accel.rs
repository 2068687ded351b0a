//! Acceleration-structure build planning.
//!
//! A build is a one-shot protocol: query the driver for the destination and
//! scratch sizes of a geometry description, allocate a destination buffer and
//! a transient scratch buffer, record a single build command, submit it,
//! block until the queue drains, and destroy the scratch immediately.  The
//! driver performs those steps; this module decides them.  It fixes the step
//! order, pins the primitive count used for the size query to the one used
//! for the build range (a mismatch is undefined behaviour at the driver
//! level), and places the memory barrier that makes the instance-buffer
//! upload visible to a top-level build.

use vstd::prelude::*;

verus! {

/// Raw geometry consumed by a bottom-level build: either a list of
/// axis-aligned boxes or an indexed triangle mesh.
#[derive(Clone, Copy, Debug, PartialEq, Eq, Structural)]
pub enum GeometryInput {
    /// `aabb_count` axis-aligned boxes, one primitive each.
    Aabbs { aabb_count: u32 },
    /// An indexed mesh of `vertex_count` positions and `index_count` 32-bit
    /// indices; every three indices form one triangle primitive.
    Triangles { vertex_count: u32, index_count: u32 },
}

impl GeometryInput {
    /// A geometry description the driver accepts: at least one primitive,
    /// and a triangle mesh's indices must come in whole triples over a
    /// non-empty vertex list.
    pub open spec fn wf(self) -> bool {
        match self {
            GeometryInput::Aabbs { aabb_count } => aabb_count > 0,
            GeometryInput::Triangles { vertex_count, index_count } => {
                &&& vertex_count > 0
                &&& index_count > 0
                &&& index_count % 3 == 0
            },
        }
    }

    /// The number of primitives the geometry declares.
    pub open spec fn spec_primitive_count(self) -> int {
        match self {
            GeometryInput::Aabbs { aabb_count } => aabb_count as int,
            GeometryInput::Triangles { index_count, .. } => index_count as int / 3,
        }
    }

    /// The primitive count handed both to the driver's size query and to the
    /// build range record.  Using this one value in both places is what rules
    /// the mismatch out.
    pub fn primitive_count(&self) -> (n: u32)
        ensures
            n == self.spec_primitive_count(),
    {
        match *self {
            GeometryInput::Aabbs { aabb_count } => aabb_count,
            GeometryInput::Triangles { index_count, .. } => index_count / 3,
        }
    }
}

/// The sizes the driver reports for a build: how large the destination
/// buffer and the transient scratch buffer must be.
#[derive(Clone, Copy, Debug, PartialEq, Eq, Structural)]
pub struct BuildSizes {
    pub acceleration_structure_size: u64,
    pub build_scratch_size: u64,
}

/// One step of a one-shot acceleration-structure build, in the order the
/// driver must perform it.
#[derive(Clone, Copy, Debug, PartialEq, Eq, Structural)]
pub enum BuildStep {
    /// Write `byte_len` bytes of serialised instance records into the
    /// host-visible instance buffer.
    UploadInstances { byte_len: u64 },
    /// Allocate the device-local destination buffer backing the structure.
    AllocResultBuffer { size: u64 },
    /// Create the acceleration structure object at offset 0 of the
    /// destination buffer.
    CreateStructure { size: u64 },
    /// Allocate the transient device-local scratch buffer.
    AllocScratchBuffer { size: u64 },
    /// Record a memory barrier from transfer writes to
    /// acceleration-structure build reads.
    TransferToBuildBarrier,
    /// Record the build command, declaring `primitive_count` primitives.
    RecordBuild { primitive_count: u32 },
    /// Submit the command buffer and block until the queue is idle.
    SubmitAndWaitIdle,
    /// Destroy the scratch buffer; scratch memory never outlives its build.
    DestroyScratch,
}

/// Why a build request was rejected before it reached the driver.
#[derive(Clone, Copy, Debug, PartialEq, Eq, Structural)]
pub enum BuildError {
    /// The geometry description is malformed.
    InvalidGeometry,
    /// A device address that must reference a built structure is zero.
    NullDeviceAddress,
    /// An instance references a device address no registered bottom-level
    /// structure owns.
    UnknownBlasAddress,
}

/// The step sequence of a bottom-level build over `g` with driver-reported
/// sizes `s`.
pub open spec fn spec_blas_steps(g: GeometryInput, s: BuildSizes) -> Seq<BuildStep> {
    seq![
        BuildStep::AllocResultBuffer { size: s.acceleration_structure_size },
        BuildStep::CreateStructure { size: s.acceleration_structure_size },
        BuildStep::AllocScratchBuffer { size: s.build_scratch_size },
        BuildStep::RecordBuild { primitive_count: g.spec_primitive_count() as u32 },
        BuildStep::SubmitAndWaitIdle,
        BuildStep::DestroyScratch,
    ]
}

/// The step sequence of a top-level build over `instance_count` instances
/// with driver-reported sizes `s`: the upload comes first, and the barrier
/// stands between it and the build command.
pub open spec fn spec_tlas_steps(instance_count: u32, s: BuildSizes) -> Seq<BuildStep> {
    seq![
        BuildStep::UploadInstances { byte_len: (instance_count as u64 * 64) as u64 },
        BuildStep::AllocResultBuffer { size: s.acceleration_structure_size },
        BuildStep::CreateStructure { size: s.acceleration_structure_size },
        BuildStep::AllocScratchBuffer { size: s.build_scratch_size },
        BuildStep::TransferToBuildBarrier,
        BuildStep::RecordBuild { primitive_count: instance_count },
        BuildStep::SubmitAndWaitIdle,
        BuildStep::DestroyScratch,
    ]
}

/// Every build command that follows an instance upload is separated from it
/// by a transfer-write to build-read barrier: without one the build may read
/// stale instance data, silently corrupting the structure.
pub open spec fn upload_guarded(steps: Seq<BuildStep>) -> bool {
    forall|i: int, j: int|
        0 <= i < j < steps.len() && steps[i] is UploadInstances && steps[j] is RecordBuild
            ==> exists|k: int| i < k < j && steps[k] is TransferToBuildBarrier
}

/// The scratch buffer is destroyed once the submitted work has drained, and
/// never before: after every build record there is a submit-and-wait, and
/// the destroy comes after it.
pub open spec fn scratch_freed_after_wait(steps: Seq<BuildStep>) -> bool {
    forall|i: int, j: int|
        0 <= i < j < steps.len() && steps[i] is RecordBuild && steps[j] is DestroyScratch
            ==> exists|k: int| i < k < j && steps[k] is SubmitAndWaitIdle
}

/// Checks that a step sequence keeps every build command behind a barrier
/// with respect to every earlier instance upload.  An instrumented driver
/// front end runs this over the steps it is about to execute; a plan lacking
/// the barrier is rejected here instead of corrupting the build silently.
pub fn check_upload_barrier(steps: &Vec<BuildStep>) -> (ok: bool)
    ensures
        ok == upload_guarded(steps@),
{
    let n = steps.len();
    let mut upload_seen = false;
    let ghost mut last_upload: int = 0;
    let mut barrier_since = false;
    let mut j: usize = 0;
    while j < n
        invariant
            j <= n,
            n == steps@.len(),
            upload_seen ==> 0 <= last_upload < j && steps@[last_upload] is UploadInstances,
            upload_seen && barrier_since ==> exists|k: int|
                last_upload < k < j && steps@[k] is TransferToBuildBarrier,
            // every upload so far is at or before the recorded one, with no
            // unguarded build between any upload and position j
            forall|i: int, jj: int|
                0 <= i < jj < j && steps@[i] is UploadInstances && steps@[jj] is RecordBuild
                    ==> exists|k: int| i < k < jj && steps@[k] is TransferToBuildBarrier,
            upload_seen ==> forall|i: int|
                0 <= i < j && steps@[i] is UploadInstances ==> i <= last_upload,
            !upload_seen ==> forall|i: int| 0 <= i < j ==> !(steps@[i] is UploadInstances),
            upload_seen && !barrier_since ==> forall|k: int|
                last_upload < k < j ==> !(steps@[k] is TransferToBuildBarrier),
        decreases n - j,
    {
        match steps[j] {
            BuildStep::UploadInstances { .. } => {
                upload_seen = true;
                proof {
                    last_upload = j as int;
                }
                barrier_since = false;
            },
            BuildStep::TransferToBuildBarrier => {
                barrier_since = true;
            },
            BuildStep::RecordBuild { .. } => {
                if upload_seen && !barrier_since {
                    proof {
                        assert(steps@[last_upload] is UploadInstances && steps@[j as int]
                            is RecordBuild && last_upload < j && !(exists|k: int|
                            last_upload < k < j && steps@[k] is TransferToBuildBarrier));
                    }
                    return false;
                }
                proof {
                    assert forall|i: int|
                        0 <= i < j && steps@[i] is UploadInstances implies exists|k: int|
                        i < k < j && steps@[k] is TransferToBuildBarrier by {
                        let kw = choose|k: int|
                            last_upload < k < j && steps@[k] is TransferToBuildBarrier;
                        assert(i <= last_upload < kw < j && steps@[kw]
                            is TransferToBuildBarrier);
                    }
                }
            },
            _ => {},
        }
        j += 1;
    }
    true
}

/// Produces the build plan for a bottom-level structure over `geometry`,
/// once the driver has reported `sizes` for it.
///
/// The primitive count recorded in the plan's build range equals
/// `geometry.primitive_count()`, the same value the caller must have used
/// for the size query.  A malformed geometry is rejected, never planned.
pub fn plan_blas_build(geometry: &GeometryInput, sizes: BuildSizes) -> (r: Result<
    Vec<BuildStep>,
    BuildError,
>)
    ensures
        geometry.wf() <==> r is Ok,
        r matches Ok(steps) ==> steps@ == spec_blas_steps(*geometry, sizes),
        r matches Err(e) ==> e == BuildError::InvalidGeometry,
{
    let valid = match *geometry {
        GeometryInput::Aabbs { aabb_count } => aabb_count > 0,
        GeometryInput::Triangles { vertex_count, index_count } => vertex_count > 0 && index_count
            > 0 && index_count % 3 == 0,
    };
    if !valid {
        return Err(BuildError::InvalidGeometry);
    }
    let count = geometry.primitive_count();
    let mut steps: Vec<BuildStep> = Vec::new();
    steps.push(BuildStep::AllocResultBuffer { size: sizes.acceleration_structure_size });
    steps.push(BuildStep::CreateStructure { size: sizes.acceleration_structure_size });
    steps.push(BuildStep::AllocScratchBuffer { size: sizes.build_scratch_size });
    steps.push(BuildStep::RecordBuild { primitive_count: count });
    steps.push(BuildStep::SubmitAndWaitIdle);
    steps.push(BuildStep::DestroyScratch);
    proof {
        assert(steps@ =~= spec_blas_steps(*geometry, sizes));
    }
    Ok(steps)
}

/// Produces the build plan for a top-level structure over `instance_count`
/// uploaded instance records, once the driver has reported `sizes`.
///
/// The plan places the transfer-write to build-read barrier between the
/// upload and the build command, passes the barrier check, and destroys the
/// scratch only after the blocking submit.
pub fn plan_tlas_build(instance_count: u32, sizes: BuildSizes) -> (steps: Vec<BuildStep>)
    ensures
        steps@ == spec_tlas_steps(instance_count, sizes),
        upload_guarded(steps@),
        scratch_freed_after_wait(steps@),
{
    let mut steps: Vec<BuildStep> = Vec::new();
    steps.push(BuildStep::UploadInstances { byte_len: instance_count as u64 * 64 });
    steps.push(BuildStep::AllocResultBuffer { size: sizes.acceleration_structure_size });
    steps.push(BuildStep::CreateStructure { size: sizes.acceleration_structure_size });
    steps.push(BuildStep::AllocScratchBuffer { size: sizes.build_scratch_size });
    steps.push(BuildStep::TransferToBuildBarrier);
    steps.push(BuildStep::RecordBuild { primitive_count: instance_count });
    steps.push(BuildStep::SubmitAndWaitIdle);
    steps.push(BuildStep::DestroyScratch);
    proof {
        assert(steps@ =~= spec_tlas_steps(instance_count, sizes));
        assert forall|i: int, j: int|
            0 <= i < j < steps@.len() && steps@[i] is UploadInstances && steps@[j]
                is RecordBuild implies exists|k: int|
            i < k < j && steps@[k] is TransferToBuildBarrier by {
            assert(i == 0 && j == 5 && steps@[4] is TransferToBuildBarrier);
        }
        assert forall|i: int, j: int|
            0 <= i < j < steps@.len() && steps@[i] is RecordBuild && steps@[j]
                is DestroyScratch implies exists|k: int|
            i < k < j && steps@[k] is SubmitAndWaitIdle by {
            assert(i == 5 && j == 7 && steps@[6] is SubmitAndWaitIdle);
        }
    }
    steps
}

} // verus!
