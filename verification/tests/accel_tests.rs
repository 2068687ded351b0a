use rt_pipeline::accel::{
    check_upload_barrier, plan_blas_build, plan_tlas_build, BuildError, BuildSizes, BuildStep,
    GeometryInput,
};

const SIZES: BuildSizes = BuildSizes { acceleration_structure_size: 4096, build_scratch_size: 1024 };

#[test]
fn primitive_count_aabbs_and_triangles() {
    assert_eq!(GeometryInput::Aabbs { aabb_count: 1 }.primitive_count(), 1);
    let cube = GeometryInput::Triangles { vertex_count: 8, index_count: 36 };
    assert_eq!(cube.primitive_count(), 12);
}

#[test]
fn blas_plan_exact_steps() {
    let g = GeometryInput::Aabbs { aabb_count: 1 };
    let steps = plan_blas_build(&g, SIZES).unwrap();
    assert_eq!(
        steps,
        vec![
            BuildStep::AllocResultBuffer { size: 4096 },
            BuildStep::CreateStructure { size: 4096 },
            BuildStep::AllocScratchBuffer { size: 1024 },
            BuildStep::RecordBuild { primitive_count: 1 },
            BuildStep::SubmitAndWaitIdle,
            BuildStep::DestroyScratch,
        ]
    );
}

#[test]
fn blas_plan_uses_declared_primitive_count() {
    let cube = GeometryInput::Triangles { vertex_count: 8, index_count: 36 };
    let steps = plan_blas_build(&cube, SIZES).unwrap();
    let count = cube.primitive_count();
    assert!(steps.contains(&BuildStep::RecordBuild { primitive_count: count }));
}

#[test]
fn blas_plan_rejects_malformed_geometry() {
    let empty = GeometryInput::Aabbs { aabb_count: 0 };
    assert_eq!(plan_blas_build(&empty, SIZES), Err(BuildError::InvalidGeometry));
    let ragged = GeometryInput::Triangles { vertex_count: 8, index_count: 35 };
    assert_eq!(plan_blas_build(&ragged, SIZES), Err(BuildError::InvalidGeometry));
    let no_vertices = GeometryInput::Triangles { vertex_count: 0, index_count: 3 };
    assert_eq!(plan_blas_build(&no_vertices, SIZES), Err(BuildError::InvalidGeometry));
}

#[test]
fn tlas_plan_exact_steps() {
    let steps = plan_tlas_build(3, SIZES);
    assert_eq!(
        steps,
        vec![
            BuildStep::UploadInstances { byte_len: 192 },
            BuildStep::AllocResultBuffer { size: 4096 },
            BuildStep::CreateStructure { size: 4096 },
            BuildStep::AllocScratchBuffer { size: 1024 },
            BuildStep::TransferToBuildBarrier,
            BuildStep::RecordBuild { primitive_count: 3 },
            BuildStep::SubmitAndWaitIdle,
            BuildStep::DestroyScratch,
        ]
    );
}

#[test]
fn tlas_plan_passes_barrier_check() {
    let steps = plan_tlas_build(3, SIZES);
    assert!(check_upload_barrier(&steps));
}

#[test]
fn omitted_upload_barrier_is_detected() {
    // The same plan with the transfer-write to build-read barrier removed
    // must be caught by the instrumented check.
    let steps: Vec<BuildStep> = plan_tlas_build(3, SIZES)
        .into_iter()
        .filter(|s| *s != BuildStep::TransferToBuildBarrier)
        .collect();
    assert!(!check_upload_barrier(&steps));
}

#[test]
fn barrier_after_build_does_not_count() {
    let steps = vec![
        BuildStep::UploadInstances { byte_len: 192 },
        BuildStep::RecordBuild { primitive_count: 3 },
        BuildStep::TransferToBuildBarrier,
    ];
    assert!(!check_upload_barrier(&steps));
}

#[test]
fn blas_plan_without_upload_needs_no_barrier() {
    let g = GeometryInput::Aabbs { aabb_count: 1 };
    let steps = plan_blas_build(&g, SIZES).unwrap();
    assert!(check_upload_barrier(&steps));
}

#[test]
fn scratch_destroyed_after_blocking_submit() {
    let steps = plan_tlas_build(3, SIZES);
    let build = steps
        .iter()
        .position(|s| matches!(s, BuildStep::RecordBuild { .. }))
        .unwrap();
    let wait = steps
        .iter()
        .position(|s| matches!(s, BuildStep::SubmitAndWaitIdle))
        .unwrap();
    let destroy = steps
        .iter()
        .position(|s| matches!(s, BuildStep::DestroyScratch))
        .unwrap();
    assert!(build < wait && wait < destroy);
}
