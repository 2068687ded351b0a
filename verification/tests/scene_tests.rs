use rt_pipeline::accel::{BuildError, GeometryInput};
use rt_pipeline::instance::InstanceRecord;
use rt_pipeline::scene::Scene;

const ONE: u32 = 0x3f80_0000;

fn instance_at(tx_bits: u32, custom_index: u32, address: u64) -> InstanceRecord {
    InstanceRecord {
        transform_bits: vec![ONE, 0, 0, tx_bits, 0, ONE, 0, 0, 0, 0, ONE, 0],
        custom_index,
        mask: 0xff,
        sbt_offset: 0,
        flags: 0x02,
        blas_address: address,
    }
}

#[test]
fn registered_blas_reports_nonzero_address() {
    let mut scene = Scene::new();
    let cube = GeometryInput::Aabbs { aabb_count: 1 };
    let id = scene.register_blas(&cube, 0xdead_0000).unwrap();
    assert_eq!(id, 0);
    assert_eq!(scene.blas_count(), 1);
    let addr = scene.device_address(id);
    assert_eq!(addr, 0xdead_0000);
    assert_ne!(addr, 0);
}

#[test]
fn register_blas_rejects_null_address() {
    let mut scene = Scene::new();
    let cube = GeometryInput::Aabbs { aabb_count: 1 };
    assert_eq!(scene.register_blas(&cube, 0), Err(BuildError::NullDeviceAddress));
    assert_eq!(scene.blas_count(), 0);
}

#[test]
fn register_blas_rejects_malformed_geometry() {
    let mut scene = Scene::new();
    let empty = GeometryInput::Aabbs { aabb_count: 0 };
    assert_eq!(scene.register_blas(&empty, 0x1000), Err(BuildError::InvalidGeometry));
}

#[test]
fn three_instances_one_blas() {
    // One unit-cube geometry, three instances at distinct transforms all
    // referencing the same bottom-level structure.
    let mut scene = Scene::new();
    let cube = GeometryInput::Aabbs { aabb_count: 1 };
    let id = scene.register_blas(&cube, 0x4000).unwrap();
    let addr = scene.device_address(id);
    let instances = vec![
        instance_at(0xbfc0_0000, 0, addr),
        instance_at(0x0000_0000, 1, addr),
        instance_at(0x3fc0_0000, 2, addr),
    ];
    let count = scene.build_tlas(&instances).unwrap();
    assert_eq!(count, 3);
    assert_eq!(scene.instance_count(), Some(3));
}

#[test]
fn tlas_rejects_unknown_blas_address() {
    let mut scene = Scene::new();
    let cube = GeometryInput::Aabbs { aabb_count: 1 };
    let id = scene.register_blas(&cube, 0x4000).unwrap();
    let addr = scene.device_address(id);
    let instances = vec![instance_at(0, 0, addr), instance_at(0, 1, 0x9999)];
    assert_eq!(scene.build_tlas(&instances), Err(BuildError::UnknownBlasAddress));
    assert_eq!(scene.instance_count(), None);
}

#[test]
fn tlas_over_empty_instances_is_empty() {
    let mut scene = Scene::new();
    let count = scene.build_tlas(&Vec::new()).unwrap();
    assert_eq!(count, 0);
    assert_eq!(scene.instance_count(), Some(0));
}

#[test]
fn multiple_blas_all_referenceable() {
    let mut scene = Scene::new();
    let cube = GeometryInput::Aabbs { aabb_count: 1 };
    let mesh = GeometryInput::Triangles { vertex_count: 8, index_count: 36 };
    let a = scene.register_blas(&cube, 0x1000).unwrap();
    let b = scene.register_blas(&mesh, 0x2000).unwrap();
    assert_eq!((a, b), (0, 1));
    let instances = vec![
        instance_at(0, 0, scene.device_address(a)),
        instance_at(0, 1, scene.device_address(b)),
    ];
    assert_eq!(scene.build_tlas(&instances), Ok(2));
}
