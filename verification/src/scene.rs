//! The built scene: registered bottom-level structures and the top-level
//! structure over them.
//!
//! The registry enforces the lifetime rules of the build protocol: a
//! bottom-level structure enters it only with a well-formed geometry and a
//! non-zero device address, and a top-level build is accepted only when
//! every instance references an address the registry knows.  The scene is
//! built once at startup and read-only afterwards.

use crate::accel::{BuildError, GeometryInput};
use crate::instance::InstanceRecord;
use vstd::prelude::*;

verus! {

/// Whether `a` is the device address of some registered structure.
pub open spec fn address_registered(addrs: Seq<u64>, a: u64) -> bool {
    exists|i: int| 0 <= i < addrs.len() && addrs[i] == a
}

/// The registry of built acceleration structures.
pub struct Scene {
    blas_addresses: Vec<u64>,
    tlas_instance_count: Option<u32>,
}

impl Scene {
    /// The device addresses of the registered bottom-level structures, in
    /// registration order.
    pub closed spec fn blas_view(self) -> Seq<u64> {
        self.blas_addresses@
    }

    /// The instance count of the built top-level structure, if one has been
    /// built.
    pub closed spec fn tlas_count(self) -> Option<u32> {
        self.tlas_instance_count
    }

    /// Every registered address is non-zero: the address was queried from a
    /// structure whose build had completed.
    pub open spec fn wf(self) -> bool {
        forall|i: int| 0 <= i < self.blas_view().len() ==> self.blas_view()[i] != 0
    }

    /// An empty scene: nothing registered, no top-level structure.
    pub fn new() -> (s: Scene)
        ensures
            s.wf(),
            s.blas_view() == Seq::<u64>::empty(),
            s.tlas_count() is None,
    {
        let blas_addresses: Vec<u64> = Vec::new();
        proof {
            assert(blas_addresses@ =~= Seq::<u64>::empty());
        }
        Scene { blas_addresses, tlas_instance_count: None }
    }

    /// The number of registered bottom-level structures.
    pub fn blas_count(&self) -> (n: usize)
        ensures
            n == self.blas_view().len(),
    {
        self.blas_addresses.len()
    }

    /// Registers a bottom-level structure built over `geometry`, whose
    /// device address the driver reported as `device_address`.  Succeeds
    /// exactly when the geometry is well formed and the address is non-zero,
    /// and then returns the new structure's index.
    pub fn register_blas(&mut self, geometry: &GeometryInput, device_address: u64) -> (r: Result<
        usize,
        BuildError,
    >)
        requires
            old(self).wf(),
            old(self).blas_view().len() < usize::MAX,
        ensures
            final(self).wf(),
            (geometry.wf() && device_address != 0) <==> r is Ok,
            r matches Ok(id) ==> {
                &&& id == old(self).blas_view().len()
                &&& final(self).blas_view() == old(self).blas_view().push(device_address)
                &&& final(self).tlas_count() == old(self).tlas_count()
            },
            r is Err ==> final(self).blas_view() == old(self).blas_view(),
            r is Err ==> final(self).tlas_count() == old(self).tlas_count(),
            r matches Err(e) ==> if !geometry.wf() {
                e == BuildError::InvalidGeometry
            } else {
                e == BuildError::NullDeviceAddress
            },
    {
        let valid = match *geometry {
            GeometryInput::Aabbs { aabb_count } => aabb_count > 0,
            GeometryInput::Triangles { vertex_count, index_count } => vertex_count > 0
                && index_count > 0 && index_count % 3 == 0,
        };
        if !valid {
            return Err(BuildError::InvalidGeometry);
        }
        if device_address == 0 {
            return Err(BuildError::NullDeviceAddress);
        }
        let id = self.blas_addresses.len();
        self.blas_addresses.push(device_address);
        Ok(id)
    }

    /// The device address of the registered structure `blas`: the value used
    /// to populate an instance record's structure reference.  Never zero.
    pub fn device_address(&self, blas: usize) -> (a: u64)
        requires
            self.wf(),
            blas < self.blas_view().len(),
        ensures
            a == self.blas_view()[blas as int],
            a != 0,
            address_registered(self.blas_view(), a),
    {
        self.blas_addresses[blas]
    }

    /// Builds the top-level structure over `instances`.  Succeeds exactly
    /// when every instance references a registered device address, and then
    /// records the instance count the structure was built with.
    pub fn build_tlas(&mut self, instances: &Vec<InstanceRecord>) -> (r: Result<u32, BuildError>)
        requires
            old(self).wf(),
            instances@.len() <= u32::MAX,
        ensures
            final(self).wf(),
            final(self).blas_view() == old(self).blas_view(),
            (forall|i: int|
                0 <= i < instances@.len() ==> address_registered(
                    old(self).blas_view(),
                    instances@[i].blas_address,
                )) <==> r is Ok,
            r matches Ok(n) ==> n == instances@.len() && final(self).tlas_count() == Some(n),
            r is Err ==> r == Err::<u32, BuildError>(BuildError::UnknownBlasAddress),
            r is Err ==> final(self).tlas_count() == old(self).tlas_count(),
    {
        let n = instances.len();
        let mut i: usize = 0;
        while i < n
            invariant
                i <= n,
                n == instances@.len(),
                self == old(self),
                old(self).wf(),
                forall|j: int|
                    0 <= j < i ==> address_registered(
                        old(self).blas_view(),
                        instances@[j].blas_address,
                    ),
            decreases n - i,
        {
            let wanted = instances[i].blas_address;
            let count = self.blas_addresses.len();
            let mut found = false;
            let mut b: usize = 0;
            while b < count
                invariant
                    b <= count,
                    count == self.blas_view().len(),
                    wanted == instances@[i as int].blas_address,
                    i < n == instances@.len(),
                    found ==> address_registered(self.blas_view(), wanted),
                    !found ==> forall|k: int| 0 <= k < b ==> self.blas_view()[k] != wanted,
                decreases count - b,
            {
                if self.blas_addresses[b] == wanted {
                    found = true;
                }
                b += 1;
            }
            if !found {
                return Err(BuildError::UnknownBlasAddress);
            }
            i += 1;
        }
        self.tlas_instance_count = Some(n as u32);
        proof {
            assert(self.blas_view() == old(self).blas_view());
            assert(self.wf());
        }
        Ok(n as u32)
    }

    /// The instance count of the built top-level structure, or `None` before
    /// one has been built.
    pub fn instance_count(&self) -> (n: Option<u32>)
        ensures
            n == self.tlas_count(),
    {
        self.tlas_instance_count
    }
}

/// A structure accepted by the registry is immediately referenceable: after
/// registering a non-zero device address, looking that structure up yields
/// the same non-zero address, and an instance carrying it passes the
/// reference check of every top-level build over the grown registry.
pub proof fn lemma_blas_then_tlas(before: Seq<u64>, device_address: u64)
    requires
        device_address != 0,
    ensures
        before.push(device_address)[before.len() as int] == device_address,
        address_registered(before.push(device_address), device_address),
{
    let after = before.push(device_address);
    assert(after[before.len() as int] == device_address);
}

} // verus!
