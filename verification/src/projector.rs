//! From the declared state of a primary resource to the desired state of its
//! dependent resource.

use vstd::prelude::*;
use crate::kind::{DEPENDENT_API_VERSION, DEPENDENT_KIND};
use crate::resource::{CitusCluster, CitusClusterView, DependentResource, DependentResourceView};

verus! {

/// Name of the dependent resource. It is the same for every primary
/// resource, so one installation manages one dependent resource.
pub const DEPENDENT_NAME: &'static str = "inner-c";

/// The desired state of the dependent resource of `primary`: the fixed
/// identity and type, and the primary's node configuration as it stands.
pub open spec fn project_spec(primary: CitusClusterView) -> DependentResourceView {
    DependentResourceView {
        api_version: DEPENDENT_API_VERSION@,
        kind: DEPENDENT_KIND@,
        name: DEPENDENT_NAME@,
        spec: primary.spec.node_spec,
    }
}

/// Computes the desired state of the dependent resource of `primary`. The
/// node configuration is copied and not inspected.
pub fn project(primary: &CitusCluster) -> (desired: DependentResource)
    ensures
        desired@ == project_spec(primary@),
        desired@.spec == primary@.spec.node_spec,
{
    DependentResource::new(
        DEPENDENT_API_VERSION.to_owned(),
        DEPENDENT_KIND.to_owned(),
        DEPENDENT_NAME.to_owned(),
        primary.spec().node_spec().clone(),
    )
}

/// Equal primary resources have equal projections, and the projection reads
/// nothing of a primary resource but its node configuration.
pub proof fn law_projection_is_pure(a: CitusClusterView, b: CitusClusterView)
    ensures
        a == b ==> project_spec(a) == project_spec(b),
        a.spec.node_spec == b.spec.node_spec ==> project_spec(a) == project_spec(b),
{
}

} // verus!
