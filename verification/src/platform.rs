//! What the reconciler relies on from the platform, and what follows from
//! it. An apply with forced ownership replaces the named object's state by
//! the desired state and leaves every other object alone; a failed apply
//! changes nothing. The laws below hold of every platform that behaves so.

use vstd::prelude::*;
use crate::projector::{project_spec, DEPENDENT_NAME};
use crate::reconciler::{reconcile_request_spec, ApplyRequestView};
use crate::resource::{CitusClusterView, DependentResourceView};

verus! {

/// The dependent objects that the platform holds, by name.
pub struct Objects {
    pub by_name: Map<Seq<char>, DependentResourceView>,
}

impl Objects {
    /// The objects after the platform has carried out `request`.
    pub open spec fn applied(self, request: ApplyRequestView) -> Objects {
        Objects { by_name: self.by_name.insert(request.name, request.desired) }
    }

    /// The objects after one reconciliation attempt.
    pub open spec fn after_attempt(self, attempt: Attempt) -> Objects {
        if attempt.succeeded {
            self.applied(reconcile_request_spec(attempt.observed))
        } else {
            self
        }
    }

    /// The objects after the reconciliation attempts `attempts`, in order.
    pub open spec fn after_attempts(self, attempts: Seq<Attempt>) -> Objects
        decreases attempts.len(),
    {
        if attempts.len() == 0 {
            self
        } else {
            self.after_attempts(attempts.drop_last()).after_attempt(attempts.last())
        }
    }
}

/// One reconciliation attempt: the primary resource as it was observed, and
/// whether the platform carried out the apply.
pub struct Attempt {
    pub observed: CitusClusterView,
    pub succeeded: bool,
}

/// Reconciling is idempotent. Applying the request of one primary resource a
/// second time leaves the platform exactly as the first time did, and after
/// either the dependent resource carries the primary's node configuration.
pub proof fn law_reconcile_is_idempotent(objects: Objects, primary: CitusClusterView)
    ensures
        ({
            let request = reconcile_request_spec(primary);
            let once = objects.applied(request);
            let twice = once.applied(request);
            &&& twice == once
            &&& once.by_name.contains_key(DEPENDENT_NAME@)
            &&& once.by_name[DEPENDENT_NAME@] == project_spec(primary)
            &&& twice.by_name[DEPENDENT_NAME@].spec == primary.spec.node_spec
        }),
{
    let request = reconcile_request_spec(primary);
    let once = objects.applied(request);
    let twice = once.applied(request);
    assert(twice.by_name =~= once.by_name);
}

/// Reconciling touches one object only. Whatever the attempts, every object
/// but the dependent resource of the fixed name is afterwards what it was
/// before, none is created and none removed; and the dependent resource,
/// once there, stays.
pub proof fn law_one_dependent_resource(objects: Objects, attempts: Seq<Attempt>)
    ensures
        objects.after_attempts(attempts).by_name.remove(DEPENDENT_NAME@)
            == objects.by_name.remove(DEPENDENT_NAME@),
        objects.by_name.contains_key(DEPENDENT_NAME@) ==> objects.after_attempts(
            attempts,
        ).by_name.contains_key(DEPENDENT_NAME@),
    decreases attempts.len(),
{
    if attempts.len() > 0 {
        let earlier = objects.after_attempts(attempts.drop_last());
        law_one_dependent_resource(objects, attempts.drop_last());
        assert(earlier.after_attempt(attempts.last()).by_name.remove(DEPENDENT_NAME@)
            =~= earlier.by_name.remove(DEPENDENT_NAME@));
    }
}

/// Reconciling converges. Take any attempts, successful or not, on any
/// observed states. If from some successful attempt on, every attempt
/// observed the state `latest`, then afterwards the dependent resource is the
/// projection of `latest`.
pub proof fn law_convergence(
    objects: Objects,
    attempts: Seq<Attempt>,
    latest: CitusClusterView,
    settled: int,
)
    requires
        0 <= settled < attempts.len(),
        attempts[settled].succeeded,
        forall|i: int| settled <= i < attempts.len() ==> (#[trigger] attempts[i]).observed == latest,
    ensures
        objects.after_attempts(attempts).by_name.contains_key(DEPENDENT_NAME@),
        objects.after_attempts(attempts).by_name[DEPENDENT_NAME@] == project_spec(latest),
        objects.after_attempts(attempts).by_name[DEPENDENT_NAME@].spec == latest.spec.node_spec,
    decreases attempts.len(),
{
    let earlier = attempts.drop_last();
    if settled < attempts.len() - 1 {
        assert(earlier[settled] == attempts[settled]);
        assert forall|i: int| settled <= i < earlier.len() implies (#[trigger] earlier[i]).observed
            == latest by {
            assert(earlier[i] == attempts[i]);
        }
        law_convergence(objects, earlier, latest, settled);
    }
    assert(attempts.last() == attempts[attempts.len() - 1]);
}

} // verus!
