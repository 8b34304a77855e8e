//! One reconciliation of a primary resource: what to apply to the platform,
//! and what to tell the scheduler once the platform has answered.

use vstd::prelude::*;
use crate::action::{Action, RESYNC_SECS, RETRY_SECS};
use crate::kind::{
    dependent_kind, dependent_kind_spec, ResourceKind, ResourceKindView, Scope,
};
use crate::projector::{project, project_spec, DEPENDENT_NAME};
use crate::resource::{CitusCluster, CitusClusterView, DependentResource, DependentResourceView};

verus! {

/// Name under which this controller owns the fields it applies.
pub const FIELD_MANAGER: &'static str = "citus_apply";

/// How a desired state is applied: as a server-side merge under a field
/// manager, with or without forced ownership of conflicting fields.
#[derive(Debug, PartialEq, Eq)]
pub struct ApplyParams {
    /// Name of the owner of the applied fields.
    pub field_manager: String,
    /// Whether fields owned by others are taken over instead of reported as
    /// conflicts.
    pub force: bool,
}

/// What an `ApplyParams` holds.
pub struct ApplyParamsView {
    /// Name of the owner of the applied fields.
    pub field_manager: Seq<char>,
    /// Whether fields owned by others are taken over.
    pub force: bool,
}

impl View for ApplyParams {
    type V = ApplyParamsView;

    open spec fn view(&self) -> ApplyParamsView {
        ApplyParamsView { field_manager: self.field_manager@, force: self.force }
    }
}

/// The parameters of every apply this controller makes: its own field
/// manager, with forced ownership.
pub open spec fn apply_params_spec() -> ApplyParamsView {
    ApplyParamsView { field_manager: FIELD_MANAGER@, force: true }
}

/// The parameters of every apply this controller makes.
pub fn apply_params() -> (params: ApplyParams)
    ensures
        params@ == apply_params_spec(),
{
    ApplyParams { field_manager: FIELD_MANAGER.to_owned(), force: true }
}

/// One apply call for the platform: the resource type, the name of the
/// object, how to apply, and the desired state.
#[derive(Debug, PartialEq)]
pub struct ApplyRequest {
    /// Type of the object to apply.
    pub kind: ResourceKind,
    /// Where the object lives.
    pub scope: Scope,
    /// Name of the object to apply.
    pub name: String,
    /// How to apply.
    pub params: ApplyParams,
    /// The state the object is to have.
    pub desired: DependentResource,
}

/// What an `ApplyRequest` holds.
pub struct ApplyRequestView {
    /// Type of the object to apply.
    pub kind: ResourceKindView,
    /// Where the object lives.
    pub scope: Scope,
    /// Name of the object to apply.
    pub name: Seq<char>,
    /// How to apply.
    pub params: ApplyParamsView,
    /// The state the object is to have.
    pub desired: DependentResourceView,
}

impl View for ApplyRequest {
    type V = ApplyRequestView;

    open spec fn view(&self) -> ApplyRequestView {
        ApplyRequestView {
            kind: self.kind@,
            scope: self.scope,
            name: self.name@,
            params: self.params@,
            desired: self.desired@,
        }
    }
}

impl ApplyRequestView {
    /// Whether the request addresses the object that its desired state
    /// describes: same name, same kind, same `apiVersion`.
    pub open spec fn addresses_desired(self) -> bool {
        &&& self.name == self.desired.name
        &&& self.kind.kind == self.desired.kind
        &&& self.kind.api_version == self.desired.api_version
    }
}

/// The apply call that reconciles `primary`: the projection of `primary`,
/// applied with forced ownership to the dependent resource of the fixed name.
pub open spec fn reconcile_request_spec(primary: CitusClusterView) -> ApplyRequestView {
    ApplyRequestView {
        kind: dependent_kind_spec(),
        scope: Scope::DefaultNamespace,
        name: DEPENDENT_NAME@,
        params: apply_params_spec(),
        desired: project_spec(primary),
    }
}

/// First half of a reconciliation: computes the one apply call that brings
/// the platform to the state `primary` declares. Nothing is sent here.
pub fn reconcile_request(primary: &CitusCluster) -> (request: ApplyRequest)
    ensures
        request@ == reconcile_request_spec(primary@),
        request@.addresses_desired(),
        request@.params.force,
{
    ApplyRequest {
        kind: dependent_kind(),
        scope: Scope::DefaultNamespace,
        name: DEPENDENT_NAME.to_owned(),
        params: apply_params(),
        desired: project(primary),
    }
}

/// What a reconciliation returns for each answer of the platform.
pub open spec fn reconcile_result_spec<E>(outcome: Result<(), E>) -> Result<Action, E> {
    match outcome {
        Ok(_) => Ok(Action::Requeue { after_secs: RESYNC_SECS }),
        Err(error) => Err(error),
    }
}

/// Second half of a reconciliation: turns the platform's answer to the apply
/// call into the reconciliation's result. A success asks for the periodic
/// resync; a failure is handed on as it came, with no retry made here.
pub fn reconcile_result<E>(outcome: Result<(), E>) -> (result: Result<Action, E>)
    ensures
        result == reconcile_result_spec(outcome),
{
    match outcome {
        Ok(_) => Ok(Action::requeue(RESYNC_SECS)),
        Err(error) => Err(error),
    }
}

/// The action that follows a failed reconciliation: a retry after the fixed
/// short delay, whatever the resource and whatever the error.
pub fn error_policy<E>(primary: &CitusCluster, error: &E) -> (action: Action)
    ensures
        action == (Action::Requeue { after_secs: RETRY_SECS }),
        action.delay() == Some(RETRY_SECS as int),
        RETRY_SECS > 0,
{
    Action::requeue(RETRY_SECS)
}

} // verus!
