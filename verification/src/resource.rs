//! The primary resource a user declares and the dependent resource that is
//! kept in step with it.

use vstd::prelude::*;

verus! {

/// `serde_json::Value`, the configuration blob that a primary resource
/// carries for its dependent resource. Nothing here looks inside one.
#[verifier::external_type_specification]
#[verifier::external_body]
pub struct ExConfiguration(serde_json::Value);

/// `Clone::clone` of `serde_json::Value`.
///
/// Trusted: the copy equals the value it was made from.
pub assume_specification[ <serde_json::Value as Clone>::clone ](
    value: &serde_json::Value,
) -> (copy: serde_json::Value)
    ensures
        copy == *value,
;

/// Declared state of a primary resource.
#[derive(Debug, PartialEq)]
pub struct CitusClusterSpec {
    node_count: isize,
    node_spec: serde_json::Value,
}

/// What a `CitusClusterSpec` holds.
pub struct CitusClusterSpecView {
    /// Desired number of database nodes.
    pub node_count: int,
    /// Desired configuration of the dependent resource.
    pub node_spec: serde_json::Value,
}

impl View for CitusClusterSpec {
    type V = CitusClusterSpecView;

    closed spec fn view(&self) -> CitusClusterSpecView {
        CitusClusterSpecView { node_count: self.node_count as int, node_spec: self.node_spec }
    }
}

impl CitusClusterSpec {
    /// A declared state of `node_count` nodes configured by `node_spec`.
    pub fn new(node_count: isize, node_spec: serde_json::Value) -> (spec: CitusClusterSpec)
        ensures
            spec@ == (CitusClusterSpecView { node_count: node_count as int, node_spec }),
    {
        CitusClusterSpec { node_count, node_spec }
    }

    /// The desired number of database nodes.
    pub fn node_count(&self) -> (node_count: isize)
        ensures
            node_count == self@.node_count,
    {
        self.node_count
    }

    /// The configuration to forward to the dependent resource.
    pub fn node_spec(&self) -> (node_spec: &serde_json::Value)
        ensures
            *node_spec == self@.node_spec,
    {
        &self.node_spec
    }
}

impl Clone for CitusClusterSpec {
    fn clone(&self) -> (copy: CitusClusterSpec)
        ensures
            copy@ == self@,
    {
        CitusClusterSpec { node_count: self.node_count, node_spec: self.node_spec.clone() }
    }
}

/// Observed state of a primary resource, as reported back to its user.
#[derive(Clone, Copy, Debug, PartialEq, Eq, Structural)]
pub struct CitusClusterStatus {
    is_healthy: bool,
    observed_node_count: isize,
}

/// What a `CitusClusterStatus` holds.
pub struct CitusClusterStatusView {
    /// Whether the cluster was found healthy.
    pub is_healthy: bool,
    /// Number of database nodes that were observed.
    pub observed_node_count: int,
}

impl View for CitusClusterStatus {
    type V = CitusClusterStatusView;

    closed spec fn view(&self) -> CitusClusterStatusView {
        CitusClusterStatusView {
            is_healthy: self.is_healthy,
            observed_node_count: self.observed_node_count as int,
        }
    }
}

impl CitusClusterStatus {
    /// An observed state of `observed_node_count` nodes.
    pub fn new(is_healthy: bool, observed_node_count: isize) -> (status: CitusClusterStatus)
        ensures
            status@ == (CitusClusterStatusView {
                is_healthy,
                observed_node_count: observed_node_count as int,
            }),
    {
        CitusClusterStatus { is_healthy, observed_node_count }
    }

    /// Whether the cluster was found healthy.
    pub fn is_healthy(&self) -> (is_healthy: bool)
        ensures
            is_healthy == self@.is_healthy,
    {
        self.is_healthy
    }

    /// Number of database nodes that were observed.
    pub fn observed_node_count(&self) -> (observed_node_count: isize)
        ensures
            observed_node_count == self@.observed_node_count,
    {
        self.observed_node_count
    }
}

impl Default for CitusClusterStatus {
    /// The status of a cluster of which nothing was observed yet.
    fn default() -> (status: CitusClusterStatus)
        ensures
            status@ == (CitusClusterStatusView { is_healthy: false, observed_node_count: 0 }),
    {
        CitusClusterStatus { is_healthy: false, observed_node_count: 0 }
    }
}

/// The view of a status that may be absent.
pub open spec fn status_view(status: Option<CitusClusterStatus>) -> Option<CitusClusterStatusView> {
    match status {
        Some(status) => Some(status@),
        None => None,
    }
}

/// A primary resource: the declared state of one database cluster and, once
/// reported, its observed state.
#[derive(Debug, PartialEq)]
pub struct CitusCluster {
    spec: CitusClusterSpec,
    status: Option<CitusClusterStatus>,
}

/// What a `CitusCluster` holds.
pub struct CitusClusterView {
    /// The declared state.
    pub spec: CitusClusterSpecView,
    /// The observed state, if one was reported.
    pub status: Option<CitusClusterStatusView>,
}

impl View for CitusCluster {
    type V = CitusClusterView;

    closed spec fn view(&self) -> CitusClusterView {
        CitusClusterView { spec: self.spec@, status: status_view(self.status) }
    }
}

impl CitusCluster {
    /// A primary resource with the declared state `spec` and, where one was
    /// reported, the observed state `status`.
    pub fn new(spec: CitusClusterSpec, status: Option<CitusClusterStatus>) -> (primary:
        CitusCluster)
        ensures
            primary@ == (CitusClusterView { spec: spec@, status: status_view(status) }),
    {
        CitusCluster { spec, status }
    }

    /// The declared state.
    pub fn spec(&self) -> (spec: &CitusClusterSpec)
        ensures
            spec@ == self@.spec,
    {
        &self.spec
    }

    /// The observed state, if one was reported.
    pub fn status(&self) -> (status: Option<CitusClusterStatus>)
        ensures
            status_view(status) == self@.status,
    {
        self.status
    }
}

impl Clone for CitusCluster {
    fn clone(&self) -> (copy: CitusCluster)
        ensures
            copy@ == self@,
    {
        CitusCluster { spec: self.spec.clone(), status: self.status }
    }
}

/// Desired state of the dependent resource of one primary resource.
#[derive(Debug, PartialEq)]
pub struct DependentResource {
    api_version: String,
    kind: String,
    name: String,
    spec: serde_json::Value,
}

/// What a `DependentResource` holds.
pub struct DependentResourceView {
    /// `apiVersion` of the dependent resource type.
    pub api_version: Seq<char>,
    /// Kind of the dependent resource type.
    pub kind: Seq<char>,
    /// Name under which the platform keeps the resource.
    pub name: Seq<char>,
    /// Configuration of the resource.
    pub spec: serde_json::Value,
}

impl View for DependentResource {
    type V = DependentResourceView;

    closed spec fn view(&self) -> DependentResourceView {
        DependentResourceView {
            api_version: self.api_version@,
            kind: self.kind@,
            name: self.name@,
            spec: self.spec,
        }
    }
}

impl DependentResource {
    /// The desired state of the resource `name` of the type given by
    /// `api_version` and `kind`, configured by `spec`.
    pub fn new(api_version: String, kind: String, name: String, spec: serde_json::Value) -> (desired:
        DependentResource)
        ensures
            desired@ == (DependentResourceView {
                api_version: api_version@,
                kind: kind@,
                name: name@,
                spec,
            }),
    {
        DependentResource { api_version, kind, name, spec }
    }

    /// `apiVersion` of the dependent resource type.
    pub fn api_version(&self) -> (api_version: &String)
        ensures
            api_version@ == self@.api_version,
    {
        &self.api_version
    }

    /// Kind of the dependent resource type.
    pub fn kind(&self) -> (kind: &String)
        ensures
            kind@ == self@.kind,
    {
        &self.kind
    }

    /// Name under which the platform keeps the resource.
    pub fn name(&self) -> (name: &String)
        ensures
            name@ == self@.name,
    {
        &self.name
    }

    /// Configuration of the resource.
    pub fn spec(&self) -> (spec: &serde_json::Value)
        ensures
            *spec == self@.spec,
    {
        &self.spec
    }
}

} // verus!
