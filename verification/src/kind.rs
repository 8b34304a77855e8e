//! Identity of a resource type on the platform.

use vstd::prelude::*;

verus! {

/// The plural resource name that `kube::core::ApiResource::from_gvk` derives
/// from a kind. It depends on the kind alone.
pub uninterp spec fn plural_of(kind: Seq<char>) -> Seq<char>;

/// The `apiVersion` of a group and a version: the version alone for the core
/// group, otherwise the two joined by a slash.
pub open spec fn api_version_of(group: Seq<char>, version: Seq<char>) -> Seq<char> {
    if group.len() == 0 {
        version
    } else {
        group + seq!['/'] + version
    }
}

/// Whether a kind is one whose plural the platform library can derive.
/// The single letter `y`, in either case, is not.
pub open spec fn pluralizable(kind: Seq<char>) -> bool {
    !(kind.len() == 1 && (kind[0] == 'y' || kind[0] == 'Y'))
}

/// Where on the platform the objects of a type are addressed.
#[derive(Clone, Copy, Debug, PartialEq, Eq, Structural)]
pub enum Scope {
    /// In every namespace.
    AllNamespaces,
    /// In the namespace that the platform connection defaults to.
    DefaultNamespace,
}

/// A resource type, resolved to what the dynamic platform API needs to
/// address it.
#[derive(Debug, PartialEq, Eq)]
pub struct ResourceKind {
    /// API group, empty for the core group.
    pub group: String,
    /// Version within the group.
    pub version: String,
    /// `apiVersion` as written in a manifest.
    pub api_version: String,
    /// Singular name of the type.
    pub kind: String,
    /// Plural name under which the platform serves the type.
    pub plural: String,
}

/// What a `ResourceKind` holds.
pub struct ResourceKindView {
    /// API group, empty for the core group.
    pub group: Seq<char>,
    /// Version within the group.
    pub version: Seq<char>,
    /// `apiVersion` as written in a manifest.
    pub api_version: Seq<char>,
    /// Singular name of the type.
    pub kind: Seq<char>,
    /// Plural name under which the platform serves the type.
    pub plural: Seq<char>,
}

impl View for ResourceKind {
    type V = ResourceKindView;

    open spec fn view(&self) -> ResourceKindView {
        ResourceKindView {
            group: self.group@,
            version: self.version@,
            api_version: self.api_version@,
            kind: self.kind@,
            plural: self.plural@,
        }
    }
}

/// The resolved form of a group, version and kind.
pub open spec fn resolved_kind(group: Seq<char>, version: Seq<char>, kind: Seq<char>) -> ResourceKindView {
    ResourceKindView {
        group,
        version,
        api_version: api_version_of(group, version),
        kind,
        plural: plural_of(kind),
    }
}

/// Resolves a group, version and kind with `kube::core::ApiResource::from_gvk`,
/// on the `kube::core::GroupVersionKind` of the three strings.
///
/// Trusted: the result keeps group, version and kind, its `api_version` is
/// `api_version_of(group, version)`, and its plural is the one the outside
/// function derives from the kind.
#[verifier::external_body]
fn from_gvk(group: &str, version: &str, kind: &str) -> (resolved: ResourceKind)
    requires
        pluralizable(kind@),
    ensures
        resolved.group@ == group@,
        resolved.version@ == version@,
        resolved.kind@ == kind@,
        resolved.api_version@ == api_version_of(group@, version@),
        resolved.plural@ == plural_of(kind@),
{
    let gvk = kube::core::GroupVersionKind::gvk(group, version, kind);
    let ar = kube::core::ApiResource::from_gvk(&gvk);
    ResourceKind {
        group: ar.group,
        version: ar.version,
        api_version: ar.api_version,
        kind: ar.kind,
        plural: ar.plural,
    }
}

/// Group of the dependent resource type.
pub const DEPENDENT_GROUP: &'static str = "postgresql.cnpg.io";

/// Version of the dependent resource type.
pub const DEPENDENT_VERSION: &'static str = "v1";

/// Kind of the dependent resource type.
pub const DEPENDENT_KIND: &'static str = "Cluster";

/// `apiVersion` of the dependent resource type.
pub const DEPENDENT_API_VERSION: &'static str = "postgresql.cnpg.io/v1";

/// The dependent resource type in resolved form.
pub open spec fn dependent_kind_spec() -> ResourceKindView {
    ResourceKindView {
        group: DEPENDENT_GROUP@,
        version: DEPENDENT_VERSION@,
        api_version: DEPENDENT_API_VERSION@,
        kind: DEPENDENT_KIND@,
        plural: plural_of(DEPENDENT_KIND@),
    }
}

/// The group, version and kind of the dependent resource type resolve to
/// `dependent_kind_spec()`: the `apiVersion` written in its manifests is the
/// one that its group and version make.
pub proof fn lemma_dependent_kind_resolves()
    ensures
        pluralizable(DEPENDENT_KIND@),
        resolved_kind(DEPENDENT_GROUP@, DEPENDENT_VERSION@, DEPENDENT_KIND@)
            == dependent_kind_spec(),
{
    reveal_strlit("postgresql.cnpg.io");
    reveal_strlit("v1");
    reveal_strlit("Cluster");
    reveal_strlit("postgresql.cnpg.io/v1");
    assert(api_version_of(DEPENDENT_GROUP@, DEPENDENT_VERSION@) =~= DEPENDENT_API_VERSION@);
}

/// Resolves the dependent resource type for the dynamic platform API.
pub fn dependent_kind() -> (resolved: ResourceKind)
    ensures
        resolved@ == dependent_kind_spec(),
{
    proof {
        lemma_dependent_kind_resolves();
    }
    from_gvk(DEPENDENT_GROUP, DEPENDENT_VERSION, DEPENDENT_KIND)
}

} // verus!
