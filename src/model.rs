//! The parts of a container configuration that rootless setup reads.
use vstd::prelude::*;

verus! {

/// `size` consecutive ids starting at `container_id` inside the container
/// stand for the ids starting at `host_id` on the host.
#[derive(Clone, Copy, Debug, PartialEq, Eq, Structural)]
pub struct IdMapping {
    pub container_id: u32,
    pub host_id: u32,
    pub size: u32,
}

/// The kinds of Linux namespaces a container may declare.
#[derive(Clone, Copy, Debug, PartialEq, Eq, Structural)]
pub enum NamespaceType {
    Pid,
    Network,
    Mount,
    Ipc,
    Uts,
    User,
    Cgroup,
    Time,
}

/// A namespace entry: without `path` a new namespace is created, with one an
/// existing namespace is joined.
#[derive(Clone, Debug)]
pub struct Namespace {
    pub typ: NamespaceType,
    pub path: Option<String>,
}

/// A mount, as far as rootless checks read it.
#[derive(Clone, Debug)]
pub struct Mount {
    pub destination: String,
    pub options: Option<Vec<String>>,
}

/// The Linux-specific section of a configuration.
#[derive(Clone, Debug)]
pub struct Linux {
    pub namespaces: Option<Vec<Namespace>>,
    pub uid_mappings: Option<Vec<IdMapping>>,
    pub gid_mappings: Option<Vec<IdMapping>>,
}

/// The container's main process, as far as rootless checks read it.
#[derive(Clone, Debug)]
pub struct Process {
    pub additional_gids: Option<Vec<u32>>,
}

/// A parsed container configuration.
#[derive(Clone, Debug)]
pub struct Spec {
    pub linux: Option<Linux>,
    pub mounts: Option<Vec<Mount>>,
    pub process: Option<Process>,
}

/// Whether namespace entry `n` is a user namespace.
pub open spec fn is_user_ns(n: Namespace) -> bool {
    n.typ == NamespaceType::User
}

/// The index of the first user-namespace entry of `nss`, if there is one.
pub open spec fn user_ns_index(nss: Seq<Namespace>) -> Option<int>
    decreases nss.len(),
{
    if nss.len() == 0 {
        None
    } else {
        match user_ns_index(nss.drop_last()) {
            Some(i) => Some(i),
            None => if is_user_ns(nss.last()) {
                Some(nss.len() - 1)
            } else {
                None
            },
        }
    }
}

/// The namespace list of `linux`, empty when none is declared.
pub open spec fn namespaces_of(linux: Linux) -> Seq<Namespace> {
    match linux.namespaces {
        Some(v) => v@,
        None => Seq::empty(),
    }
}

/// The user-namespace entry of `linux`, if it declares one.
pub open spec fn user_namespace_of(linux: Linux) -> Option<Namespace> {
    match user_ns_index(namespaces_of(linux)) {
        Some(i) => Some(namespaces_of(linux)[i]),
        None => None,
    }
}

proof fn lemma_user_ns_index_bounds(nss: Seq<Namespace>)
    ensures
        user_ns_index(nss) matches Some(i) ==> 0 <= i < nss.len() && is_user_ns(nss[i]),
        user_ns_index(nss) is None ==> forall|j: int| 0 <= j < nss.len() ==> !is_user_ns(#[trigger] nss[j]),
    decreases nss.len(),
{
    if nss.len() > 0 {
        lemma_user_ns_index_bounds(nss.drop_last());
        assert forall|j: int| 0 <= j < nss.len() - 1 implies nss.drop_last()[j] == nss[j] by {}
    }
}

/// Finds the first user-namespace entry of `linux`.
pub fn find_user_namespace(linux: &Linux) -> (r: Option<&Namespace>)
    ensures
        match (r, user_namespace_of(*linux)) {
            (Some(n), Some(m)) => *n == m,
            (None, None) => true,
            _ => false,
        },
{
    match &linux.namespaces {
        None => None,
        Some(nss) => {
            let mut i: usize = 0;
            while i < nss.len()
                invariant
                    0 <= i <= nss@.len(),
                    namespaces_of(*linux) == nss@,
                    user_ns_index(nss@.take(i as int)) is None,
                decreases nss@.len() - i,
            {
                assert(nss@.take(i as int + 1).drop_last() =~= nss@.take(i as int));
                if nss[i].typ == NamespaceType::User {
                    proof { lemma_first_user_ns(nss@, i as int); }
                    return Some(&nss[i]);
                }
                i = i + 1;
            }
            assert(nss@.take(i as int) =~= nss@);
            None
        },
    }
}

/// Once a prefix of `nss` ends in the first user namespace, so does the whole list.
proof fn lemma_first_user_ns(nss: Seq<Namespace>, i: int)
    requires
        0 <= i < nss.len(),
        user_ns_index(nss.take(i)) is None,
        is_user_ns(nss[i]),
    ensures
        user_ns_index(nss) == Some(i),
    decreases nss.len(),
{
    if nss.len() - 1 > i {
        assert(nss.drop_last().take(i) =~= nss.take(i));
        lemma_first_user_ns(nss.drop_last(), i);
    } else {
        assert(nss.drop_last() =~= nss.take(i));
    }
}

} // verus!
