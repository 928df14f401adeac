//! Deciding whether a container runs rootless, and assembling what its
//! mapping writes need.
use vstd::prelude::*;
use vstd::string::*;
use crate::error::{Fault, MappingKind, RootlessError};
use crate::locate::{lookup_map_binaries, lookup_spec, HelperSearch};
use crate::model::{find_user_namespace, user_namespace_of, IdMapping, Linux, Namespace, Spec};
use crate::validate::{validate, validation_fault};
use crate::writer::{mapping_plan, write_id_mapping, ActionView, MappingAction};

verus! {

/// The decision record of a rootless container: where the helper programs
/// are, the mapping lists of the configuration it was built from, its user
/// namespace and whether the invoking user is the superuser.
#[derive(Clone, Debug)]
pub struct Rootless<'a> {
    /// Location of the newuidmap program
    pub newuidmap: Option<String>,
    /// Location of the newgidmap program
    pub newgidmap: Option<String>,
    /// Mappings for user ids
    pub uid_mappings: Option<&'a Vec<IdMapping>>,
    /// Mappings for group ids
    pub gid_mappings: Option<&'a Vec<IdMapping>>,
    /// The user namespace entry
    pub user_namespace: Option<Namespace>,
    /// Whether the invoking user is the superuser
    pub privileged: bool,
}

/// The value of a [`Rootless`] record.
pub struct RootlessView {
    pub newuidmap: Option<Seq<char>>,
    pub newgidmap: Option<Seq<char>>,
    pub uid_mappings: Option<Seq<IdMapping>>,
    pub gid_mappings: Option<Seq<IdMapping>>,
    pub user_namespace: Option<Namespace>,
    pub privileged: bool,
}

/// The contents of an optional borrowed mapping list.
pub open spec fn opt_mappings(o: Option<&Vec<IdMapping>>) -> Option<Seq<IdMapping>> {
    match o {
        Some(v) => Some(v@),
        None => None,
    }
}

/// The contents of an optional owned mapping list.
pub open spec fn owned_mappings(o: Option<Vec<IdMapping>>) -> Option<Seq<IdMapping>> {
    match o {
        Some(v) => Some(v@),
        None => None,
    }
}

/// The text of an optional owned string.
pub open spec fn owned_text(o: Option<String>) -> Option<Seq<char>> {
    match o {
        Some(s) => Some(s@),
        None => None,
    }
}

impl<'a> View for Rootless<'a> {
    type V = RootlessView;

    open spec fn view(&self) -> RootlessView {
        RootlessView {
            newuidmap: owned_text(self.newuidmap),
            newgidmap: owned_text(self.newgidmap),
            uid_mappings: opt_mappings(self.uid_mappings),
            gid_mappings: opt_mappings(self.gid_mappings),
            user_namespace: self.user_namespace,
            privileged: self.privileged,
        }
    }
}

/// Whether rootless operation is required: the invoking user is not the
/// superuser, or the override flag reads `true`.
pub open spec fn rootless_required_spec(privileged: bool, use_rootless: Option<Seq<char>>) -> bool {
    !privileged || use_rootless == Some("true"@)
}

/// The record that `build_spec` assembles for `linux` before helpers are added.
pub open spec fn base_view(linux: Linux, privileged: bool) -> RootlessView {
    RootlessView {
        newuidmap: None,
        newgidmap: None,
        uid_mappings: owned_mappings(linux.uid_mappings),
        gid_mappings: owned_mappings(linux.gid_mappings),
        user_namespace: user_namespace_of(linux),
        privileged,
    }
}

/// What building a rootless context from `spec` yields, for an invoking user
/// that is (`privileged`) or is not the superuser, the override flag
/// `use_rootless`, and the helper search `found`.
pub open spec fn build_spec(
    spec: Spec,
    privileged: bool,
    use_rootless: Option<Seq<char>>,
    found: HelperSearch,
) -> Result<Option<RootlessView>, Fault> {
    match spec.linux {
        None => Err(Fault::MissingPlatformSection),
        Some(linux) => {
            let uns = user_namespace_of(linux);
            if rootless_required_spec(privileged, use_rootless) && uns is None {
                Err(Fault::MissingUserNamespace)
            } else if uns matches Some(n) && n.path is None {
                match validation_fault(spec, privileged) {
                    Some(f) => Err(f),
                    None => match lookup_spec(linux, found) {
                        Err(f) => Err(f),
                        Ok(None) => Ok(Some(base_view(linux, privileged))),
                        Ok(Some((u, g))) => Ok(
                            Some(
                                RootlessView {
                                    newuidmap: Some(u),
                                    newgidmap: Some(g),
                                    ..base_view(linux, privileged)
                                },
                            ),
                        ),
                    },
                }
            } else {
                Ok(None)
            }
        },
    }
}

/// The view of a build result.
pub open spec fn build_view(r: Result<Option<Rootless>, RootlessError>) -> Result<Option<RootlessView>, Fault> {
    match r {
        Ok(Some(x)) => Ok(Some(x@)),
        Ok(None) => Ok(None),
        Err(e) => Err(e@),
    }
}

/// The text of an optional string slice.
pub open spec fn opt_str_text(o: Option<&str>) -> Option<Seq<char>> {
    match o {
        Some(s) => Some(s@),
        None => None,
    }
}

/// Relies on nix::unistd::geteuid, read through `Uid::as_raw`: the effective
/// user id of this process.
#[verifier::external_body]
fn effective_uid() -> (r: u32) {
    nix::unistd::geteuid().as_raw()
}

/// A copy of namespace entry `n`.
fn copy_namespace(n: &Namespace) -> (r: Namespace)
    ensures
        r == *n,
{
    let path = match &n.path {
        Some(p) => Some(p.clone()),
        None => None,
    };
    Namespace { typ: n.typ, path }
}

/// Checks whether `s` reads `true`.
fn is_true_flag(s: &str) -> (r: bool)
    ensures
        r == (s@ == "true"@),
{
    proof { reveal_strlit("true"); }
    if s.unicode_len() != 4 {
        return false;
    }
    let r = s.get_char(0) == 't' && s.get_char(1) == 'r' && s.get_char(2) == 'u' && s.get_char(3) == 'e';
    assert(r == (s@ =~= "true"@));
    r
}

/// Whether rootless mode must be used: the invoking user is not the
/// superuser (`privileged` is false), or `use_rootless`, the override flag
/// from the environment, reads `true`.
pub fn rootless_required(privileged: bool, use_rootless: Option<&str>) -> (r: bool)
    ensures
        r == rootless_required_spec(privileged, opt_str_text(use_rootless)),
{
    if !privileged {
        return true;
    }
    match use_rootless {
        Some(v) => is_true_flag(v),
        None => false,
    }
}

impl<'a> Rootless<'a> {
    /// The record for `linux`, without helper programs.
    pub fn from_linux(linux: &'a Linux, privileged: bool) -> (r: Rootless<'a>)
        ensures
            r@ == base_view(*linux, privileged),
    {
        let user_namespace = match find_user_namespace(linux) {
            Some(n) => Some(copy_namespace(n)),
            None => None,
        };
        Rootless {
            newuidmap: None,
            newgidmap: None,
            uid_mappings: linux.uid_mappings.as_ref(),
            gid_mappings: linux.gid_mappings.as_ref(),
            user_namespace,
            privileged,
        }
    }

    /// Builds the rootless context of `spec` for an invoking user that is
    /// (`privileged`) or is not the superuser. `None` means the container does
    /// not set up a new user namespace and needs no rootless mapping.
    pub fn with_privilege(
        spec: &'a Spec,
        privileged: bool,
        use_rootless: Option<&str>,
        found: &HelperSearch,
    ) -> (r: Result<Option<Rootless<'a>>, RootlessError>)
        ensures
            build_view(r) == build_spec(*spec, privileged, opt_str_text(use_rootless), *found),
    {
        let linux = match &spec.linux {
            None => return Err(RootlessError::MissingPlatformSection),
            Some(l) => l,
        };
        let user_namespace = find_user_namespace(linux);
        if rootless_required(privileged, use_rootless) && user_namespace.is_none() {
            return Err(RootlessError::MissingUserNamespace);
        }
        let creates_new = match user_namespace {
            Some(n) => n.path.is_none(),
            None => false,
        };
        if creates_new {
            let checked = validate(spec, privileged);
            if let Err(e) = checked {
                return Err(e);
            }
            let mut rootless = Rootless::from_linux(linux, privileged);
            match lookup_map_binaries(linux, found) {
                Err(e) => return Err(e),
                Ok(None) => {},
                Ok(Some((u, g))) => {
                    rootless.newuidmap = Some(u);
                    rootless.newgidmap = Some(g);
                },
            }
            Ok(Some(rootless))
        } else {
            Ok(None)
        }
    }

    /// Builds the rootless context of `spec` for the user this process runs
    /// as; see [`Rootless::with_privilege`].
    pub fn new(spec: &'a Spec, use_rootless: Option<&str>, found: &HelperSearch) -> (r: Result<Option<Rootless<'a>>, RootlessError>)
        ensures
            exists|privileged: bool|
                build_view(r) == build_spec(*spec, privileged, opt_str_text(use_rootless), *found),
    {
        let privileged = effective_uid() == 0;
        Rootless::with_privilege(spec, privileged, use_rootless, found)
    }

    /// Decides how the UID mapping of process `target_pid` is written; `None`
    /// when the record holds no UID mappings.
    pub fn write_uid_mapping(&self, target_pid: i32) -> (r: Result<Option<MappingAction>, RootlessError>)
        ensures
            action_view(r) == match self@.uid_mappings {
                None => Ok(None),
                Some(ms) => option_plan(mapping_plan(target_pid, MappingKind::Uid, ms, self@.newuidmap)),
            },
    {
        match self.uid_mappings {
            None => Ok(None),
            Some(ms) => match write_id_mapping(target_pid, MappingKind::Uid, ms, self.newuidmap.as_ref()) {
                Ok(a) => Ok(Some(a)),
                Err(e) => Err(e),
            },
        }
    }

    /// Decides how the GID mapping of process `target_pid` is written; `None`
    /// when the record holds no GID mappings.
    pub fn write_gid_mapping(&self, target_pid: i32) -> (r: Result<Option<MappingAction>, RootlessError>)
        ensures
            action_view(r) == match self@.gid_mappings {
                None => Ok(None),
                Some(ms) => option_plan(mapping_plan(target_pid, MappingKind::Gid, ms, self@.newgidmap)),
            },
    {
        match self.gid_mappings {
            None => Ok(None),
            Some(ms) => match write_id_mapping(target_pid, MappingKind::Gid, ms, self.newgidmap.as_ref()) {
                Ok(a) => Ok(Some(a)),
                Err(e) => Err(e),
            },
        }
    }
}

/// A planned action as present.
pub open spec fn option_plan(p: Result<ActionView, Fault>) -> Result<Option<ActionView>, Fault> {
    match p {
        Ok(a) => Ok(Some(a)),
        Err(f) => Err(f),
    }
}

/// The view of an optional planned action.
pub open spec fn action_view(r: Result<Option<MappingAction>, RootlessError>) -> Result<Option<ActionView>, Fault> {
    match r {
        Ok(Some(a)) => Ok(Some(a@)),
        Ok(None) => Ok(None),
        Err(e) => Err(e@),
    }
}

/// An unprivileged user whose configuration declares no user namespace
/// cannot get a context: building fails with a missing user namespace.
pub proof fn lemma_unprivileged_needs_user_namespace(
    spec: Spec,
    use_rootless: Option<Seq<char>>,
    found: HelperSearch,
)
    requires
        spec.linux matches Some(linux) && user_namespace_of(linux) is None,
    ensures
        build_spec(spec, false, use_rootless, found) == Err::<Option<RootlessView>, Fault>(
            Fault::MissingUserNamespace,
        ),
{
}

/// A configuration that joins an existing user namespace by a path gets no
/// rootless context, whatever its mappings hold.
pub proof fn lemma_joined_user_namespace_is_not_rootless(
    spec: Spec,
    privileged: bool,
    use_rootless: Option<Seq<char>>,
    found: HelperSearch,
)
    requires
        spec.linux matches Some(linux) && user_namespace_of(linux) matches Some(n) && n.path
            matches Some(p) && p@.len() > 0,
    ensures
        build_spec(spec, privileged, use_rootless, found) == Ok::<Option<RootlessView>, Fault>(
            None,
        ),
{
}

} // verus!
