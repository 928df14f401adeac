//! The checks a configuration must pass before a new user namespace is set up
//! for it.
use vstd::prelude::*;
use vstd::string::*;
use crate::error::{fault_of, Fault, MappingKind, RootlessError};
use crate::mapping::{id_mapped, is_id_mapped, parse_u32, parse_u32_spec};
use crate::model::{find_user_namespace, user_namespace_of, IdMapping, Mount, Spec};

verus! {

/// The first fault that `f` finds in `s`, scanning from the front.
pub open spec fn first_fault<A>(s: Seq<A>, f: spec_fn(A) -> Option<Fault>) -> Option<Fault>
    decreases s.len(),
{
    if s.len() == 0 {
        None
    } else {
        match first_fault(s.drop_last(), f) {
            Some(e) => Some(e),
            None => f(s.last()),
        }
    }
}

proof fn lemma_first_fault_step<A>(s: Seq<A>, f: spec_fn(A) -> Option<Fault>, i: int)
    requires
        0 <= i < s.len(),
    ensures
        first_fault(s.take(i + 1), f) == match first_fault(s.take(i), f) {
            Some(e) => Some(e),
            None => f(s[i]),
        },
{
    assert(s.take(i + 1).drop_last() =~= s.take(i));
}

proof fn lemma_first_fault_prefix<A>(s: Seq<A>, f: spec_fn(A) -> Option<Fault>, i: int)
    requires
        0 <= i <= s.len(),
        first_fault(s.take(i), f) is Some,
    ensures
        first_fault(s, f) == first_fault(s.take(i), f),
    decreases s.len(),
{
    if i < s.len() {
        assert(s.drop_last().take(i) =~= s.take(i));
        lemma_first_fault_prefix(s.drop_last(), f, i);
    } else {
        assert(s.take(i) =~= s);
    }
}

proof fn lemma_first_fault_whole<A>(s: Seq<A>, f: spec_fn(A) -> Option<Fault>)
    ensures
        first_fault(s.take(s.len() as int), f) == first_fault(s, f),
{
    assert(s.take(s.len() as int) =~= s);
}

/// The text `<k>id=` with which an id-setting mount option starts.
pub open spec fn id_option_prefix(k: MappingKind) -> Seq<char> {
    match k {
        MappingKind::Uid => seq!['u', 'i', 'd', '='],
        MappingKind::Gid => seq!['g', 'i', 'd', '='],
    }
}

/// Whether mount option `opt` sets an id of kind `k`.
pub open spec fn sets_id(opt: Seq<char>, k: MappingKind) -> bool {
    opt.len() >= 4 && opt.take(4) == id_option_prefix(k)
}

/// The fault of an id-setting option whose value parsed to `parsed`.
pub open spec fn id_option_fault(
    mount: Seq<char>,
    opt: Seq<char>,
    parsed: Option<u32>,
    ms: Seq<IdMapping>,
) -> Option<Fault> {
    match parsed {
        None => Some(Fault::InvalidMountOption { mount, option: opt }),
        Some(id) => if id_mapped(id, ms) {
            None
        } else {
            Some(Fault::UnmappedMountId { mount, id })
        },
    }
}

/// The fault of option `opt` of the mount at `mount`.
pub open spec fn option_fault(
    mount: Seq<char>,
    opt: Seq<char>,
    uids: Seq<IdMapping>,
    gids: Seq<IdMapping>,
) -> Option<Fault> {
    if sets_id(opt, MappingKind::Uid) {
        id_option_fault(mount, opt, parse_u32_spec(opt.skip(4)), uids)
    } else if sets_id(opt, MappingKind::Gid) {
        id_option_fault(mount, opt, parse_u32_spec(opt.skip(4)), gids)
    } else {
        None
    }
}

/// [`option_fault`] for the options of one mount.
pub open spec fn option_check(
    mount: Seq<char>,
    uids: Seq<IdMapping>,
    gids: Seq<IdMapping>,
) -> spec_fn(String) -> Option<Fault> {
    |o: String| option_fault(mount, o@, uids, gids)
}

/// The first fault among the options of mount `m`.
pub open spec fn mount_fault(m: Mount, uids: Seq<IdMapping>, gids: Seq<IdMapping>) -> Option<Fault> {
    match m.options {
        None => None,
        Some(v) => first_fault(v@, option_check(m.destination@, uids, gids)),
    }
}

/// [`mount_fault`] under fixed mapping lists.
pub open spec fn mount_check(uids: Seq<IdMapping>, gids: Seq<IdMapping>) -> spec_fn(Mount) -> Option<Fault> {
    |m: Mount| mount_fault(m, uids, gids)
}

/// The first fault among `mounts`.
pub open spec fn mounts_fault(mounts: Seq<Mount>, uids: Seq<IdMapping>, gids: Seq<IdMapping>) -> Option<Fault> {
    first_fault(mounts, mount_check(uids, gids))
}

/// The fault of supplementary group `g` for a privileged user.
pub open spec fn group_check(gids: Seq<IdMapping>) -> spec_fn(u32) -> Option<Fault> {
    |g: u32| if id_mapped(g, gids) {
        None
    } else {
        Some(Fault::UnmappedSupplementaryGroup(g))
    }
}

/// The fault of the supplementary groups `additional`: none may be set by an
/// unprivileged user, and a privileged user may set only mapped ones.
pub open spec fn supplementary_fault(
    additional: Seq<u32>,
    privileged: bool,
    gids: Seq<IdMapping>,
) -> Option<Fault> {
    if additional.len() == 0 {
        None
    } else if !privileged {
        Some(Fault::SupplementaryGroupsForbidden)
    } else {
        first_fault(additional, group_check(gids))
    }
}

/// A mapping list, empty when absent.
pub open spec fn mappings_or_empty(ms: Option<Vec<IdMapping>>) -> Seq<IdMapping> {
    match ms {
        Some(v) => v@,
        None => Seq::empty(),
    }
}

/// The mounts of `spec`, empty when none are configured.
pub open spec fn mounts_of(spec: Spec) -> Seq<Mount> {
    match spec.mounts {
        Some(v) => v@,
        None => Seq::empty(),
    }
}

/// The supplementary groups of `spec`'s process, empty when none are declared.
pub open spec fn additional_gids_of(spec: Spec) -> Seq<u32> {
    match spec.process {
        Some(p) => match p.additional_gids {
            Some(v) => v@,
            None => Seq::empty(),
        },
        None => Seq::empty(),
    }
}

/// The first rule of rootless operation that `spec` breaks, if any, for an
/// invoking user that is (`privileged`) or is not the superuser.
pub open spec fn validation_fault(spec: Spec, privileged: bool) -> Option<Fault> {
    match spec.linux {
        None => Some(Fault::MissingPlatformSection),
        Some(linux) => {
            let uids = mappings_or_empty(linux.uid_mappings);
            let gids = mappings_or_empty(linux.gid_mappings);
            if user_namespace_of(linux) is None {
                Some(Fault::MissingUserNamespace)
            } else if linux.gid_mappings is None {
                Some(Fault::MissingMapping(MappingKind::Gid))
            } else if linux.uid_mappings is None || uids.len() == 0 {
                Some(Fault::MissingMapping(MappingKind::Uid))
            } else if gids.len() == 0 {
                Some(Fault::MissingMapping(MappingKind::Gid))
            } else {
                match mounts_fault(mounts_of(spec), uids, gids) {
                    Some(f) => Some(f),
                    None => supplementary_fault(additional_gids_of(spec), privileged, gids),
                }
            }
        },
    }
}

/// Checks whether `opt` starts with `<k>id=`.
fn has_id_prefix(opt: &str, k: MappingKind) -> (r: bool)
    ensures
        r == sets_id(opt@, k),
{
    let n = opt.unicode_len();
    if n < 4 {
        return false;
    }
    let first = match k {
        MappingKind::Uid => 'u',
        MappingKind::Gid => 'g',
    };
    let r = opt.get_char(0) == first && opt.get_char(1) == 'i' && opt.get_char(2) == 'd'
        && opt.get_char(3) == '=';
    assert(r == (opt@.take(4) =~= id_option_prefix(k)));
    r
}

/// Checks one mount option against the mapping lists.
fn check_mount_option(
    mount: &Mount,
    opt: &String,
    uids: &Vec<IdMapping>,
    gids: &Vec<IdMapping>,
) -> (r: Result<(), RootlessError>)
    ensures
        fault_of(r) == option_fault(mount.destination@, opt@, uids@, gids@),
{
    let s = opt.as_str();
    let ms = if has_id_prefix(s, MappingKind::Uid) {
        uids
    } else if has_id_prefix(s, MappingKind::Gid) {
        gids
    } else {
        return Ok(());
    };
    let value = s.substring_char(4, s.unicode_len());
    assert(value@ =~= opt@.skip(4));
    match parse_u32(value) {
        None => Err(RootlessError::InvalidMountOption {
            mount: mount.destination.clone(),
            option: opt.clone(),
        }),
        Some(id) => if is_id_mapped(id, ms.as_slice()) {
            Ok(())
        } else {
            Err(RootlessError::UnmappedMountId { mount: mount.destination.clone(), id })
        },
    }
}

/// Checks that every `uid=<N>` and `gid=<N>` option of `mounts` names an id
/// that the matching mapping list covers.
pub fn validate_mounts(mounts: &[Mount], uids: &Vec<IdMapping>, gids: &Vec<IdMapping>) -> (r: Result<(), RootlessError>)
    ensures
        fault_of(r) == mounts_fault(mounts@, uids@, gids@),
{
    let ghost mf = mount_check(uids@, gids@);
    let mut i: usize = 0;
    while i < mounts.len()
        invariant
            0 <= i <= mounts@.len(),
            mf == mount_check(uids@, gids@),
            first_fault(mounts@.take(i as int), mf) is None,
        decreases mounts@.len() - i,
    {
        let mount = &mounts[i];
        proof { lemma_first_fault_step(mounts@, mf, i as int); }
        if let Some(options) = &mount.options {
            let ghost of = option_check(mount.destination@, uids@, gids@);
            let mut j: usize = 0;
            while j < options.len()
                invariant
                    0 <= j <= options@.len(),
                    0 <= i < mounts@.len(),
                    *mount == mounts@[i as int],
                    mount.options == Some(*options),
                    mf == mount_check(uids@, gids@),
                    first_fault(mounts@.take(i as int + 1), mf) == mf(mounts@[i as int]),
                    of == option_check(mount.destination@, uids@, gids@),
                    first_fault(options@.take(j as int), of) is None,
                decreases options@.len() - j,
            {
                proof { lemma_first_fault_step(options@, of, j as int); }
                let res = check_mount_option(mount, &options[j], uids, gids);
                if res.is_err() {
                    proof {
                        lemma_first_fault_prefix(options@, of, j as int + 1);
                        assert(mf(mounts@[i as int]) == mount_fault(*mount, uids@, gids@));
                        lemma_first_fault_prefix(mounts@, mf, i as int + 1);
                    }
                    return res;
                }
                j = j + 1;
            }
            proof {
                lemma_first_fault_whole(options@, of);
                assert(mf(mounts@[i as int]) == mount_fault(*mount, uids@, gids@));
            }
        } else {
            assert(mf(mounts@[i as int]) == mount_fault(*mount, uids@, gids@));
        }
        i = i + 1;
    }
    proof { lemma_first_fault_whole(mounts@, mf); }
    Ok(())
}

/// Checks the supplementary groups `additional` of the container's process.
fn validate_additional_gids(additional: &Vec<u32>, privileged: bool, gids: &Vec<IdMapping>) -> (r: Result<(), RootlessError>)
    ensures
        fault_of(r) == supplementary_fault(additional@, privileged, gids@),
{
    if additional.len() == 0 {
        return Ok(());
    }
    if !privileged {
        return Err(RootlessError::SupplementaryGroupsForbidden);
    }
    let ghost gf = group_check(gids@);
    let mut i: usize = 0;
    while i < additional.len()
        invariant
            0 <= i <= additional@.len(),
            additional@.len() > 0,
            privileged,
            gf == group_check(gids@),
            first_fault(additional@.take(i as int), gf) is None,
        decreases additional@.len() - i,
    {
        proof { lemma_first_fault_step(additional@, gf, i as int); }
        let g = additional[i];
        assert(gf(g) == if id_mapped(g, gids@) { None } else { Some(Fault::UnmappedSupplementaryGroup(g)) });
        if !is_id_mapped(g, gids.as_slice()) {
            proof { lemma_first_fault_prefix(additional@, gf, i as int + 1); }
            return Err(RootlessError::UnmappedSupplementaryGroup(g));
        }
        i = i + 1;
    }
    proof { lemma_first_fault_whole(additional@, gf); }
    Ok(())
}

/// Checks that `spec` meets what rootless operation needs: a user
/// namespace, non-empty UID and GID mappings, mount options that name mapped
/// ids, and supplementary groups only for a privileged user and only mapped
/// ones.
pub fn validate(spec: &Spec, privileged: bool) -> (r: Result<(), RootlessError>)
    ensures
        fault_of(r) == validation_fault(*spec, privileged),
{
    let linux = match &spec.linux {
        None => return Err(RootlessError::MissingPlatformSection),
        Some(l) => l,
    };
    if find_user_namespace(linux).is_none() {
        return Err(RootlessError::MissingUserNamespace);
    }
    let gids = match &linux.gid_mappings {
        None => return Err(RootlessError::MissingMapping(MappingKind::Gid)),
        Some(g) => g,
    };
    let uids = match &linux.uid_mappings {
        None => return Err(RootlessError::MissingMapping(MappingKind::Uid)),
        Some(u) => u,
    };
    if uids.len() == 0 {
        return Err(RootlessError::MissingMapping(MappingKind::Uid));
    }
    if gids.len() == 0 {
        return Err(RootlessError::MissingMapping(MappingKind::Gid));
    }
    if let Some(mounts) = &spec.mounts {
        let res = validate_mounts(mounts.as_slice(), uids, gids);
        if res.is_err() {
            return res;
        }
    } else {
        assert(mounts_of(*spec).len() == 0);
    }
    match &spec.process {
        Some(p) => match &p.additional_gids {
            Some(additional) => validate_additional_gids(additional, privileged, gids),
            None => Ok(()),
        },
        None => Ok(()),
    }
}

} // verus!
