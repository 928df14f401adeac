//! Locating the helper programs that write multi-entry mappings.
use vstd::prelude::*;
use crate::error::{Fault, MappingKind, RootlessError};
use vstd::string::*;
use crate::mapping::{char_index, find_char, lemma_char_index_bounds};
use crate::model::Linux;
use crate::writer::{helper_name, helper_program_name, texts};

verus! {

/// What a search of the helper path found: whether the search path was set
/// at all, and the first place of each helper program on it.
#[derive(Clone, Debug)]
pub struct HelperSearch {
    pub path_set: bool,
    pub newuidmap: Option<String>,
    pub newgidmap: Option<String>,
}

/// Whether `linux` needs the helper programs: its UID mapping list is present
/// and does not hold exactly one entry.
pub open spec fn helpers_needed(linux: Linux) -> bool {
    match linux.uid_mappings {
        None => false,
        Some(v) => v@.len() != 1,
    }
}

/// The helper paths that `linux` needs, taken from `found`.
pub open spec fn lookup_spec(linux: Linux, found: HelperSearch) -> Result<Option<(Seq<char>, Seq<char>)>, Fault> {
    if !helpers_needed(linux) {
        Ok(None)
    } else if !found.path_set {
        Err(Fault::PathLookupFailure)
    } else {
        match (found.newuidmap, found.newgidmap) {
            (None, _) => Err(Fault::MissingHelperBinary(helper_name(MappingKind::Uid))),
            (_, None) => Err(Fault::MissingHelperBinary(helper_name(MappingKind::Gid))),
            (Some(u), Some(g)) => Ok(Some((u@, g@))),
        }
    }
}

/// The view of a lookup result.
pub open spec fn lookup_view(r: Result<Option<(String, String)>, RootlessError>) -> Result<Option<(Seq<char>, Seq<char>)>, Fault> {
    match r {
        Ok(Some((u, g))) => Ok(Some((u@, g@))),
        Ok(None) => Ok(None),
        Err(e) => Err(e@),
    }
}

/// Picks the `newuidmap` and `newgidmap` programs out of `found` when the
/// UID mappings of `spec` need them: a single entry is written directly, so
/// only a list of another length asks for both.
pub fn lookup_map_binaries(spec: &Linux, found: &HelperSearch) -> (r: Result<Option<(String, String)>, RootlessError>)
    ensures
        lookup_view(r) == lookup_spec(*spec, *found),
{
    match &spec.uid_mappings {
        None => Ok(None),
        Some(uids) => {
            if uids.len() == 1 {
                return Ok(None);
            }
            if !found.path_set {
                return Err(RootlessError::PathLookupFailure);
            }
            match (&found.newuidmap, &found.newgidmap) {
                (None, _) => Err(RootlessError::MissingHelperBinary(helper_program_name(MappingKind::Uid))),
                (_, None) => Err(RootlessError::MissingHelperBinary(helper_program_name(MappingKind::Gid))),
                (Some(u), Some(g)) => Ok(Some((u.clone(), g.clone()))),
            }
        },
    }
}

/// A single UID mapping entry needs no helper programs; two or more need
/// both, which are handed back exactly when the search found them, and are
/// an error otherwise.
pub proof fn lemma_helpers_follow_uid_entry_count(linux: Linux, found: HelperSearch)
    requires
        linux.uid_mappings is Some,
    ensures
        linux.uid_mappings->0@.len() == 1 ==> lookup_spec(linux, found) == Ok::<
            Option<(Seq<char>, Seq<char>)>,
            Fault,
        >(None),
        linux.uid_mappings->0@.len() >= 2 ==> match (found.path_set, found.newuidmap, found.newgidmap) {
            (true, Some(u), Some(g)) => lookup_spec(linux, found) == Ok::<
                Option<(Seq<char>, Seq<char>)>,
                Fault,
            >(Some((u@, g@))),
            _ => lookup_spec(linux, found) is Err,
        },
{
}

/// The pieces of `s` between colons, in order.
pub open spec fn colon_pieces(s: Seq<char>) -> Seq<Seq<char>>
    decreases s.len(),
{
    match char_index(s, ':') {
        None => seq![s],
        Some(i) => {
            if 0 <= i < s.len() {
                seq![s.take(i)] + colon_pieces(s.skip(i + 1))
            } else {
                seq![s]
            }
        },
    }
}

/// The directories of search path `s`: its pieces between colons, less a
/// last piece that is empty (so a trailing colon adds nothing, and an empty
/// path holds no directory).
pub open spec fn search_dirs(s: Seq<char>) -> Seq<Seq<char>> {
    let p = colon_pieces(s);
    if p.last().len() == 0 {
        p.drop_last()
    } else {
        p
    }
}

/// `name` placed in directory `dir`: an absolute `name` stands alone, an
/// empty `dir` adds nothing, and a separator goes between the two unless
/// `dir` already ends in one.
pub open spec fn joined(dir: Seq<char>, name: Seq<char>) -> Seq<char> {
    if name.len() > 0 && name[0] == '/' {
        name
    } else if dir.len() == 0 || dir.last() == '/' {
        dir + name
    } else {
        dir + seq!['/'] + name
    }
}

/// The places where `name` is looked for along search path `path`, in order.
pub open spec fn candidates(path: Seq<char>, name: Seq<char>) -> Seq<Seq<char>> {
    placed(search_dirs(path), name)
}

/// `name` placed in each of the directories `ds`.
pub open spec fn placed(ds: Seq<Seq<char>>, name: Seq<char>) -> Seq<Seq<char>> {
    ds.map_values(|d: Seq<char>| joined(d, name))
}

proof fn lemma_placed_push(out: Seq<String>, x: String, ds: Seq<Seq<char>>, d: Seq<char>, name: Seq<char>)
    requires
        texts(out) == placed(ds, name),
        x@ == joined(d, name),
    ensures
        texts(out.push(x)) == placed(ds.push(d), name),
{
    assert(texts(out).len() == out.len());
    assert(placed(ds, name).len() == ds.len());
    assert forall|k: int| 0 <= k < out.len() + 1 implies #[trigger] texts(out.push(x))[k] == placed(ds.push(d), name)[k] by {
        if k < out.len() {
            assert(texts(out)[k] == placed(ds, name)[k]);
        }
    }
    assert(texts(out.push(x)) =~= placed(ds.push(d), name));
}

/// `name` placed in directory `dir`.
fn join_path(dir: &str, name: &str) -> (r: String)
    ensures
        r@ == joined(dir@, name@),
{
    proof { reveal_strlit("/"); }
    let nl = name.unicode_len();
    if nl > 0 && name.get_char(0) == '/' {
        return String::from_str(name);
    }
    let dl = dir.unicode_len();
    let mut out = String::from_str(dir);
    if dl > 0 && dir.get_char(dl - 1) != '/' {
        out.append("/");
    }
    out.append(name);
    out
}

/// The places where `binary` is looked for along the colon-separated search
/// path `path_var`, first to last.
pub fn search_candidates(path_var: &str, binary: &str) -> (r: Vec<String>)
    ensures
        texts(r@) == candidates(path_var@, binary@),
{
    let n = path_var.unicode_len();
    let mut out: Vec<String> = Vec::new();
    let mut start: usize = 0;
    let ghost s = path_var@;
    let ghost mut done: Seq<Seq<char>> = Seq::empty();
    assert(s.skip(0) =~= s);
    assert(done + colon_pieces(s) =~= colon_pieces(s));
    assert(texts(out@) =~= placed(done, binary@));
    loop
        invariant
            0 <= start <= n,
            n == s.len(),
            s == path_var@,
            done + colon_pieces(s.skip(start as int)) == colon_pieces(s),
            texts(out@) == placed(done, binary@),
        decreases n - start,
    {
        let rest = path_var.substring_char(start, n);
        assert(rest@ =~= s.skip(start as int));
        match find_char(rest, ':') {
            None => {
                proof { lemma_char_index_bounds(rest@, ':'); }
                let ghost last = rest@;
                assert(colon_pieces(rest@) == seq![last]);
                if start < n {
                    let ghost before = out@;
                    let x = join_path(rest, binary);
                    out.push(x);
                    proof { lemma_placed_push(before, x, done, last, binary@); }
                    assert(done.push(last) =~= done + seq![last]);
                    assert(colon_pieces(s) =~= done + seq![last]);
                    assert(search_dirs(s) =~= done + seq![last]);
                } else {
                    assert(last.len() == 0);
                    assert(colon_pieces(s) =~= done + seq![last]);
                    assert(search_dirs(s) =~= done);
                }
                return out;
            },
            Some(j) => {
                proof { lemma_char_index_bounds(rest@, ':'); }
                let piece = rest.substring_char(0, j);
                let ghost pv = piece@;
                assert(pv =~= rest@.take(j as int));
                assert(colon_pieces(rest@) == seq![pv] + colon_pieces(rest@.skip(j as int + 1)));
                assert(rest@.skip(j as int + 1) =~= s.skip(start + j + 1));
                let ghost before = out@;
                let x = join_path(piece, binary);
                out.push(x);
                proof {
                    lemma_placed_push(before, x, done, pv, binary@);
                    assert(done.push(pv) =~= done + seq![pv]);
                    assert(done + seq![pv] + colon_pieces(s.skip(start + j + 1)) =~= done + colon_pieces(rest@));
                    done = done + seq![pv];
                }
                start = start + j + 1;
            },
        }
    }
}

/// Picks the first of `candidates` that exists, where `exists[i]` tells
/// whether `candidates[i]` does; places past the end of either list are
/// not looked at.
pub fn first_existing(candidates: &Vec<String>, exists: &Vec<bool>) -> (r: Option<String>)
    ensures
        r matches Some(p) ==> exists|i: int|
            0 <= i < candidates@.len() && i < exists@.len() && exists@[i] && p@ == candidates@[i]@
                && forall|j: int| 0 <= j < i ==> !exists@[j],
        r is None ==> forall|i: int|
            0 <= i < candidates@.len() && i < exists@.len() ==> !exists@[i],
{
    let mut i: usize = 0;
    while i < candidates.len() && i < exists.len()
        invariant
            0 <= i <= candidates@.len(),
            forall|j: int| 0 <= j < i && j < exists@.len() ==> !exists@[j],
        decreases candidates@.len() - i,
    {
        if exists[i] {
            let p = candidates[i].clone();
            assert(p@ == candidates@[i as int]@);
            return Some(p);
        }
        i = i + 1;
    }
    None
}

} // verus!
