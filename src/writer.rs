//! Planning the writes that establish a process's UID and GID mappings.
use vstd::prelude::*;
use vstd::string::*;
use crate::error::{Fault, MappingKind, RootlessError};
use crate::mapping::{
    all_digits, char_index, decimal, find_char, lemma_char_index_first,
    lemma_char_index_bounds, decimal_string, digit_char, digit_value, digits_value, is_digit, parse_u32,
    parse_u32_spec, signed_decimal, signed_decimal_string,
};
use crate::model::IdMapping;

verus! {

/// One step that establishes a mapping, for the caller to carry out.
#[derive(Clone, Debug)]
pub enum MappingAction {
    /// Replace the contents of the mapping file `path` with `content`, in a
    /// single write.
    WriteFile { path: String, content: String },
    /// Run the helper program `program` with `args` and wait for it to exit.
    RunHelper { program: String, args: Vec<String> },
}

/// The value of a [`MappingAction`], with its text as character sequences.
pub enum ActionView {
    WriteFile { path: Seq<char>, content: Seq<char> },
    RunHelper { program: Seq<char>, args: Seq<Seq<char>> },
}

/// The views of a list of strings.
pub open spec fn texts(v: Seq<String>) -> Seq<Seq<char>> {
    v.map_values(|a: String| a@)
}

impl View for MappingAction {
    type V = ActionView;

    open spec fn view(&self) -> ActionView {
        match self {
            MappingAction::WriteFile { path, content } => ActionView::WriteFile {
                path: path@,
                content: content@,
            },
            MappingAction::RunHelper { program, args } => ActionView::RunHelper {
                program: program@,
                args: texts(args@),
            },
        }
    }
}

/// The name of the helper program that writes multi-entry mappings of kind `k`.
pub open spec fn helper_name(k: MappingKind) -> Seq<char> {
    match k {
        MappingKind::Uid => "newuidmap"@,
        MappingKind::Gid => "newgidmap"@,
    }
}

/// The mapping file of kind `k` of process `pid`: `/proc/<pid>/uid_map` or
/// `/proc/<pid>/gid_map`.
pub open spec fn map_file_path(pid: i32, k: MappingKind) -> Seq<char> {
    "/proc/"@ + signed_decimal(pid as int) + match k {
        MappingKind::Uid => "/uid_map"@,
        MappingKind::Gid => "/gid_map"@,
    }
}

/// The line `<container_id> <host_id> <size>` that maps entry `m`.
pub open spec fn mapping_line(m: IdMapping) -> Seq<char> {
    decimal(m.container_id as nat) + seq![' '] + decimal(m.host_id as nat) + seq![' '] + decimal(
        m.size as nat,
    )
}

/// The helper arguments for the entries `ms`: three numbers per entry, in order.
pub open spec fn entry_args(ms: Seq<IdMapping>) -> Seq<Seq<char>>
    decreases ms.len(),
{
    if ms.len() == 0 {
        Seq::empty()
    } else {
        let m = ms.last();
        entry_args(ms.drop_last()) + seq![
            decimal(m.container_id as nat),
            decimal(m.host_id as nat),
            decimal(m.size as nat),
        ]
    }
}

/// How the mapping `ms` of kind `k` is established for process `pid`, with
/// the helper program located at `helper` if any: one entry is written
/// directly, several go through the helper.
pub open spec fn mapping_plan(
    pid: i32,
    k: MappingKind,
    ms: Seq<IdMapping>,
    helper: Option<Seq<char>>,
) -> Result<ActionView, Fault> {
    if ms.len() == 0 {
        Err(Fault::EmptyMappingList)
    } else if ms.len() == 1 {
        Ok(ActionView::WriteFile { path: map_file_path(pid, k), content: mapping_line(ms[0]) })
    } else {
        match helper {
            None => Err(Fault::MissingHelperBinary(helper_name(k))),
            Some(program) => Ok(
                ActionView::RunHelper {
                    program,
                    args: seq![signed_decimal(pid as int)] + entry_args(ms),
                },
            ),
        }
    }
}

/// The text of an optional string.
pub open spec fn opt_text(o: Option<&String>) -> Option<Seq<char>> {
    match o {
        Some(s) => Some(s@),
        None => None,
    }
}

/// The view of a planning result.
pub open spec fn plan_view(r: Result<MappingAction, RootlessError>) -> Result<ActionView, Fault> {
    match r {
        Ok(a) => Ok(a@),
        Err(e) => Err(e@),
    }
}

/// The name of the helper for kind `k`.
pub fn helper_program_name(k: MappingKind) -> (r: String)
    ensures
        r@ == helper_name(k),
{
    match k {
        MappingKind::Uid => String::from_str("newuidmap"),
        MappingKind::Gid => String::from_str("newgidmap"),
    }
}

/// The mapping file of kind `k` of process `pid`.
pub fn map_file(pid: i32, k: MappingKind) -> (r: String)
    ensures
        r@ == map_file_path(pid, k),
{
    let mut out = String::from_str("/proc/");
    let digits = signed_decimal_string(pid);
    out.append(digits.as_str());
    match k {
        MappingKind::Uid => out.append("/uid_map"),
        MappingKind::Gid => out.append("/gid_map"),
    }
    out
}

/// The line that maps entry `m`.
pub fn format_mapping_line(m: IdMapping) -> (r: String)
    ensures
        r@ == mapping_line(m),
{
    proof { reveal_strlit(" "); }
    let mut out = decimal_string(m.container_id);
    out.append(" ");
    out.append(decimal_string(m.host_id).as_str());
    out.append(" ");
    out.append(decimal_string(m.size).as_str());
    out
}

/// Decides how the mapping `mappings` of kind `k` is established for process
/// `pid`, with the helper program located at `map_binary` if any. Several
/// entries with no helper program located give `MissingHelperBinary`: the
/// helper is needed there, and the caller gets an error rather than a panic.
pub fn write_id_mapping(
    pid: i32,
    k: MappingKind,
    mappings: &Vec<IdMapping>,
    map_binary: Option<&String>,
) -> (r: Result<MappingAction, RootlessError>)
    ensures
        plan_view(r) == mapping_plan(pid, k, mappings@, opt_text(map_binary)),
{
    if mappings.len() == 0 {
        return Err(RootlessError::EmptyMappingList);
    }
    if mappings.len() == 1 {
        return Ok(
            MappingAction::WriteFile { path: map_file(pid, k), content: format_mapping_line(mappings[0]) },
        );
    }
    let program = match map_binary {
        None => return Err(RootlessError::MissingHelperBinary(helper_program_name(k))),
        Some(p) => p.clone(),
    };
    let mut args: Vec<String> = Vec::new();
    args.push(signed_decimal_string(pid));
    assert(texts(args@) =~= seq![signed_decimal(pid as int)]);
    assert(mappings@.take(0) =~= Seq::<IdMapping>::empty());
    let mut i: usize = 0;
    while i < mappings.len()
        invariant
            0 <= i <= mappings@.len(),
            texts(args@) =~= seq![signed_decimal(pid as int)] + entry_args(mappings@.take(i as int)),
        decreases mappings@.len() - i,
    {
        let m = mappings[i];
        let ghost before = args@;
        args.push(decimal_string(m.container_id));
        args.push(decimal_string(m.host_id));
        args.push(decimal_string(m.size));
        assert(mappings@.take(i as int + 1).drop_last() =~= mappings@.take(i as int));
        assert(texts(args@) =~= texts(before) + seq![
            decimal(m.container_id as nat),
            decimal(m.host_id as nat),
            decimal(m.size as nat),
        ]);
        i = i + 1;
    }
    assert(mappings@.take(i as int) =~= mappings@);
    Ok(MappingAction::RunHelper { program, args })
}

/// The result of a helper run that exited with `status` (none when it did not
/// run to an exit) and wrote `stderr`: only exit status zero is success.
pub fn check_helper_exit(status: Option<i32>, stderr: String) -> (r: Result<(), RootlessError>)
    ensures
        r is Ok <==> status == Some(0i32),
        r is Err ==> r->Err_0@ == (Fault::HelperExecutionFailure { status, stderr: stderr@ }),
{
    match status {
        Some(0) => Ok(()),
        _ => Err(RootlessError::HelperExecutionFailure { status, stderr }),
    }
}

/// The entry that a mapping line `s` describes: three unsigned numbers
/// separated by single spaces.
pub open spec fn parse_line_spec(s: Seq<char>) -> Option<IdMapping> {
    match char_index(s, ' ') {
        None => None,
        Some(i) => {
            let rest = s.skip(i + 1);
            match char_index(rest, ' ') {
                None => None,
                Some(j) => match (
                    parse_u32_spec(s.take(i)),
                    parse_u32_spec(rest.take(j)),
                    parse_u32_spec(rest.skip(j + 1)),
                ) {
                    (Some(c), Some(h), Some(z)) => Some(IdMapping { container_id: c, host_id: h, size: z }),
                    _ => None,
                },
            }
        },
    }
}

proof fn lemma_decimal_digits(n: nat)
    ensures
        decimal(n).len() > 0,
        all_digits(decimal(n)),
        digits_value(decimal(n)) == n,
    decreases n,
{
    if n >= 10 {
        lemma_decimal_digits(n / 10);
        let d = decimal(n / 10);
        let r = (n % 10) as nat;
        assert(is_digit(digit_char(r)) && digit_value(digit_char(r)) == r);
        assert(decimal(n).drop_last() =~= d);
        assert(digits_value(decimal(n)) == digits_value(d) * 10 + digit_value(digit_char(r)));
        assert((n / 10) * 10 + n % 10 == n);
    } else {
        assert(is_digit(digit_char(n)) && digit_value(digit_char(n)) == n);
        assert(decimal(n).drop_last() =~= Seq::<char>::empty());
        assert(digits_value(Seq::<char>::empty()) == 0);
    }
}

proof fn lemma_decimal_parses(n: u32)
    ensures
        parse_u32_spec(decimal(n as nat)) == Some(n),
        forall|k: int| 0 <= k < decimal(n as nat).len() ==> decimal(n as nat)[k] != ' ',
{
    lemma_decimal_digits(n as nat);
    let d = decimal(n as nat);
    assert(is_digit(d[0]));
    assert forall|k: int| 0 <= k < d.len() implies d[k] != ' ' by {
        assert(is_digit(d[k]));
    }
}

/// Reading back the line written for an entry gives the same entry.
pub proof fn lemma_mapping_line_round_trip(m: IdMapping)
    ensures
        parse_line_spec(mapping_line(m)) == Some(m),
{
    let a = decimal(m.container_id as nat);
    let b = decimal(m.host_id as nat);
    let c = decimal(m.size as nat);
    lemma_decimal_parses(m.container_id);
    lemma_decimal_parses(m.host_id);
    lemma_decimal_parses(m.size);
    let s = mapping_line(m);
    assert(s =~= a + seq![' '] + b + seq![' '] + c);
    lemma_char_index_first(s, ' ', a.len() as int);
    let rest = s.skip(a.len() as int + 1);
    assert(rest =~= b + seq![' '] + c);
    lemma_char_index_first(rest, ' ', b.len() as int);
    assert(s.take(a.len() as int) =~= a);
    assert(rest.take(b.len() as int) =~= b);
    assert(rest.skip(b.len() as int + 1) =~= c);
}

/// Reads a mapping line `<container_id> <host_id> <size>` back into an entry.
pub fn parse_mapping_line(s: &str) -> (r: Option<IdMapping>)
    ensures
        r == parse_line_spec(s@),
{
    let n = s.unicode_len();
    let i = match find_char(s, ' ') {
        None => return None,
        Some(i) => i,
    };
    proof { lemma_char_index_bounds(s@, ' '); }
    let first = s.substring_char(0, i);
    let rest = s.substring_char(i + 1, n);
    assert(rest@ =~= s@.skip(i + 1));
    assert(first@ =~= s@.take(i as int));
    let rn = rest.unicode_len();
    let j = match find_char(rest, ' ') {
        None => return None,
        Some(j) => j,
    };
    proof { lemma_char_index_bounds(rest@, ' '); }
    let second = rest.substring_char(0, j);
    let third = rest.substring_char(j + 1, rn);
    assert(second@ =~= rest@.take(j as int));
    assert(third@ =~= rest@.skip(j + 1));
    match (parse_u32(first), parse_u32(second), parse_u32(third)) {
        (Some(c), Some(h), Some(z)) => Some(IdMapping { container_id: c, host_id: h, size: z }),
        _ => None,
    }
}

} // verus!
