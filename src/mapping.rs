//! Id-range membership and the decimal text of ids.
use vstd::prelude::*;
use vstd::string::*;
use crate::model::IdMapping;

verus! {

/// Whether entry `m` covers `id`. Both ends are inclusive: an entry of size
/// `s` starting at `c` admits the `s + 1` ids `c ..= c + s`.
pub open spec fn covers(m: IdMapping, id: u32) -> bool {
    m.container_id <= id && id as int <= m.container_id as int + m.size as int
}

/// Whether some entry of `ms` covers `id`.
pub open spec fn id_mapped(id: u32, ms: Seq<IdMapping>) -> bool {
    exists|i: int| 0 <= i < ms.len() && covers(#[trigger] ms[i], id)
}

/// Checks whether `id` falls in one of `mappings`.
pub fn is_id_mapped(id: u32, mappings: &[IdMapping]) -> (r: bool)
    ensures
        r == id_mapped(id, mappings@),
{
    let mut i: usize = 0;
    while i < mappings.len()
        invariant
            0 <= i <= mappings@.len(),
            forall|j: int| 0 <= j < i ==> !covers(#[trigger] mappings@[j], id),
        decreases mappings@.len() - i,
    {
        let m = mappings[i];
        if id >= m.container_id && (id as u64) <= m.container_id as u64 + m.size as u64 {
            assert(covers(mappings@[i as int], id));
            return true;
        }
        i = i + 1;
    }
    false
}

/// The character of decimal digit `d`.
pub open spec fn digit_char(d: nat) -> char {
    if d == 0 { '0' } else if d == 1 { '1' } else if d == 2 { '2' } else if d == 3 { '3' }
    else if d == 4 { '4' } else if d == 5 { '5' } else if d == 6 { '6' } else if d == 7 { '7' }
    else if d == 8 { '8' } else { '9' }
}

/// Whether `c` is a decimal digit.
pub open spec fn is_digit(c: char) -> bool {
    '0' <= c && c <= '9'
}

/// The value of decimal digit `c`.
pub open spec fn digit_value(c: char) -> nat {
    (c as nat - '0' as nat) as nat
}

/// The decimal text of `n`, without leading zeros.
pub open spec fn decimal(n: nat) -> Seq<char>
    decreases n,
{
    if n < 10 {
        seq![digit_char(n)]
    } else {
        decimal(n / 10).push(digit_char(n % 10))
    }
}

/// The decimal text of a signed number.
pub open spec fn signed_decimal(n: int) -> Seq<char> {
    if n < 0 {
        seq!['-'] + decimal((-n) as nat)
    } else {
        decimal(n as nat)
    }
}

/// The value of a string of decimal digits.
pub open spec fn digits_value(s: Seq<char>) -> nat
    decreases s.len(),
{
    if s.len() == 0 {
        0
    } else {
        digits_value(s.drop_last()) * 10 + digit_value(s.last())
    }
}

/// Whether `s` consists of decimal digits only.
pub open spec fn all_digits(s: Seq<char>) -> bool {
    forall|i: int| 0 <= i < s.len() ==> is_digit(#[trigger] s[i])
}

/// `s` without one leading `+`, as unsigned integer parsing accepts it.
pub open spec fn unsigned_body(s: Seq<char>) -> Seq<char> {
    if s.len() > 0 && s[0] == '+' {
        s.skip(1)
    } else {
        s
    }
}

/// The unsigned 32-bit number that `s` spells: an optional `+`, then one
/// or more decimal digits whose value fits.
pub open spec fn parse_u32_spec(s: Seq<char>) -> Option<u32> {
    let d = unsigned_body(s);
    if d.len() > 0 && all_digits(d) && digits_value(d) <= u32::MAX {
        Some(digits_value(d) as u32)
    } else {
        None
    }
}

proof fn lemma_digits_value_grows(s: Seq<char>, i: int)
    requires
        0 <= i <= s.len(),
    ensures
        digits_value(s.take(i)) <= digits_value(s),
    decreases s.len(),
{
    if i < s.len() {
        assert(s.drop_last().take(i) =~= s.take(i));
        lemma_digits_value_grows(s.drop_last(), i);
    } else {
        assert(s.take(i) =~= s);
    }
}

/// Parses `s` as an unsigned 32-bit decimal number.
pub fn parse_u32(s: &str) -> (r: Option<u32>)
    ensures
        r == parse_u32_spec(s@),
{
    let n = s.unicode_len();
    let mut start: usize = 0;
    if n > 0 && s.get_char(0) == '+' {
        start = 1;
    }
    let ghost d = unsigned_body(s@);
    assert(d =~= s@.skip(start as int));
    if start >= n {
        return None;
    }
    let mut acc: u64 = 0;
    let mut i: usize = start;
    while i < n
        invariant
            start <= i <= n,
            n == s@.len(),
            d == s@.skip(start as int),
            d == unsigned_body(s@),
            all_digits(d.take(i - start)),
            acc == digits_value(d.take(i - start)),
            acc <= u32::MAX,
        decreases n - i,
    {
        let c = s.get_char(i);
        let ghost k = i - start;
        assert(d.take(k + 1).drop_last() =~= d.take(k));
        assert(d[k] == c);
        if c < '0' || c > '9' {
            assert(!is_digit(d[k]));
            assert(!all_digits(d));
            return None;
        }
        let v = acc * 10 + (c as u64 - '0' as u64);
        assert(digits_value(d.take(k + 1)) == v);
        if v > u32::MAX as u64 {
            proof { lemma_digits_value_grows(d, k + 1); }
            assert(d.take(d.len() as int) =~= d);
            return None;
        }
        acc = v;
        i = i + 1;
    }
    assert(d.take(i - start) =~= d);
    Some(acc as u32)
}

/// The one-character text of decimal digit `d`.
fn digit_str(d: u32) -> (r: &'static str)
    requires
        d < 10,
    ensures
        r@ == seq![digit_char(d as nat)],
{
    proof {
        reveal_strlit("0");
        reveal_strlit("1");
        reveal_strlit("2");
        reveal_strlit("3");
        reveal_strlit("4");
        reveal_strlit("5");
        reveal_strlit("6");
        reveal_strlit("7");
        reveal_strlit("8");
        reveal_strlit("9");
    }
    if d == 0 { "0" } else if d == 1 { "1" } else if d == 2 { "2" } else if d == 3 { "3" }
    else if d == 4 { "4" } else if d == 5 { "5" } else if d == 6 { "6" } else if d == 7 { "7" }
    else if d == 8 { "8" } else { "9" }
}

/// Appends the decimal text of `n` to `out`.
fn push_decimal(out: &mut String, n: u32)
    ensures
        final(out)@ == old(out)@ + decimal(n as nat),
    decreases n,
{
    if n >= 10 {
        push_decimal(out, n / 10);
    }
    out.append(digit_str(n % 10));
    proof {
        if n >= 10 {
            assert(decimal(n as nat) == decimal((n / 10) as nat).push(digit_char((n % 10) as nat)));
        }
    }
    assert(final(out)@ =~= old(out)@ + decimal(n as nat));
}

/// The decimal text of `n`.
pub fn decimal_string(n: u32) -> (r: String)
    ensures
        r@ == decimal(n as nat),
{
    let mut out = String::new();
    push_decimal(&mut out, n);
    assert(out@ =~= decimal(n as nat));
    out
}

/// The decimal text of `n`, with a leading `-` when it is negative.
pub fn signed_decimal_string(n: i32) -> (r: String)
    ensures
        r@ == signed_decimal(n as int),
{
    if n < 0 {
        let mut out = String::from_str("-");
        proof { reveal_strlit("-"); }
        let magnitude: u32 = (0 - (n as i64)) as u32;
        push_decimal(&mut out, magnitude);
        out
    } else {
        decimal_string(n as u32)
    }
}

/// Membership is a range test inclusive at both ends: an entry covers its
/// first id `container_id` and also `container_id + size`, but not the id
/// after that.
pub proof fn lemma_membership_bounds(m: IdMapping)
    ensures
        id_mapped(m.container_id, seq![m]),
        m.container_id as int + m.size as int <= u32::MAX ==> id_mapped(
            (m.container_id + m.size) as u32,
            seq![m],
        ),
        m.container_id as int + m.size as int + 1 <= u32::MAX ==> !id_mapped(
            (m.container_id + m.size + 1) as u32,
            seq![m],
        ),
{
    assert(covers(seq![m][0], m.container_id));
    if m.container_id as int + m.size as int <= u32::MAX {
        assert(covers(seq![m][0], (m.container_id + m.size) as u32));
    }
}

/// An id is mapped exactly when some entry holds it between its
/// `container_id` and `container_id + size`, both included.
pub proof fn lemma_membership(id: u32, ms: Seq<IdMapping>)
    ensures
        id_mapped(id, ms) <==> exists|i: int|
            0 <= i < ms.len() && #[trigger] ms[i].container_id <= id && id as int <= ms[i].container_id
                as int + ms[i].size as int,
{
}

/// The index of the first `c` in `s`, if there is one.
pub open spec fn char_index(s: Seq<char>, c: char) -> Option<int>
    decreases s.len(),
{
    if s.len() == 0 {
        None
    } else if s[0] == c {
        Some(0)
    } else {
        match char_index(s.skip(1), c) {
            Some(i) => Some(i + 1),
            None => None,
        }
    }
}

pub proof fn lemma_char_index_bounds(s: Seq<char>, c: char)
    ensures
        char_index(s, c) matches Some(i) ==> 0 <= i < s.len() && s[i] == c && forall|k: int|
            0 <= k < i ==> s[k] != c,
        char_index(s, c) is None ==> forall|k: int| 0 <= k < s.len() ==> s[k] != c,
    decreases s.len(),
{
    if s.len() > 0 {
        lemma_char_index_bounds(s.skip(1), c);
        assert forall|k: int| 1 <= k < s.len() implies s[k] == s.skip(1)[k - 1] by {}
    }
}

pub proof fn lemma_char_index_first(s: Seq<char>, c: char, i: int)
    requires
        0 <= i < s.len(),
        s[i] == c,
        forall|k: int| 0 <= k < i ==> s[k] != c,
    ensures
        char_index(s, c) == Some(i),
    decreases i,
{
    if i > 0 {
        lemma_char_index_first(s.skip(1), c, i - 1);
    }
}

/// The index of the first `c` in `s`.
pub fn find_char(s: &str, c: char) -> (r: Option<usize>)
    ensures
        r matches Some(i) ==> char_index(s@, c) == Some(i as int),
        r is None ==> char_index(s@, c) is None,
{
    let n = s.unicode_len();
    let mut i: usize = 0;
    while i < n
        invariant
            0 <= i <= n,
            n == s@.len(),
            forall|k: int| 0 <= k < i ==> s@[k] != c,
        decreases n - i,
    {
        if s.get_char(i) == c {
            proof { lemma_char_index_first(s@, c, i as int); }
            return Some(i);
        }
        i = i + 1;
    }
    proof { lemma_char_index_bounds(s@, c); }
    None
}

} // verus!
