//! Reading the switch that allows unprivileged user-namespace creation.
use vstd::prelude::*;
use vstd::string::*;
use crate::error::{Fault, RootlessError};

verus! {

/// Whether `c` is white space in the sense of Unicode's `White_Space`
/// property, as `char::is_whitespace` decides it.
pub open spec fn is_white_space(c: char) -> bool {
    ('\u{9}' <= c && c <= '\u{d}') || c == ' ' || c == '\u{85}' || c == '\u{a0}' || c == '\u{1680}'
        || ('\u{2000}' <= c && c <= '\u{200a}') || c == '\u{2028}' || c == '\u{2029}' || c
        == '\u{202f}' || c == '\u{205f}' || c == '\u{3000}'
}

/// `s` without its leading white space.
pub open spec fn trim_start_spec(s: Seq<char>) -> Seq<char>
    decreases s.len(),
{
    if s.len() > 0 && is_white_space(s[0]) {
        trim_start_spec(s.skip(1))
    } else {
        s
    }
}

/// `s` without its trailing white space.
pub open spec fn trim_end_spec(s: Seq<char>) -> Seq<char>
    decreases s.len(),
{
    if s.len() > 0 && is_white_space(s.last()) {
        trim_end_spec(s.drop_last())
    } else {
        s
    }
}

/// `s` without leading and trailing white space.
pub open spec fn trimmed(s: Seq<char>) -> Seq<char> {
    trim_end_spec(trim_start_spec(s))
}

/// Relies on `str::trim`: the slice of `s` with the leading and trailing
/// characters for which `char::is_whitespace` holds removed.
#[verifier::external_body]
fn trim_white_space(s: &str) -> (r: &str)
    ensures
        r@ == trimmed(s@),
{
    s.trim()
}

/// What the trimmed switch value `v` says: exactly `0` forbids unprivileged
/// user namespaces, exactly `1` allows them, anything else is an error.
pub open spec fn userns_clone_spec(v: Seq<char>) -> Result<bool, Fault> {
    if v == seq!['0'] {
        Ok(false)
    } else if v == seq!['1'] {
        Ok(true)
    } else {
        Err(Fault::SysctlParseError(v))
    }
}

/// The view of a switch reading.
pub open spec fn switch_view(r: Result<bool, RootlessError>) -> Result<bool, Fault> {
    match r {
        Ok(b) => Ok(b),
        Err(e) => Err(e@),
    }
}

/// Reads the trimmed switch value `value`.
pub fn userns_clone_value(value: &str) -> (r: Result<bool, RootlessError>)
    ensures
        switch_view(r) == userns_clone_spec(value@),
{
    if value.unicode_len() == 1 {
        let c = value.get_char(0);
        if c == '0' {
            assert(value@ =~= seq!['0']);
            return Ok(false);
        }
        if c == '1' {
            assert(value@ =~= seq!['1']);
            return Ok(true);
        }
    }
    assert(value@ != seq!['0'] && value@ != seq!['1']) by {
        if value@.len() == 1 {
            assert(value@[0] == value@[0]);
        }
    }
    Err(RootlessError::SysctlParseError(String::from_str(value)))
}

/// Whether unprivileged users may create user namespaces, given the contents
/// of the switch file, or `None` when the file does not exist (then they may).
pub fn unprivileged_user_ns_enabled(content: Option<&str>) -> (r: Result<bool, RootlessError>)
    ensures
        content is None ==> r == Ok::<bool, RootlessError>(true),
        content matches Some(c) ==> switch_view(r) == userns_clone_spec(trimmed(c@)),
{
    match content {
        None => Ok(true),
        Some(c) => userns_clone_value(trim_white_space(c)),
    }
}

} // verus!
