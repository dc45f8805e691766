use vstd::prelude::*;

verus! {

#[verifier::external_type_specification]
#[verifier::external_body]
pub struct ExPrefix<'a>(std::path::Prefix<'a>);

/// Paths on this platform carry no prefix.
pub const HAS_PREFIXES: bool = false;

pub const MAIN_SEP_STR: &'static str = "/";

pub const MAIN_SEP: char = '/';

/// Whether `b` separates path components.
pub fn is_sep_byte(b: u8) -> (r: bool)
    ensures
        r == (b == 0x2f),
{
    b == 0x2f
}

/// Whether `b` separates components of a verbatim path.
pub fn is_verbatim_sep(b: u8) -> (r: bool)
    ensures
        r == (b == 0x2f),
{
    b == 0x2f
}

/// The prefix of the path with encoded bytes `path`: there never is one.
pub fn parse_prefix(path: &[u8]) -> (r: Option<std::path::Prefix<'_>>)
    ensures
        r is None,
{
    None
}

/// Whether the path with encoded bytes `path` is absolute: absolute paths
/// name a mount, as in `sd:/`, so they hold a colon.
pub fn is_absolute(path: &[u8]) -> (r: bool)
    ensures
        r == path@.contains(0x3a),
{
    let mut i: usize = 0;
    while i < path.len()
        invariant
            i <= path@.len(),
            forall|j: int| 0 <= j < i ==> path@[j] != 0x3a,
        decreases path@.len() - i,
    {
        if path[i] == 0x3a {
            return true;
        }
        i = i + 1;
    }
    false
}

} // verus!
