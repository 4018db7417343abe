//! The rule for acceptable plugin short names: lowercase ASCII letters,
//! digits and hyphens only — no spaces, no uppercase.

use vstd::prelude::*;
use vstd::string::StrSliceExecFns;

verus! {

/// A character acceptable in a plugin short name.
pub open spec fn is_name_char(c: char) -> bool {
    ('a' <= c && c <= 'z') || ('0' <= c && c <= '9') || c == '-'
}

/// Whether every character of `name` is acceptable in a plugin short name.
pub open spec fn valid_plugin_name(name: Seq<char>) -> bool {
    forall|i: int| 0 <= i < name.len() ==> is_name_char(#[trigger] name[i])
}

/// Checks a plugin short name: lowercase letters, digits and hyphens only
/// (kebab-case). The empty name passes here, as it does at the route that
/// applies this rule; length limits are enforced separately.
pub fn is_valid_plugin_name(name: &str) -> (r: bool)
    ensures
        r == valid_plugin_name(name@),
{
    let len = name.unicode_len();
    let mut i: usize = 0;
    while i < len
        invariant
            i <= name@.len(),
            len == name@.len(),
            forall|j: int| 0 <= j < i ==> is_name_char(#[trigger] name@[j]),
        decreases len - i,
    {
        let c = name.get_char(i);
        if !(('a' <= c && c <= 'z') || ('0' <= c && c <= '9') || c == '-') {
            return false;
        }
        i = i + 1;
    }
    true
}

} // verus!
