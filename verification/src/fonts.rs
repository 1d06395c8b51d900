//! Naming of the fonts an application loads.

use vstd::prelude::*;
use crate::shaders::last_dot;

verus! {

/// The key a font file is known by: its name up to its last dot, or the whole name when it has
/// no dot.
pub open spec fn spec_font_key(name: Seq<char>) -> Seq<char> {
    match last_dot(name) {
        Some(i) => name.subrange(0, i),
        None => name,
    }
}

/// The key a font file is known by: its name up to its last dot, or the whole name when it has
/// no dot.
pub fn font_key(name: &str) -> (r: &str)
    ensures
        r@ == spec_font_key(name@),
{
    let n = name.unicode_len();
    let mut i = n;
    while i > 0
        invariant
            n == name@.len(),
            i <= n,
            forall|j: int| i <= j < n ==> name@[j] != '.',
        ensures
            i <= n,
            forall|j: int| i <= j < n ==> name@[j] != '.',
            i == 0 || name@[i - 1] == '.',
        decreases i,
    {
        if name.get_char(i - 1) == '.' {
            break;
        }
        i = i - 1;
    }
    if i == 0 {
        proof {
            assert(!(exists|k: int| 0 <= k < name@.len() && name@[k] == '.'));
        }
        return name;
    }
    let dot = i - 1;
    proof {
        let s = name@;
        let c = choose|k: int| 0 <= k < s.len() && s[k] == '.' && forall|j: int| k < j < s.len() ==> s[j] != '.';
        assert(s[dot as int] == '.');
        assert(c == dot as int) by {
            if c < dot {
                assert(s[dot as int] != '.');
            } else if c > dot {
                assert(s[c] != '.');
            }
        }
    }
    name.substring_char(0, dot)
}

} // verus!
