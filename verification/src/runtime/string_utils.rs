use vstd::prelude::*;
use vstd::string::StrSliceExecFns;

verus! {

/// The characters Unicode gives the `White_Space` property, the ones
/// `str::trim` strips.
pub open spec fn spec_whitespace_char(c: char) -> bool {
    ||| c as int == 0x09
    ||| c as int == 0x0A
    ||| c as int == 0x0B
    ||| c as int == 0x0C
    ||| c as int == 0x0D
    ||| c as int == 0x20
    ||| c as int == 0x85
    ||| c as int == 0xA0
    ||| c as int == 0x1680
    ||| (0x2000 <= c as int <= 0x200A)
    ||| c as int == 0x2028
    ||| c as int == 0x2029
    ||| c as int == 0x202F
    ||| c as int == 0x205F
    ||| c as int == 0x3000
}

pub fn is_whitespace_char(c: char) -> (r: bool)
    ensures
        r == spec_whitespace_char(c),
{
    let u = c as u32;
    u == 0x09 || u == 0x0A || u == 0x0B || u == 0x0C || u == 0x0D || u == 0x20 || u == 0x85
        || u == 0xA0 || u == 0x1680 || (0x2000 <= u && u <= 0x200A) || u == 0x2028 || u == 0x2029
        || u == 0x202F || u == 0x205F || u == 0x3000
}

/// Whether every character of `input` is whitespace; true for the empty
/// string.
pub open spec fn spec_is_whitespace(s: Seq<char>) -> bool {
    forall|i: int| 0 <= i < s.len() ==> spec_whitespace_char(#[trigger] s[i])
}

pub fn is_whitespace(input: &str) -> (r: bool)
    ensures
        r == spec_is_whitespace(input@),
{
    let n = input.unicode_len();
    let mut i: usize = 0;
    while i < n
        invariant
            n == input@.len(),
            i <= n,
            forall|k: int| 0 <= k < i ==> spec_whitespace_char(#[trigger] input@[k]),
        decreases n - i,
    {
        if !is_whitespace_char(input.get_char(i)) {
            return false;
        }
        i += 1;
    }
    true
}

/// Whether `input` is absent, empty, or holds only whitespace.
pub fn is_none_or_whitespace(input: Option<&str>) -> (r: bool)
    ensures
        r == match input {
            Some(s) => spec_is_whitespace(s@),
            None => true,
        },
{
    match input {
        Some(s) => is_whitespace(s),
        None => true,
    }
}

/// Character-wise equality of two strings.
pub fn str_eq(a: &str, b: &str) -> (r: bool)
    ensures
        r == (a@ == b@),
{
    let n = a.unicode_len();
    let m = b.unicode_len();
    if n != m {
        return false;
    }
    let mut i: usize = 0;
    while i < n
        invariant
            n == a@.len(),
            n == b@.len(),
            i <= n,
            forall|k: int| 0 <= k < i ==> a@[k] == b@[k],
        decreases n - i,
    {
        if a.get_char(i) != b.get_char(i) {
            return false;
        }
        i += 1;
    }
    proof {
        assert(a@ =~= b@);
    }
    true
}

} // verus!
