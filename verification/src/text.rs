//! Questions about text that the backends and the selector ask.

use vstd::prelude::*;
use vstd::string::StrSliceExecFns;

verus! {

/// The characters with the Unicode property `White_Space`.
pub open spec fn is_space(c: char) -> bool {
    let n = c as u32;
    ||| 0x09 <= n <= 0x0D
    ||| n == 0x20
    ||| n == 0x85
    ||| n == 0xA0
    ||| n == 0x1680
    ||| 0x2000 <= n <= 0x200A
    ||| n == 0x2028
    ||| n == 0x2029
    ||| n == 0x202F
    ||| n == 0x205F
    ||| n == 0x3000
}

/// Text that holds nothing but white space.
pub open spec fn is_blank(s: Seq<char>) -> bool {
    forall|i: int| 0 <= i < s.len() ==> is_space(#[trigger] s[i])
}

/// The first position of `c` in `s`, or the length of `s` where `c` does not occur.
pub open spec fn first_index(s: Seq<char>, c: char) -> int
    decreases s.len(),
{
    if s.len() == 0 {
        0
    } else if s[0] == c {
        0
    } else {
        1 + first_index(s.drop_first(), c)
    }
}

/// `first_index` is within the text, points at `c` where it is inside, and
/// nothing before it is `c`.
pub proof fn lemma_first_index(s: Seq<char>, c: char)
    ensures
        0 <= first_index(s, c) <= s.len(),
        first_index(s, c) < s.len() ==> s[first_index(s, c)] == c,
        forall|j: int| 0 <= j < first_index(s, c) ==> #[trigger] s[j] != c,
    decreases s.len(),
{
    if s.len() > 0 && s[0] != c {
        let t = s.drop_first();
        lemma_first_index(t, c);
        assert forall|j: int| 0 <= j < first_index(s, c) implies #[trigger] s[j] != c by {
            if j > 0 {
                assert(s[j] == t[j - 1]);
            }
        }
    }
}

/// A position that holds `c` with no `c` before it is the first index of `c`.
pub proof fn lemma_first_index_is(s: Seq<char>, c: char, i: int)
    requires
        0 <= i <= s.len(),
        i < s.len() ==> s[i] == c,
        forall|j: int| 0 <= j < i ==> #[trigger] s[j] != c,
    ensures
        first_index(s, c) == i,
{
    lemma_first_index(s, c);
    let f = first_index(s, c);
    if f < i {
        assert(s[f] != c);
    } else if i < f {
        assert(s[i] != c);
    }
}

/// Whether `c` is white space.
pub fn is_whitespace(c: char) -> (r: bool)
    ensures
        r == is_space(c),
{
    let n: u32 = c as u32;
    (0x09 <= n && n <= 0x0D) || n == 0x20 || n == 0x85 || n == 0xA0 || n == 0x1680 || (0x2000 <= n
        && n <= 0x200A) || n == 0x2028 || n == 0x2029 || n == 0x202F || n == 0x205F || n == 0x3000
}

/// Whether `text` is empty or holds white space only.
pub fn blank(text: &str) -> (r: bool)
    ensures
        r == is_blank(text@),
{
    let n: usize = text.unicode_len();
    let mut i: usize = 0;
    while i < n
        invariant
            n == text@.len(),
            i <= n,
            forall|j: int| 0 <= j < i ==> is_space(#[trigger] text@[j]),
        decreases n - i,
    {
        if !is_whitespace(text.get_char(i)) {
            return false;
        }
        i += 1;
    }
    true
}

/// The position of the first `c` in `text`, if `c` occurs in it.
pub fn find_char(text: &str, c: char) -> (r: Option<usize>)
    ensures
        match r {
            Some(i) => i == first_index(text@, c) && i < text@.len(),
            None => first_index(text@, c) == text@.len(),
        },
{
    let n: usize = text.unicode_len();
    let mut i: usize = 0;
    while i < n
        invariant
            n == text@.len(),
            i <= n,
            forall|j: int| 0 <= j < i ==> #[trigger] text@[j] != c,
        decreases n - i,
    {
        if text.get_char(i) == c {
            proof {
                lemma_first_index_is(text@, c, i as int);
            }
            return Some(i);
        }
        i += 1;
    }
    proof {
        lemma_first_index_is(text@, c, n as int);
    }
    None
}

} // verus!
