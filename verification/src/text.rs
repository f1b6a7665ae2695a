//! Text helpers: equality, ordering, ASCII lower-casing and trimming.

use vstd::prelude::*;

verus! {

/// Text equality, character by character.
pub fn same_text(a: &str, b: &str) -> (r: bool)
    ensures
        r == (a@ == b@),
{
    let n = a.unicode_len();
    let m = b.unicode_len();
    if n != m {
        return false;
    }
    let mut i: usize = 0;
    while i < n
        invariant
            n == a@.len(),
            m == b@.len(),
            n == m,
            i <= n,
            forall|j: int| 0 <= j < i ==> a@[j] == b@[j],
        decreases n - i,
    {
        if a.get_char(i) != b.get_char(i) {
            return false;
        }
        i = i + 1;
    }
    assert(a@ =~= b@);
    true
}

/// Whether `c` has the Unicode `White_Space` property.
pub open spec fn is_white_space(c: char) -> bool {
    let u = c as u32;
    ||| 0x09 <= u <= 0x0d
    ||| u == 0x20
    ||| u == 0x85
    ||| u == 0xa0
    ||| u == 0x1680
    ||| 0x2000 <= u <= 0x200a
    ||| u == 0x2028
    ||| u == 0x2029
    ||| u == 0x202f
    ||| u == 0x205f
    ||| u == 0x3000
}

/// `s` without its leading white space.
pub open spec fn spec_trim_start(s: Seq<char>) -> Seq<char>
    decreases s.len(),
{
    if s.len() > 0 && is_white_space(s[0]) {
        spec_trim_start(s.drop_first())
    } else {
        s
    }
}

/// `s` without its trailing white space.
pub open spec fn spec_trim_end(s: Seq<char>) -> Seq<char>
    decreases s.len(),
{
    if s.len() > 0 && is_white_space(s.last()) {
        spec_trim_end(s.drop_last())
    } else {
        s
    }
}

/// `s` without leading and trailing white space.
pub open spec fn spec_trim(s: Seq<char>) -> Seq<char> {
    spec_trim_end(spec_trim_start(s))
}

/// `c` in lower case if it is an ASCII upper-case letter, else `c`.
pub open spec fn spec_ascii_lower_char(c: char) -> char {
    if 'A' <= c && c <= 'Z' {
        ((c as u32) + 32) as char
    } else {
        c
    }
}

/// `s` with its ASCII upper-case letters in lower case.
pub open spec fn spec_ascii_lower(s: Seq<char>) -> Seq<char> {
    s.map_values(|c: char| spec_ascii_lower_char(c))
}

/// `str::trim`: the slice without leading and trailing characters of the
/// Unicode `White_Space` property, as its documentation states.
#[verifier::external_body]
pub fn trim_text(s: &str) -> (r: &str)
    ensures
        r@ == spec_trim(s@),
{
    s.trim()
}

/// `str::to_ascii_lowercase`: ASCII letters `A` to `Z` become `a` to `z`,
/// every other character is kept, as its documentation states.
#[verifier::external_body]
pub fn ascii_lowercase(s: &str) -> (r: String)
    ensures
        r@ == spec_ascii_lower(s@),
{
    s.to_ascii_lowercase()
}

/// Whether `a` comes no later than `b` in character order, comparing from
/// position `i` on (the characters before `i` being equal).
pub open spec fn text_le_from(a: Seq<char>, b: Seq<char>, i: int) -> bool
    decreases a.len() - i,
{
    if i < 0 || i >= a.len() {
        true
    } else if i >= b.len() {
        false
    } else if (a[i] as u32) < (b[i] as u32) {
        true
    } else if (a[i] as u32) > (b[i] as u32) {
        false
    } else {
        text_le_from(a, b, i + 1)
    }
}

/// Lexicographic order of texts by character: the order of Rust's `str`.
pub open spec fn text_le(a: Seq<char>, b: Seq<char>) -> bool {
    text_le_from(a, b, 0)
}

/// Whether `a` comes no later than `b` in character order.
pub fn text_le_exec(a: &str, b: &str) -> (r: bool)
    ensures
        r == text_le(a@, b@),
{
    let n = a.unicode_len();
    let m = b.unicode_len();
    let mut i: usize = 0;
    while i < n
        invariant
            n == a@.len(),
            m == b@.len(),
            i <= n,
            text_le(a@, b@) == text_le_from(a@, b@, i as int),
        decreases n - i,
    {
        if i >= m {
            return false;
        }
        let x = a.get_char(i);
        let y = b.get_char(i);
        if (x as u32) < (y as u32) {
            return true;
        }
        if (x as u32) > (y as u32) {
            return false;
        }
        i = i + 1;
    }
    true
}

pub proof fn lemma_text_le_total_from(a: Seq<char>, b: Seq<char>, i: int)
    requires
        0 <= i,
    ensures
        text_le_from(a, b, i) || text_le_from(b, a, i),
    decreases a.len() - i,
{
    if i < a.len() && i < b.len() && (a[i] as u32) == (b[i] as u32) {
        lemma_text_le_total_from(a, b, i + 1);
    }
}

pub proof fn lemma_text_le_trans_from(a: Seq<char>, b: Seq<char>, c: Seq<char>, i: int)
    requires
        0 <= i,
        text_le_from(a, b, i),
        text_le_from(b, c, i),
    ensures
        text_le_from(a, c, i),
    decreases a.len() - i,
{
    if i < a.len() && i < b.len() && i < c.len() && (a[i] as u32) == (b[i] as u32) && (b[i] as u32)
        == (c[i] as u32) {
        lemma_text_le_trans_from(a, b, c, i + 1);
    }
}

/// `a` agrees with `b`, code point for code point, at every position
/// before `n`.
pub open spec fn agree_before(a: Seq<char>, b: Seq<char>, n: int) -> bool {
    forall|k: int| 0 <= k < n ==> (#[trigger] a[k] as u32) == (b[k] as u32)
}

/// `a` comes before `b` at position `i`: they agree before it and `a`'s code
/// point there is the smaller.
pub open spec fn first_difference_less(a: Seq<char>, b: Seq<char>, i: int) -> bool {
    &&& 0 <= i < a.len()
    &&& i < b.len()
    &&& agree_before(a, b, i)
    &&& (a[i] as u32) < (b[i] as u32)
}

proof fn lemma_text_le_from_lexicographic(a: Seq<char>, b: Seq<char>, i: int)
    requires
        0 <= i <= a.len(),
        i <= b.len(),
        agree_before(a, b, i),
    ensures
        text_le_from(a, b, i) <==> ((a.len() <= b.len() && agree_before(a, b, a.len() as int))
            || exists|j: int| i <= j && #[trigger] first_difference_less(a, b, j)),
    decreases a.len() - i,
{
    if i == a.len() {
    } else if i == b.len() {
        assert(!(exists|j: int| i <= j && #[trigger] first_difference_less(a, b, j)));
    } else if (a[i] as u32) < (b[i] as u32) {
        assert(first_difference_less(a, b, i));
    } else if (a[i] as u32) > (b[i] as u32) {
        assert(!agree_before(a, b, a.len() as int)) by {
            assert(!((a[i] as u32) == (b[i] as u32)));
        }
        assert forall|j: int| i <= j implies !#[trigger] first_difference_less(a, b, j) by {
            if j > i && first_difference_less(a, b, j) {
                assert((a[i] as u32) == (b[i] as u32));
            }
        }
    } else {
        assert(agree_before(a, b, i + 1));
        lemma_text_le_from_lexicographic(a, b, i + 1);
        assert forall|j: int| i <= j && #[trigger] first_difference_less(a, b, j) implies i + 1 <= j by {
            if j == i {
                assert(!((a[i] as u32) < (b[i] as u32)));
            }
        }
    }
}

/// Character order is the lexicographic order of code points, that of
/// Rust's `str`: `a` comes no later than `b` exactly when `a` is a prefix of
/// `b`, or at the first position where they differ `a`'s code point is the
/// smaller.
pub proof fn lemma_text_le_is_lexicographic(a: Seq<char>, b: Seq<char>)
    ensures
        text_le(a, b) <==> ((a.len() <= b.len() && agree_before(a, b, a.len() as int))
            || exists|i: int| #[trigger] first_difference_less(a, b, i)),
{
    lemma_text_le_from_lexicographic(a, b, 0);
    assert((exists|i: int| #[trigger] first_difference_less(a, b, i)) <==> (exists|j: int|
        0 <= j && #[trigger] first_difference_less(a, b, j)));
}

/// Character order is total.
pub proof fn lemma_text_le_total(a: Seq<char>, b: Seq<char>)
    ensures
        text_le(a, b) || text_le(b, a),
{
    lemma_text_le_total_from(a, b, 0);
}

/// Character order is transitive.
pub proof fn lemma_text_le_trans(a: Seq<char>, b: Seq<char>, c: Seq<char>)
    requires
        text_le(a, b),
        text_le(b, c),
    ensures
        text_le(a, c),
{
    lemma_text_le_trans_from(a, b, c, 0);
}

} // verus!
