//! Text helpers shared by the application core and the render pipeline:
//! case-insensitive containment, decimal formatting of counters, splitting a
//! body into lines, and joining label names.

use vstd::prelude::*;
use vstd::string::StrSliceExecFns;
use vstd::string::StringExecFns;

verus! {

// ---------------------------------------------------------------------------
// Case-insensitive containment
// ---------------------------------------------------------------------------

/// ASCII lowering on a Unicode codepoint: `A`..`Z` map to `a`..`z`, every
/// other codepoint is unchanged.
pub open spec fn lower_code(u: u32) -> u32 {
    if 65 <= u && u <= 90 {
        (u + 32) as u32
    } else {
        u
    }
}

/// Case-insensitive equality of two characters, by ASCII lowering.
pub open spec fn char_ci_eq(a: char, b: char) -> bool {
    lower_code(a as u32) == lower_code(b as u32)
}

/// The needle `n` occurs at position `i` of the haystack `h`, comparing
/// characters case-insensitively.
pub open spec fn ci_match_at(h: Seq<char>, n: Seq<char>, i: int) -> bool {
    forall|j: int| 0 <= j < n.len() ==> char_ci_eq(h[i + j], #[trigger] n[j])
}

/// The haystack `h` contains the needle `n` as a contiguous run of
/// characters, compared case-insensitively. An empty needle is contained in
/// every haystack.
pub open spec fn contains_ci(h: Seq<char>, n: Seq<char>) -> bool {
    exists|i: int| 0 <= i <= h.len() - n.len() && ci_match_at(h, n, i)
}

fn lower_code_ex(u: u32) -> (r: u32)
    ensures
        r == lower_code(u),
{
    if 65 <= u && u <= 90 {
        u + 32
    } else {
        u
    }
}

/// The characters of `s` as codepoints, in order.
fn codepoints(s: &str) -> (r: Vec<u32>)
    ensures
        r@.len() == s@.len(),
        forall|k: int| 0 <= k < s@.len() ==> r@[k] == #[trigger] s@[k] as u32,
{
    let len = s.unicode_len();
    let mut r: Vec<u32> = Vec::new();
    let mut k: usize = 0;
    while k < len
        invariant
            len == s@.len(),
            k <= len,
            r@.len() == k,
            forall|m: int| 0 <= m < k ==> r@[m] == #[trigger] s@[m] as u32,
        decreases len - k,
    {
        let c = s.get_char(k);
        r.push(c as u32);
        k = k + 1;
    }
    r
}

/// Whether `h` contains `n` as a contiguous run of characters, compared
/// case-insensitively (ASCII lowering); an empty `n` is always contained.
pub fn str_contains_ci(h: &str, n: &str) -> (r: bool)
    ensures
        r == contains_ci(h@, n@),
{
    let hv = codepoints(h);
    let nv = codepoints(n);
    if nv.len() > hv.len() {
        return false;
    }
    let bound = hv.len() - nv.len();
    let mut i: usize = 0;
    while i <= bound
        invariant
            nv@.len() <= hv@.len(),
            hv@.len() <= usize::MAX,
            bound == hv@.len() - nv@.len(),
            i <= bound + 1,
            hv@.len() == h@.len(),
            nv@.len() == n@.len(),
            forall|k: int| 0 <= k < h@.len() ==> hv@[k] == #[trigger] h@[k] as u32,
            forall|k: int| 0 <= k < n@.len() ==> nv@[k] == #[trigger] n@[k] as u32,
            forall|i2: int| 0 <= i2 < i ==> !ci_match_at(h@, n@, i2),
        decreases bound + 1 - i,
    {
        let mut j: usize = 0;
        let mut ok = true;
        while j < nv.len()
            invariant
                nv@.len() <= hv@.len(),
                hv@.len() <= usize::MAX,
                i <= hv@.len() - nv@.len(),
                j <= nv@.len(),
                hv@.len() == h@.len(),
                nv@.len() == n@.len(),
                forall|k: int| 0 <= k < h@.len() ==> hv@[k] == #[trigger] h@[k] as u32,
                forall|k: int| 0 <= k < n@.len() ==> nv@[k] == #[trigger] n@[k] as u32,
                ok ==> forall|j2: int| 0 <= j2 < j ==> char_ci_eq(h@[i + j2], #[trigger] n@[j2]),
                !ok ==> !ci_match_at(h@, n@, i as int),
            decreases nv@.len() - j,
        {
            assert(i + j < hv@.len());
            let jn = nv.len();
            if lower_code_ex(hv[i + j]) != lower_code_ex(nv[j]) {
                assert(!char_ci_eq(h@[i as int + j as int], n@[j as int]));
                ok = false;
                j = jn;
            } else {
                j = j + 1;
            }
        }
        if ok {
            assert(ci_match_at(h@, n@, i as int));
            return true;
        }
        i = i + 1;
    }
    false
}

// ---------------------------------------------------------------------------
// Decimal formatting
// ---------------------------------------------------------------------------

/// The decimal digit `d` as a character; meaningful for `0 <= d < 10`.
pub open spec fn dec_digit_char(d: int) -> char {
    if d == 0 {
        '0'
    } else if d == 1 {
        '1'
    } else if d == 2 {
        '2'
    } else if d == 3 {
        '3'
    } else if d == 4 {
        '4'
    } else if d == 5 {
        '5'
    } else if d == 6 {
        '6'
    } else if d == 7 {
        '7'
    } else if d == 8 {
        '8'
    } else {
        '9'
    }
}

/// The usual decimal rendering of a non-negative integer, without leading
/// zeros (`0` itself renders as "0").
pub open spec fn dec_digits(n: int) -> Seq<char>
    decreases n,
{
    if n < 10 {
        seq![dec_digit_char(n)]
    } else {
        dec_digits(n / 10).push(dec_digit_char(n % 10))
    }
}

fn digit_str(d: u64) -> (r: &'static str)
    requires
        d < 10,
    ensures
        r@ == seq![dec_digit_char(d as int)],
{
    if d == 0 {
        proof {
            reveal_strlit("0");
        }
        let r = "0";
        assert(r@ =~= seq![dec_digit_char(d as int)]);
        r
    } else if d == 1 {
        proof {
            reveal_strlit("1");
        }
        let r = "1";
        assert(r@ =~= seq![dec_digit_char(d as int)]);
        r
    } else if d == 2 {
        proof {
            reveal_strlit("2");
        }
        let r = "2";
        assert(r@ =~= seq![dec_digit_char(d as int)]);
        r
    } else if d == 3 {
        proof {
            reveal_strlit("3");
        }
        let r = "3";
        assert(r@ =~= seq![dec_digit_char(d as int)]);
        r
    } else if d == 4 {
        proof {
            reveal_strlit("4");
        }
        let r = "4";
        assert(r@ =~= seq![dec_digit_char(d as int)]);
        r
    } else if d == 5 {
        proof {
            reveal_strlit("5");
        }
        let r = "5";
        assert(r@ =~= seq![dec_digit_char(d as int)]);
        r
    } else if d == 6 {
        proof {
            reveal_strlit("6");
        }
        let r = "6";
        assert(r@ =~= seq![dec_digit_char(d as int)]);
        r
    } else if d == 7 {
        proof {
            reveal_strlit("7");
        }
        let r = "7";
        assert(r@ =~= seq![dec_digit_char(d as int)]);
        r
    } else if d == 8 {
        proof {
            reveal_strlit("8");
        }
        let r = "8";
        assert(r@ =~= seq![dec_digit_char(d as int)]);
        r
    } else {
        proof {
            reveal_strlit("9");
        }
        let r = "9";
        assert(r@ =~= seq![dec_digit_char(d as int)]);
        r
    }
}

/// Renders `n` in decimal.
pub fn u64_to_string(n: u64) -> (s: String)
    ensures
        s@ == dec_digits(n as int),
    decreases n,
{
    if n < 10 {
        String::from_str(digit_str(n))
    } else {
        let mut s = u64_to_string(n / 10);
        s.append(digit_str(n % 10));
        proof {
            assert(s@ =~= dec_digits(n as int));
        }
        s
    }
}

/// Renders `n` in decimal.
pub fn usize_to_string(n: usize) -> (s: String)
    ensures
        s@ == dec_digits(n as int),
{
    u64_to_string(n as u64)
}

// ---------------------------------------------------------------------------
// Splitting text into lines
// ---------------------------------------------------------------------------

/// The index of the first occurrence of `c` in `s`, or `s.len()` if there
/// is none.
pub open spec fn first_occ(s: Seq<char>, c: char) -> int
    decreases s.len(),
{
    if s.len() == 0 {
        0
    } else if s[0] == c {
        0
    } else {
        1 + first_occ(s.drop_first(), c)
    }
}

pub proof fn lemma_first_occ(s: Seq<char>, c: char)
    ensures
        0 <= first_occ(s, c) <= s.len(),
        first_occ(s, c) < s.len() ==> s[first_occ(s, c)] == c,
        forall|k: int| 0 <= k < first_occ(s, c) ==> s[k] != c,
    decreases s.len(),
{
    if s.len() == 0 {
    } else if s[0] == c {
    } else {
        lemma_first_occ(s.drop_first(), c);
        assert forall|k: int| 0 <= k < first_occ(s, c) implies s[k] != c by {
            if k > 0 {
                assert(s.drop_first()[k - 1] == s[k]);
            }
        }
    }
}

/// Removes one trailing carriage return, as the piece before a newline keeps
/// none when the separator was a carriage return followed by a newline.
pub open spec fn strip_cr(p: Seq<char>) -> Seq<char> {
    if p.len() > 0 && p[p.len() - 1] == '\r' {
        p.drop_last()
    } else {
        p
    }
}

/// The lines of `s`: pieces separated by newlines, a carriage return before
/// a newline dropped, and a final trailing newline producing no empty line.
/// The empty text has no lines.
pub open spec fn spec_lines(s: Seq<char>) -> Seq<Seq<char>>
    decreases s.len(),
        via spec_lines_dec
{
    if s.len() == 0 {
        Seq::empty()
    } else {
        let i = first_occ(s, '\n');
        if i == s.len() {
            seq![s]
        } else {
            seq![strip_cr(s.take(i))] + spec_lines(s.skip(i + 1))
        }
    }
}

#[via_fn]
proof fn spec_lines_dec(s: Seq<char>) {
    lemma_first_occ(s, '\n');
}

/// The index of the first occurrence of `c` in `s`, or its length if there
/// is none.
pub fn find_char(s: &str, c: char) -> (i: usize)
    ensures
        i == first_occ(s@, c),
{
    let len = s.unicode_len();
    let mut i: usize = 0;
    while i < len
        invariant
            len == s@.len(),
            i <= len,
            forall|k: int| 0 <= k < i ==> s@[k] != c,
        decreases len - i,
    {
        if s.get_char(i) == c {
            proof {
                lemma_first_occ(s@, c);
            }
            return i;
        }
        i = i + 1;
    }
    proof {
        lemma_first_occ(s@, c);
    }
    len
}

/// Splits `s` into its lines, as [`spec_lines`] describes.
pub fn split_lines(s: &str) -> (r: Vec<String>)
    ensures
        r@.map_values(|p: String| p@) == spec_lines(s@),
    decreases s@.len(),
{
    let len = s.unicode_len();
    if len == 0 {
        let r: Vec<String> = Vec::new();
        proof {
            assert(r@.map_values(|p: String| p@) =~= spec_lines(s@));
        }
        return r;
    }
    let i = find_char(s, '\n');
    proof {
        lemma_first_occ(s@, '\n');
    }
    if i == len {
        let mut r: Vec<String> = Vec::new();
        r.push(String::from_str(s));
        proof {
            assert(r@.map_values(|p: String| p@) =~= spec_lines(s@));
        }
        return r;
    }
    let head = if i > 0 && s.get_char(i - 1) == '\r' {
        let h = s.substring_char(0, i - 1);
        proof {
            assert(s@.take(i as int).drop_last() =~= s@.subrange(0, i as int - 1));
            assert(h@ == strip_cr(s@.take(i as int)));
        }
        h
    } else {
        let h = s.substring_char(0, i);
        proof {
            assert(s@.take(i as int) =~= s@.subrange(0, i as int));
            assert(h@ == strip_cr(s@.take(i as int)));
        }
        h
    };
    let tail = s.substring_char(i + 1, len);
    proof {
        assert(tail@ =~= s@.skip(i as int + 1));
    }
    let rest = split_lines(tail);
    let mut r: Vec<String> = Vec::new();
    r.push(String::from_str(head));
    let mut k: usize = 0;
    while k < rest.len()
        invariant
            k <= rest@.len(),
            r@.len() == 1 + k,
            r@[0]@ == strip_cr(s@.take(first_occ(s@, '\n'))),
            forall|m: int| 0 <= m < k ==> r@[m + 1]@ == #[trigger] rest@[m]@,
        decreases rest@.len() - k,
    {
        let piece = rest[k].clone();
        r.push(piece);
        k = k + 1;
    }
    proof {
        assert(r@.map_values(|p: String| p@) =~= seq![strip_cr(s@.take(first_occ(s@, '\n')))] + rest@.map_values(|p: String| p@));
        assert(r@.map_values(|p: String| p@) =~= spec_lines(s@));
    }
    r
}

// ---------------------------------------------------------------------------
// Single characters on a String
// ---------------------------------------------------------------------------

/// Relies on String::push: appends the given character to the end of the
/// string.
#[verifier::external_body]
pub fn push_char(s: &mut String, c: char)
    ensures
        final(s)@ == old(s)@.push(c),
{
    s.push(c);
}

/// Relies on String::pop: removes the last character of the string and
/// returns it, or returns None and leaves the string unchanged when it is
/// empty.
#[verifier::external_body]
pub fn pop_char(s: &mut String) -> (r: Option<char>)
    ensures
        old(s)@.len() == 0 ==> final(s)@ == old(s)@ && r is None,
        old(s)@.len() > 0 ==> final(s)@ == old(s)@.drop_last() && r == Some(old(s)@.last()),
{
    s.pop()
}

} // verus!
