//! Verified text scanning: substring search, line splitting and trimming
//! over character sequences, with executable counterparts on `&str`.

use vstd::prelude::*;

verus! {

/// Unicode white space, the set that marks a character as trimmable.
pub open spec fn is_ws(c: char) -> bool {
    let u = c as u32;
    u == 0x09 || u == 0x0A || u == 0x0B || u == 0x0C || u == 0x0D || u == 0x20 || u == 0x85
        || u == 0xA0 || u == 0x1680 || (0x2000 <= u && u <= 0x200A) || u == 0x2028 || u == 0x2029
        || u == 0x202F || u == 0x205F || u == 0x3000
}

/// `pat` occurs in `s` at position `i`.
pub open spec fn match_at(s: Seq<char>, pat: Seq<char>, i: int) -> bool {
    0 <= i && i + pat.len() <= s.len() && s.subrange(i, i + pat.len()) == pat
}

/// Position of the first occurrence of `pat` in `s` at or after `i`, or -1.
pub open spec fn find_from(s: Seq<char>, pat: Seq<char>, i: int) -> int
    recommends
        0 <= i <= s.len(),
    decreases s.len() - i,
        when 0 <= i <= s.len()
{
    if i + pat.len() > s.len() {
        -1
    } else if match_at(s, pat, i) {
        i
    } else if i >= s.len() {
        -1
    } else {
        find_from(s, pat, i + 1)
    }
}

/// `pat` occurs somewhere in `s`.
pub open spec fn contains_seq(s: Seq<char>, pat: Seq<char>) -> bool {
    find_from(s, pat, 0) >= 0
}

/// `s` begins with `pat`.
pub open spec fn starts_with(s: Seq<char>, pat: Seq<char>) -> bool {
    pat.len() <= s.len() && s.subrange(0, pat.len() as int) == pat
}

/// Position of the first occurrence of the character `c` at or after `i`, or -1.
pub open spec fn find_char_from(s: Seq<char>, c: char, i: int) -> int
    recommends
        0 <= i <= s.len(),
    decreases s.len() - i,
        when 0 <= i <= s.len()
{
    if i >= s.len() {
        -1
    } else if s[i] == c {
        i
    } else {
        find_char_from(s, c, i + 1)
    }
}

/// The first line of `s`: up to the first line feed, with a carriage return
/// immediately before that line feed stripped; `d` when `s` is empty.
pub open spec fn first_line_or(s: Seq<char>, d: Seq<char>) -> Seq<char> {
    if s.len() == 0 {
        d
    } else {
        let e = find_char_from(s, '\n', 0);
        if e >= 0 {
            let raw = s.subrange(0, e);
            if raw.len() > 0 && raw.last() == '\r' {
                raw.drop_last()
            } else {
                raw
            }
        } else {
            s
        }
    }
}

/// `s` without leading white space.
pub open spec fn trim_start(s: Seq<char>) -> Seq<char>
    decreases s.len(),
{
    if s.len() > 0 && is_ws(s[0]) {
        trim_start(s.drop_first())
    } else {
        s
    }
}

/// `s` without trailing white space.
pub open spec fn trim_end(s: Seq<char>) -> Seq<char>
    decreases s.len(),
{
    if s.len() > 0 && is_ws(s.last()) {
        trim_end(s.drop_last())
    } else {
        s
    }
}

/// `s` without leading and trailing white space.
pub open spec fn trim_seq(s: Seq<char>) -> Seq<char> {
    trim_end(trim_start(s))
}

/// Where `find_char_from` answers, the answer is the first occurrence.
pub proof fn lemma_find_char_from_props(s: Seq<char>, c: char, i: int)
    requires
        0 <= i <= s.len(),
    ensures
        find_char_from(s, c, i) == -1 ==> (forall|j: int| i <= j < s.len() ==> s[j] != c),
        find_char_from(s, c, i) >= 0 ==> {
            let r = find_char_from(s, c, i);
            i <= r < s.len() && s[r] == c && (forall|j: int| i <= j < r ==> s[j] != c)
        },
    decreases s.len() - i,
{
    if i >= s.len() {
    } else if s[i] == c {
    } else {
        lemma_find_char_from_props(s, c, i + 1);
    }
}

/// Where `find_from` answers, the answer is the first occurrence.
pub proof fn lemma_find_from_props(s: Seq<char>, pat: Seq<char>, i: int)
    requires
        0 <= i <= s.len(),
    ensures
        find_from(s, pat, i) == -1 ==> (forall|j: int| i <= j ==> !match_at(s, pat, j)),
        find_from(s, pat, i) >= 0 ==> {
            let r = find_from(s, pat, i);
            i <= r && match_at(s, pat, r) && (forall|j: int| i <= j < r ==> !match_at(s, pat, j))
        },
    decreases s.len() - i,
{
    if i + pat.len() > s.len() {
        assert forall|j: int| i <= j implies !match_at(s, pat, j) by {
            assert(j + pat.len() > s.len());
        }
    } else if match_at(s, pat, i) {
    } else if i >= s.len() {
        assert(s.subrange(i, i + pat.len()) =~= pat);
        assert(false);
    } else {
        lemma_find_from_props(s, pat, i + 1);
    }
}

/// A sequence stays a prefix of itself extended by any tail.
pub proof fn lemma_prefix_of_concat(a: Seq<char>, b: Seq<char>)
    ensures
        starts_with(a + b, a),
{
    assert((a + b).subrange(0, a.len() as int) =~= a);
}

/// A sequence stays a prefix of itself extended by any three tails.
pub proof fn lemma_prefix_of_concat3(a: Seq<char>, b: Seq<char>, c: Seq<char>, d: Seq<char>)
    ensures
        starts_with(((a + b) + c) + d, a),
{
    assert(((((a + b) + c) + d)).subrange(0, a.len() as int) =~= a);
}

/// White space test on one character.
pub fn char_is_ws(c: char) -> (r: bool)
    ensures
        r == is_ws(c),
{
    let u = c as u32;
    u == 0x09 || u == 0x0A || u == 0x0B || u == 0x0C || u == 0x0D || u == 0x20 || u == 0x85
        || u == 0xA0 || u == 0x1680 || (0x2000 <= u && u <= 0x200A) || u == 0x2028 || u == 0x2029
        || u == 0x202F || u == 0x205F || u == 0x3000
}

/// Character-wise comparison of `pat` against `s` at position `i`.
fn match_here(s: &str, pat: &str, i: usize) -> (r: bool)
    requires
        i + pat@.len() <= s@.len(),
    ensures
        r == match_at(s@, pat@, i as int),
{
    let m = pat.unicode_len();
    let n = s.unicode_len();
    let mut j: usize = 0;
    while j < m
        invariant
            j <= m,
            m == pat@.len(),
            n == s@.len(),
            i + m <= n,
            forall|k: int| 0 <= k < j ==> s@[i + k] == pat@[k],
        decreases m - j,
    {
        if s.get_char(i + j) != pat.get_char(j) {
            proof {
                if match_at(s@, pat@, i as int) {
                    assert(s@.subrange(i as int, i + m as int)[j as int] == pat@[j as int]);
                }
            }
            return false;
        }
        j = j + 1;
    }
    proof {
        assert(s@.subrange(i as int, i + m as int) =~= pat@);
    }
    true
}

/// First occurrence of `pat` in `s`, by character position.
pub fn find_sub(s: &str, pat: &str) -> (r: Option<usize>)
    ensures
        r matches Some(i) ==> find_from(s@, pat@, 0) == i as int,
        r is None ==> find_from(s@, pat@, 0) == -1,
{
    let n = s.unicode_len();
    let m = pat.unicode_len();
    if m > n {
        return None;
    }
    if m == 0 {
        proof {
            assert(pat@ =~= s@.subrange(0, 0));
            assert(match_at(s@, pat@, 0));
        }
        return Some(0);
    }
    let bound = n - m;
    let mut i: usize = 0;
    while i <= bound
        invariant
            0 <= i <= bound + 1,
            bound == n - m,
            1 <= m == pat@.len(),
            n == s@.len(),
            find_from(s@, pat@, 0) == find_from(s@, pat@, i as int),
        ensures
            (i <= bound && find_from(s@, pat@, 0) == i as int) || (i == bound + 1 && find_from(
                s@,
                pat@,
                0,
            ) == -1),
        decreases bound + 1 - i,
    {
        if match_here(s, pat, i) {
            proof {
                assert(find_from(s@, pat@, i as int) == i as int);
            }
            break;
        }
        proof {
            assert(find_from(s@, pat@, i as int) == find_from(s@, pat@, i as int + 1));
        }
        i = i + 1;
    }
    if i <= bound {
        Some(i)
    } else {
        proof {
            assert(find_from(s@, pat@, i as int) == -1);
        }
        None
    }
}

/// First occurrence of the character `c` in `s`, by character position.
pub fn find_char(s: &str, c: char) -> (r: Option<usize>)
    ensures
        r matches Some(i) ==> find_char_from(s@, c, 0) == i as int && (i as int) < s@.len(),
        r is None ==> find_char_from(s@, c, 0) == -1,
{
    let n = s.unicode_len();
    let mut i: usize = 0;
    while i < n
        invariant
            0 <= i <= n,
            n == s@.len(),
            find_char_from(s@, c, 0) == find_char_from(s@, c, i as int),
        decreases n - i,
    {
        if s.get_char(i) == c {
            return Some(i);
        }
        i = i + 1;
    }
    None
}

/// `s` begins with `pat`.
pub fn str_starts_with(s: &str, pat: &str) -> (r: bool)
    ensures
        r == starts_with(s@, pat@),
{
    let n = s.unicode_len();
    let m = pat.unicode_len();
    if m > n {
        return false;
    }
    match_here(s, pat, 0)
}

/// The characters of `s` from `from` (inclusive) to its end.
pub fn str_skip<'a>(s: &'a str, from: usize) -> (r: &'a str)
    requires
        from <= s@.len(),
    ensures
        r@ == s@.subrange(from as int, s@.len() as int),
{
    let n = s.unicode_len();
    s.substring_char(from, n)
}

/// `s` without leading and trailing white space.
pub fn str_trim<'a>(s: &'a str) -> (r: &'a str)
    ensures
        r@ == trim_seq(s@),
{
    let n = s.unicode_len();
    let mut a: usize = 0;
    proof {
        assert(s@.subrange(0, n as int) =~= s@);
    }
    while a < n && char_is_ws(s.get_char(a))
        invariant
            0 <= a <= n,
            n == s@.len(),
            trim_start(s@) == trim_start(s@.subrange(a as int, n as int)),
        decreases n - a,
    {
        proof {
            let sub = s@.subrange(a as int, n as int);
            assert(sub[0] == s@[a as int]);
            assert(sub.drop_first() =~= s@.subrange(a as int + 1, n as int));
        }
        a = a + 1;
    }
    proof {
        let sub = s@.subrange(a as int, n as int);
        if a < n {
            assert(sub[0] == s@[a as int]);
        }
        assert(trim_start(sub) == sub);
    }
    let mut b: usize = n;
    while b > a && char_is_ws(s.get_char(b - 1))
        invariant
            a <= b <= n,
            n == s@.len(),
            trim_start(s@) == s@.subrange(a as int, n as int),
            trim_end(s@.subrange(a as int, n as int)) == trim_end(s@.subrange(a as int, b as int)),
        decreases b,
    {
        proof {
            let sub = s@.subrange(a as int, b as int);
            assert(sub.last() == s@[b - 1]);
            assert(sub.drop_last() =~= s@.subrange(a as int, b as int - 1));
        }
        b = b - 1;
    }
    proof {
        let sub = s@.subrange(a as int, b as int);
        if b > a {
            assert(sub.last() == s@[b - 1]);
        }
        assert(trim_end(sub) == sub);
    }
    s.substring_char(a, b)
}

/// The first line of `s`, with `d` standing in when `s` is empty.
pub fn str_first_line_or<'a>(s: &'a str, d: &'a str) -> (r: &'a str)
    ensures
        r@ == first_line_or(s@, d@),
{
    let n = s.unicode_len();
    if n == 0 {
        return d;
    }
    match find_char(s, '\n') {
        Some(e) => {
            proof {
                lemma_find_char_from_props(s@, '\n', 0);
            }
            if e > 0 && s.get_char(e - 1) == '\r' {
                proof {
                    let raw = s@.subrange(0, e as int);
                    assert(raw.last() == s@[e - 1]);
                    assert(raw.drop_last() =~= s@.subrange(0, e as int - 1));
                }
                s.substring_char(0, e - 1)
            } else {
                proof {
                    let raw = s@.subrange(0, e as int);
                    if raw.len() > 0 {
                        assert(raw.last() == s@[e - 1]);
                    }
                }
                s.substring_char(0, e)
            }
        },
        None => s,
    }
}

} // verus!
