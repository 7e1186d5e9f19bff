use vstd::prelude::*;

verus! {

/// Compares two strings character by character.
pub fn str_eq(a: &str, b: &str) -> (r: bool)
    ensures
        r == (a@ == b@),
{
    let n = a.unicode_len();
    if n != b.unicode_len() {
        return false;
    }
    let mut i: usize = 0;
    while i < n
        invariant
            n == a@.len(),
            n == b@.len(),
            i <= n,
            forall|k: int| 0 <= k < i ==> a@[k] == b@[k],
        decreases n - i,
    {
        if a.get_char(i) != b.get_char(i) {
            return false;
        }
        i = i + 1;
    }
    assert(a@ =~= b@);
    true
}

/// True when `p` is a prefix of `s`.
pub fn starts_with(s: &str, p: &str) -> (r: bool)
    ensures
        r == (p@.len() <= s@.len() && s@.subrange(0, p@.len() as int) == p@),
{
    let n = p.unicode_len();
    if n > s.unicode_len() {
        return false;
    }
    let mut i: usize = 0;
    while i < n
        invariant
            n == p@.len(),
            n <= s@.len(),
            i <= n,
            forall|k: int| 0 <= k < i ==> s@[k] == p@[k],
        decreases n - i,
    {
        if s.get_char(i) != p.get_char(i) {
            assert(s@.subrange(0, n as int)[i as int] != p@[i as int]);
            return false;
        }
        i = i + 1;
    }
    assert(s@.subrange(0, n as int) =~= p@);
    true
}

} // verus!

verus! {

/// `s` without its `_` separators.
pub open spec fn strip_underscores(s: Seq<char>) -> Seq<char>
    decreases s.len(),
{
    if s.len() == 0 {
        s
    } else if s.last() == '_' {
        strip_underscores(s.drop_last())
    } else {
        strip_underscores(s.drop_last()).push(s.last())
    }
}

/// Number of `.` in `s`.
pub open spec fn count_dots(s: Seq<char>) -> int
    decreases s.len(),
{
    if s.len() == 0 {
        0
    } else {
        count_dots(s.drop_last()) + if s.last() == '.' {
            1int
        } else {
            0
        }
    }
}

/// The decimal text a number token stands for: its digits and at most one
/// point, separators removed. A token with two or more points reads as `0`.
pub open spec fn numeral(t: Seq<char>) -> Seq<char> {
    if count_dots(strip_underscores(t)) <= 1 {
        strip_underscores(t)
    } else {
        seq!['0']
    }
}

pub fn numeral_text(t: &str) -> (r: String)
    ensures
        r@ == numeral(t@),
{
    let n = t.unicode_len();
    let mut r = String::new();
    let mut dots: usize = 0;
    let mut i: usize = 0;
    while i < n
        invariant
            n == t@.len(),
            i <= n,
            r@ == strip_underscores(t@.subrange(0, i as int)),
            dots == count_dots(strip_underscores(t@.subrange(0, i as int))),
            dots <= i,
        decreases n - i,
    {
        let c = t.get_char(i);
        let ghost sub = t@.subrange(0, i + 1);
        proof {
            assert(sub.drop_last() =~= t@.subrange(0, i as int));
        }
        if c != '_' {
            r.append(t.substring_char(i, i + 1));
            if c == '.' {
                dots = dots + 1;
            }
            proof {
                let s = strip_underscores(sub);
                assert(s.drop_last() == strip_underscores(t@.subrange(0, i as int)));
            }
        }
        i = i + 1;
    }
    assert(t@.subrange(0, n as int) =~= t@);
    if dots <= 1 {
        r
    } else {
        let z = String::from_str("0");
        proof {
            reveal_strlit("0");
        }
        z
    }
}

} // verus!

verus! {

/// `t` occurs in `s`.
pub open spec fn has_infix(s: Seq<char>, t: Seq<char>) -> bool {
    exists|i: int| 0 <= i && i + t.len() <= s.len() && #[trigger] s.subrange(i, i + t.len()) == t
}

pub fn contains_text(s: &str, t: &str) -> (r: bool)
    ensures
        r == has_infix(s@, t@),
{
    let n = s.unicode_len();
    let m = t.unicode_len();
    if m > n {
        return false;
    }
    if m == 0 {
        assert(s@.subrange(0, 0 + t@.len() as int) =~= t@);
        return true;
    }
    let mut i: usize = 0;
    while i <= n - m
        invariant
            n == s@.len(),
            m == t@.len(),
            1 <= m <= n,
            i <= n - m + 1,
            forall|j: int| 0 <= j < i ==> #[trigger] s@.subrange(j, j + m) != t@,
        decreases n - m + 1 - i,
    {
        let rest = s.substring_char(i, n);
        if starts_with(rest, t) {
            assert(rest@.subrange(0, m as int) =~= s@.subrange(i as int, i + m));
            return true;
        }
        assert(rest@.subrange(0, m as int) =~= s@.subrange(i as int, i + m));
        i = i + 1;
    }
    false
}

/// `s` without its trailing `0`s.
pub open spec fn strip_zeros(s: Seq<char>) -> Seq<char>
    decreases s.len(),
{
    if s.len() > 0 && s.last() == '0' {
        strip_zeros(s.drop_last())
    } else {
        s
    }
}

/// Fixed-point text tidied for display: with a decimal point, trailing
/// zeros go and then a bare trailing point; `-0` reads `0`.
pub open spec fn tidy_fixed(s: Seq<char>) -> Seq<char> {
    let t = if s.contains('.') {
        let z = strip_zeros(s);
        if z.len() > 0 && z.last() == '.' {
            z.drop_last()
        } else {
            z
        }
    } else {
        s
    };
    if t == seq!['-', '0'] {
        seq!['0']
    } else {
        t
    }
}

pub fn normalize_fixed(s: &str) -> (r: String)
    ensures
        r@ == tidy_fixed(s@),
{
    let n = s.unicode_len();
    let mut has_dot = false;
    let mut i: usize = 0;
    while i < n
        invariant
            n == s@.len(),
            i <= n,
            has_dot == exists|j: int| 0 <= j < i && s@[j] == '.',
        decreases n - i,
    {
        if s.get_char(i) == '.' {
            has_dot = true;
        }
        i = i + 1;
    }
    assert(has_dot == s@.contains('.'));
    let mut end: usize = n;
    assert(s@.subrange(0, n as int) =~= s@);
    if has_dot {
        while end > 0 && s.get_char(end - 1) == '0'
            invariant
                n == s@.len(),
                end <= n,
                strip_zeros(s@) == strip_zeros(s@.subrange(0, end as int)),
            decreases end,
        {
            assert(s@.subrange(0, end as int).drop_last() =~= s@.subrange(0, end - 1));
            end = end - 1;
        }
        assert(strip_zeros(s@.subrange(0, end as int)) == s@.subrange(0, end as int));
        if end > 0 && s.get_char(end - 1) == '.' {
            assert(s@.subrange(0, end as int).drop_last() =~= s@.subrange(0, end - 1));
            end = end - 1;
        }
    } else {
        assert(s@.subrange(0, n as int) =~= s@);
    }
    let t = s.substring_char(0, end);
    proof {
        reveal_strlit("-0");
        reveal_strlit("0");
    }
    if str_eq(t, "-0") {
        assert("-0"@ =~= seq!['-', '0']);
        let z = String::from_str("0");
        assert(z@ =~= seq!['0']);
        z
    } else {
        assert("-0"@ =~= seq!['-', '0']);
        String::from_str(t)
    }
}

} // verus!
