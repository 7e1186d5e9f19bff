use vstd::prelude::*;

verus! {

/// The Unicode `White_Space` property.
pub open spec fn white_space(c: char) -> bool {
    let v = c as u32;
    (0x9 <= v <= 0xd) || v == 0x20 || v == 0x85 || v == 0xa0 || v == 0x1680 || (0x2000 <= v
        <= 0x200a) || v == 0x2028 || v == 0x2029 || v == 0x202f || v == 0x205f || v == 0x3000
}

fn is_whitespace(c: char) -> (r: bool)
    ensures
        r == white_space(c),
{
    let v = c as u32;
    (0x9 <= v && v <= 0xd) || v == 0x20 || v == 0x85 || v == 0xa0 || v == 0x1680 || (0x2000 <= v
        && v <= 0x200a) || v == 0x2028 || v == 0x2029 || v == 0x202f || v == 0x205f || v == 0x3000
}

/// `s` without leading whitespace.
pub open spec fn trim_start(s: Seq<char>) -> Seq<char>
    decreases s.len(),
{
    if s.len() > 0 && white_space(s[0]) {
        trim_start(s.drop_first())
    } else {
        s
    }
}

/// `s` without trailing whitespace.
pub open spec fn trim_end(s: Seq<char>) -> Seq<char>
    decreases s.len(),
{
    if s.len() > 0 && white_space(s.last()) {
        trim_end(s.drop_last())
    } else {
        s
    }
}

pub open spec fn trim(s: Seq<char>) -> Seq<char> {
    trim_end(trim_start(s))
}

pub open spec fn ans() -> Seq<char> {
    seq!['A', 'n', 's']
}

/// `s` with each occurrence of `Ans`, scanning left to right without
/// overlap, replaced by `rep`.
pub open spec fn replace_ans(s: Seq<char>, rep: Seq<char>) -> Seq<char>
    decreases s.len(),
{
    if s.len() == 0 {
        s
    } else if s.len() >= 3 && s.subrange(0, 3) == ans() {
        rep + replace_ans(s.skip(3), rep)
    } else {
        seq![s[0]] + replace_ans(s.skip(1), rep)
    }
}

/// The text to evaluate for a notebook line, given the displayed result of
/// the previous cell: none for a blank or comment-only line, else the trimmed
/// line with `Ans` replaced by that result.
pub open spec fn cell_text(line: Seq<char>, previous: Seq<char>) -> Option<Seq<char>> {
    let t = trim(line);
    if t.len() == 0 || t[0] == '#' {
        None
    } else {
        Some(replace_ans(t, previous))
    }
}

fn trimmed_bounds(s: &str) -> (r: (usize, usize))
    ensures
        r.0 <= r.1 <= s@.len(),
        s@.subrange(r.0 as int, r.1 as int) == trim(s@),
{
    let n = s.unicode_len();
    assert(s@.subrange(0, n as int) =~= s@);
    let mut a: usize = 0;
    while a < n && is_whitespace(s.get_char(a))
        invariant
            n == s@.len(),
            a <= n,
            trim_start(s@) == trim_start(s@.subrange(a as int, n as int)),
        decreases n - a,
    {
        assert(s@.subrange(a as int, n as int).drop_first() =~= s@.subrange(a + 1, n as int));
        a = a + 1;
    }
    assert(trim_start(s@.subrange(a as int, n as int)) == s@.subrange(a as int, n as int));
    let mut b: usize = n;
    while b > a && is_whitespace(s.get_char(b - 1))
        invariant
            n == s@.len(),
            a <= b <= n,
            trim(s@) == trim_end(s@.subrange(a as int, b as int)),
        decreases b,
    {
        assert(s@.subrange(a as int, b as int).drop_last() =~= s@.subrange(a as int, b - 1));
        b = b - 1;
    }
    (a, b)
}

/// Prepares a notebook line for evaluation.
pub fn expand_cell(line: &str, previous: &str) -> (r: Option<String>)
    ensures
        match (r, cell_text(line@, previous@)) {
            (Some(t), Some(u)) => t@ == u,
            (None, None) => true,
            _ => false,
        },
{
    let (a, b) = trimmed_bounds(line);
    let ghost t = line@.subrange(a as int, b as int);
    if a == b || line.get_char(a) == '#' {
        return None;
    }
    let mut out = String::new();
    let mut i: usize = a;
    while i < b
        invariant
            a <= i <= b <= line@.len(),
            t == line@.subrange(a as int, b as int),
            out@ + replace_ans(line@.subrange(i as int, b as int), previous@) == replace_ans(
                t,
                previous@,
            ),
        decreases b - i,
    {
        let ghost rest = line@.subrange(i as int, b as int);
        if b - i >= 3 && line.get_char(i) == 'A' && line.get_char(i + 1) == 'n' && line.get_char(
            i + 2,
        ) == 's' {
            assert(rest.subrange(0, 3) =~= ans());
            assert(rest.skip(3) =~= line@.subrange(i + 3, b as int));
            let ghost before = out@;
            out.append(previous);
            assert(out@ + replace_ans(line@.subrange(i + 3, b as int), previous@) =~= before
                + replace_ans(rest, previous@));
            i = i + 3;
        } else {
            if b - i >= 3 {
                assert(rest.subrange(0, 3) != ans()) by {
                    if rest.subrange(0, 3) == ans() {
                        assert(rest.subrange(0, 3)[0] == 'A');
                        assert(rest.subrange(0, 3)[1] == 'n');
                        assert(rest.subrange(0, 3)[2] == 's');
                    }
                }
            }
            assert(rest.skip(1) =~= line@.subrange(i + 1, b as int));
            let ghost before = out@;
            let piece = line.substring_char(i, i + 1);
            out.append(piece);
            assert(piece@ =~= seq![rest[0]]);
            assert(out@ + replace_ans(line@.subrange(i + 1, b as int), previous@) =~= before
                + replace_ans(rest, previous@));
            i = i + 1;
        }
    }
    assert(replace_ans(line@.subrange(i as int, b as int), previous@) =~= Seq::<char>::empty());
    assert(out@ =~= out@ + Seq::<char>::empty());
    Some(out)
}

} // verus!
