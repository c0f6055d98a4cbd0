//! Small verified string utilities: equality and prefix tests over `&str`,
//! decimal rendering of integers, extraction of the trailing `::`-separated
//! path segment, and separator-joined concatenation.

use vstd::prelude::*;
use vstd::string::StrSliceExecFns;
use vstd::string::StringExecFns;

verus! {

/// Character-for-character equality of two string slices.
pub fn str_eq(a: &str, b: &str) -> (r: bool)
    ensures
        r == (a@ == b@),
{
    let x: String = a.to_owned();
    let y: String = b.to_owned();
    x == y
}

/// `p` is a prefix of `s`.
pub open spec fn spec_starts_with(s: Seq<char>, p: Seq<char>) -> bool {
    p.len() <= s.len() && s.subrange(0, p.len() as int) == p
}

pub fn str_starts_with(s: &str, p: &str) -> (r: bool)
    ensures
        r == spec_starts_with(s@, p@),
{
    let sl = s.unicode_len();
    let pl = p.unicode_len();
    if pl > sl {
        return false;
    }
    let mut i: usize = 0;
    while i < pl
        invariant
            i <= pl,
            pl == p@.len(),
            sl == s@.len(),
            pl <= sl,
            forall|j: int| 0 <= j < i ==> s@[j] == p@[j],
        decreases pl - i,
    {
        if s.get_char(i) != p.get_char(i) {
            proof {
                assert(s@.subrange(0, pl as int)[i as int] != p@[i as int]);
            }
            return false;
        }
        i += 1;
    }
    proof {
        assert(s@.subrange(0, pl as int) =~= p@);
    }
    true
}

/// The decimal digit character for `d` (0 through 9).
pub open spec fn spec_digit(d: int) -> char {
    if d == 0 {
        '0'
    } else if d == 1 {
        '1'
    } else if d == 2 {
        '2'
    } else if d == 3 {
        '3'
    } else if d == 4 {
        '4'
    } else if d == 5 {
        '5'
    } else if d == 6 {
        '6'
    } else if d == 7 {
        '7'
    } else if d == 8 {
        '8'
    } else {
        '9'
    }
}

/// The usual decimal rendering of a non-negative integer, without leading
/// zeroes (and `0` itself as "0").
pub open spec fn spec_dec(n: int) -> Seq<char>
    decreases n,
{
    if n <= 0 {
        seq!['0']
    } else if n < 10 {
        seq![spec_digit(n)]
    } else {
        spec_dec(n / 10) + seq![spec_digit(n % 10)]
    }
}

fn push_digit(buf: &mut String, d: u64)
    requires
        d < 10,
    ensures
        final(buf)@ == old(buf)@ + seq![spec_digit(d as int)],
{
    if d == 0 {
        proof {
            reveal_strlit("0");
            assert("0"@ =~= seq![spec_digit(0int)]);
        }
        buf.append("0");
    } else if d == 1 {
        proof {
            reveal_strlit("1");
            assert("1"@ =~= seq![spec_digit(1int)]);
        }
        buf.append("1");
    } else if d == 2 {
        proof {
            reveal_strlit("2");
            assert("2"@ =~= seq![spec_digit(2int)]);
        }
        buf.append("2");
    } else if d == 3 {
        proof {
            reveal_strlit("3");
            assert("3"@ =~= seq![spec_digit(3int)]);
        }
        buf.append("3");
    } else if d == 4 {
        proof {
            reveal_strlit("4");
            assert("4"@ =~= seq![spec_digit(4int)]);
        }
        buf.append("4");
    } else if d == 5 {
        proof {
            reveal_strlit("5");
            assert("5"@ =~= seq![spec_digit(5int)]);
        }
        buf.append("5");
    } else if d == 6 {
        proof {
            reveal_strlit("6");
            assert("6"@ =~= seq![spec_digit(6int)]);
        }
        buf.append("6");
    } else if d == 7 {
        proof {
            reveal_strlit("7");
            assert("7"@ =~= seq![spec_digit(7int)]);
        }
        buf.append("7");
    } else if d == 8 {
        proof {
            reveal_strlit("8");
            assert("8"@ =~= seq![spec_digit(8int)]);
        }
        buf.append("8");
    } else {
        proof {
            reveal_strlit("9");
            assert("9"@ =~= seq![spec_digit(9int)]);
        }
        buf.append("9");
    }
}

/// Appends the decimal rendering of `n` to `buf`.
pub fn push_u64(buf: &mut String, n: u64)
    ensures
        final(buf)@ == old(buf)@ + spec_dec(n as int),
    decreases n,
{
    if n >= 10 {
        push_u64(buf, n / 10);
        push_digit(buf, n % 10);
        proof {
            assert(buf@ =~= old(buf)@ + spec_dec(n as int));
        }
    } else {
        push_digit(buf, n);
    }
}

/// Index of the first `::` separator in `s` under a left-to-right scan, or
/// -1 when there is none.
pub open spec fn spec_first_sep(s: Seq<char>) -> int
    decreases s.len(),
{
    if s.len() < 2 {
        -1
    } else if s[0] == ':' && s[1] == ':' {
        0
    } else {
        let r = spec_first_sep(s.skip(1));
        if r == -1 {
            -1
        } else {
            r + 1
        }
    }
}

pub proof fn lemma_first_sep_bounds(s: Seq<char>)
    ensures
        spec_first_sep(s) != -1 ==> 0 <= spec_first_sep(s) && spec_first_sep(s) + 2 <= s.len()
            && s[spec_first_sep(s)] == ':' && s[spec_first_sep(s) + 1] == ':' && (forall|j: int|
            0 <= j < spec_first_sep(s) ==> !((#[trigger] s[j]) == ':' && s[j + 1] == ':')),
        spec_first_sep(s) == -1 ==> forall|j: int|
            0 <= j && j + 2 <= s.len() ==> !((#[trigger] s[j]) == ':' && s[j + 1] == ':'),
    decreases s.len(),
{
    if s.len() < 2 {
    } else if s[0] == ':' && s[1] == ':' {
    } else {
        lemma_first_sep_bounds(s.skip(1));
        let t = s.skip(1);
        assert(forall|j: int| 0 <= j && j + 1 <= t.len() ==> (#[trigger] t[j]) == s[j + 1]);
        let r = spec_first_sep(t);
        if r == -1 {
            assert forall|j: int| 0 <= j && j + 2 <= s.len() implies !((#[trigger] s[j]) == ':'
                && s[j + 1] == ':') by {
                if j > 0 {
                    assert(t[j - 1] == s[j] && t[j] == s[j + 1]);
                }
            }
        } else {
            assert forall|j: int| 0 <= j < spec_first_sep(s) implies !((#[trigger] s[j]) == ':'
                && s[j + 1] == ':') by {
                if j > 0 {
                    assert(t[j - 1] == s[j] && t[j] == s[j + 1]);
                }
            }
        }
    }
}

/// The last segment of `s` when it is cut at each `::` separator, scanning
/// from the left: the trailing simple name of a `::`-separated path.
pub open spec fn spec_last_segment(s: Seq<char>) -> Seq<char>
    decreases s.len(),
    via spec_last_segment_decreases
{
    if spec_first_sep(s) == -1 {
        s
    } else {
        spec_last_segment(s.skip(spec_first_sep(s) + 2))
    }
}

#[via_fn]
proof fn spec_last_segment_decreases(s: Seq<char>) {
    lemma_first_sep_bounds(s);
}

pub fn last_segment_of(s: &str) -> (r: String)
    ensures
        r@ == spec_last_segment(s@),
{
    let n = s.unicode_len();
    let mut start: usize = 0;
    let mut i: usize = 0;
    proof {
        assert(s@.skip(0) =~= s@);
    }
    while i < n && i + 1 < n
        invariant
            start <= i,
            i <= n,
            n == s@.len(),
            spec_last_segment(s@) == spec_last_segment(s@.skip(start as int)),
            forall|j: int| start <= j < i ==> !((#[trigger] s@[j]) == ':' && s@[j + 1] == ':'),
        decreases n - i,
    {
        if s.get_char(i) == ':' && s.get_char(i + 1) == ':' {
            proof {
                let t = s@.skip(start as int);
                lemma_first_sep_bounds(t);
                assert(forall|k: int| 0 <= k && k + start < n ==> (#[trigger] t[k]) == s@[k + start]);
                assert(t[i - start] == ':' && t[i - start + 1] == ':');
                let f = spec_first_sep(t);
                assert(f != -1);
                assert(f == i - start) by {
                    if f < i - start {
                        assert(s@[f + start] == ':' && s@[f + start + 1] == ':');
                    }
                }
                assert(t.skip(f + 2) =~= s@.skip(i as int + 2));
                assert(spec_last_segment(s@) == spec_last_segment(s@.skip(i as int + 2)));
            }
            start = i + 2;
            i = i + 2;
        } else {
            i = i + 1;
        }
    }
    proof {
        let t = s@.skip(start as int);
        lemma_first_sep_bounds(t);
        assert(forall|k: int| 0 <= k && k + start < n ==> (#[trigger] t[k]) == s@[k + start]);
        if spec_first_sep(t) != -1 {
            let f = spec_first_sep(t);
            assert(s@[f + start] == ':' && s@[f + start + 1] == ':');
            assert(false);
        }
        assert(spec_last_segment(s@) == t);
    }
    let r = s.substring_char(start, n);
    r.to_owned()
}

/// `parts` concatenated with `sep` between consecutive elements.
pub open spec fn spec_join(parts: Seq<Seq<char>>, sep: Seq<char>) -> Seq<char>
    decreases parts.len(),
{
    if parts.len() == 0 {
        Seq::empty()
    } else if parts.len() == 1 {
        parts[0]
    } else {
        spec_join(parts.drop_last(), sep) + sep + parts.last()
    }
}

pub fn join_strings(parts: &Vec<String>, sep: &str) -> (r: String)
    ensures
        r@ == spec_join(parts@.map_values(|p: String| p@), sep@),
{
    let ghost m = parts@.map_values(|p: String| p@);
    let mut buf = String::new();
    let mut i: usize = 0;
    while i < parts.len()
        invariant
            i <= parts@.len(),
            m == parts@.map_values(|p: String| p@),
            m.len() == parts@.len(),
            buf@ == spec_join(m.take(i as int), sep@),
        decreases parts@.len() - i,
    {
        if i > 0 {
            buf.append(sep);
        }
        buf.append(parts[i].as_str());
        proof {
            assert(m.take(i as int + 1).drop_last() =~= m.take(i as int));
            assert(m.take(i as int + 1).last() == m[i as int]);
            assert(buf@ =~= spec_join(m.take(i as int + 1), sep@));
        }
        i += 1;
    }
    proof {
        assert(m.take(parts@.len() as int) =~= m);
    }
    buf
}

/// The tail of the line-commented form of `s`: each newline has `-- `
/// inserted after it; other characters are kept.
pub open spec fn spec_commented_tail(s: Seq<char>) -> Seq<char>
    decreases s.len(),
{
    if s.len() == 0 {
        Seq::empty()
    } else {
        spec_commented_tail(s.drop_last()) + (if s.last() == '\n' {
            "\n-- "@
        } else {
            seq![s.last()]
        })
    }
}

/// `s` with every line prefixed by `-- `: the commented-out form of a SQL
/// block.
pub open spec fn spec_commented(s: Seq<char>) -> Seq<char> {
    "-- "@ + spec_commented_tail(s)
}

pub fn append_commented(buf: &mut String, s: &str)
    ensures
        final(buf)@ == old(buf)@ + spec_commented(s@),
{
    let ghost buf0 = buf@;
    buf.append("-- ");
    let n = s.unicode_len();
    let mut i: usize = 0;
    proof {
        assert(buf@ =~= buf0 + ("-- "@ + spec_commented_tail(s@.take(0))));
    }
    while i < n
        invariant
            i <= n,
            n == s@.len(),
            buf@ == buf0 + ("-- "@ + spec_commented_tail(s@.take(i as int))),
        decreases n - i,
    {
        let c = s.get_char(i);
        if c == '\n' {
            buf.append("\n-- ");
        } else {
            let piece = s.substring_char(i, i + 1);
            proof {
                assert(piece@ =~= seq![s@[i as int]]);
            }
            buf.append(piece);
        }
        proof {
            assert(s@.take(i as int + 1).drop_last() =~= s@.take(i as int));
            assert(s@.take(i as int + 1).last() == s@[i as int]);
            assert(buf@ =~= buf0 + ("-- "@ + spec_commented_tail(s@.take(i as int + 1))));
        }
        i += 1;
    }
    proof {
        assert(s@.take(n as int) =~= s@);
        assert(buf@ =~= buf0 + spec_commented(s@));
    }
}

} // verus!
