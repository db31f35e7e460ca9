//! Character-level text utilities: decimal numerals, searching for a
//! separator, splitting off the first token or line of a string.

use vstd::prelude::*;
use vstd::string::StrSliceExecFns;

verus! {

/// True when `c` is a decimal digit.
pub open spec fn is_digit(c: char) -> bool {
    48 <= (c as u32) && (c as u32) <= 57
}

/// Numeric value of a digit character; 0 for any other character.
pub open spec fn digit_val(c: char) -> nat {
    if is_digit(c) {
        ((c as u32) - 48) as nat
    } else {
        0
    }
}

/// Every character of `s` is a decimal digit.
pub open spec fn all_digits(s: Seq<char>) -> bool {
    forall|i: int| 0 <= i < s.len() ==> is_digit(#[trigger] s[i])
}

/// Value of `s` read as a decimal numeral (0 for the empty sequence).
pub open spec fn dec_val(s: Seq<char>) -> nat
    decreases s.len(),
{
    if s.len() == 0 {
        0
    } else {
        dec_val(s.drop_last()) * 10 + digit_val(s.last())
    }
}

/// Index of the first occurrence of `c` in `s`, or -1 when `c` does not occur.
pub open spec fn find_char(s: Seq<char>, c: char) -> int
    decreases s.len(),
{
    if s.len() == 0 {
        -1
    } else {
        let r = find_char(s.drop_last(), c);
        if r >= 0 {
            r
        } else if s.last() == c {
            s.len() - 1
        } else {
            -1
        }
    }
}

/// Number of occurrences of `c` in `s`.
pub open spec fn count_char(s: Seq<char>, c: char) -> nat
    decreases s.len(),
{
    if s.len() == 0 {
        0
    } else {
        count_char(s.drop_last(), c) + (if s.last() == c {
            1nat
        } else {
            0nat
        })
    }
}

/// `find_char` points at the first occurrence of `c`, and is -1 exactly when
/// `c` does not occur (equivalently, when `count_char` is 0).
pub proof fn lemma_find_char(s: Seq<char>, c: char)
    ensures
        (find_char(s, c) == -1) <==> (count_char(s, c) == 0),
        find_char(s, c) == -1 ==> forall|i: int| 0 <= i < s.len() ==> s[i] != c,
        find_char(s, c) >= 0 ==> 0 <= find_char(s, c) < s.len() && s[find_char(s, c)] == c
            && (forall|i: int| 0 <= i < find_char(s, c) ==> s[i] != c),
    decreases s.len(),
{
    if s.len() > 0 {
        lemma_find_char(s.drop_last(), c);
        assert(forall|i: int| 0 <= i < s.len() - 1 ==> s.drop_last()[i] == s[i]);
    }
}

/// Character-by-character string equality, settled at the level of views.
pub fn str_eq(a: &str, b: &str) -> (r: bool)
    ensures
        r == (a@ == b@),
{
    let n = a.unicode_len();
    if n != b.unicode_len() {
        return false;
    }
    let mut i: usize = 0;
    while i < n
        invariant
            n == a@.len(),
            n == b@.len(),
            i <= n,
            forall|j: int| 0 <= j < i ==> a@[j] == b@[j],
        decreases n - i,
    {
        if a.get_char(i) != b.get_char(i) {
            return false;
        }
        i += 1;
    }
    proof {
        assert(a@ =~= b@);
    }
    true
}

/// Count of `c` in `s@[from..to]`, paired with the absolute index of its
/// first occurrence there (`to` when `c` does not occur).
pub fn char_occurrences(s: &str, c: char, from: usize, to: usize) -> (r: (usize, usize))
    requires
        from <= to <= s@.len(),
    ensures
        ({
            let t = s@.subrange(from as int, to as int);
            &&& r.0 == count_char(t, c)
            &&& (count_char(t, c) == 0 ==> r.1 == to)
            &&& (count_char(t, c) > 0 ==> from <= r.1 < to && r.1 - from == find_char(t, c))
        }),
{
    let mut count: usize = 0;
    let mut first: usize = to;
    let mut i = from;
    while i < to
        invariant
            from <= i <= to <= s@.len(),
            count == count_char(s@.subrange(from as int, i as int), c),
            count <= i - from,
            count == 0 ==> first == to,
            count > 0 ==> from <= first < i && first - from == find_char(
                s@.subrange(from as int, i as int),
                c,
            ) && find_char(s@.subrange(from as int, i as int), c) >= 0,
        decreases to - i,
    {
        proof {
            assert(s@.subrange(from as int, i + 1).drop_last() =~= s@.subrange(
                from as int,
                i as int,
            ));
            assert(s@.subrange(from as int, i + 1).last() == s@[i as int]);
            lemma_find_char(s@.subrange(from as int, i as int), c);
        }
        let ch = s.get_char(i);
        if ch == c {
            if count == 0 {
                first = i;
            }
            count += 1;
        }
        i += 1;
    }
    (count, first)
}

/// Outcome of reading a character range as a decimal numeral.
pub enum DigitScan {
    /// Some character in the range is not a digit.
    NotDigits,
    /// All digits, with the value of the numeral.
    Value(u64),
    /// All digits, but the value does not fit in a `u64`.
    Huge,
}

/// Reads `s@[from..to]` as a decimal numeral.
pub fn scan_digits(s: &str, from: usize, to: usize) -> (r: DigitScan)
    requires
        from <= to <= s@.len(),
    ensures
        ({
            let t = s@.subrange(from as int, to as int);
            match r {
                DigitScan::NotDigits => !all_digits(t),
                DigitScan::Value(v) => all_digits(t) && dec_val(t) == v,
                DigitScan::Huge => all_digits(t) && dec_val(t) > u64::MAX,
            }
        }),
{
    let mut acc: u64 = 0;
    let mut huge = false;
    let mut i = from;
    while i < to
        invariant
            from <= i <= to <= s@.len(),
            all_digits(s@.subrange(from as int, i as int)),
            !huge ==> acc == dec_val(s@.subrange(from as int, i as int)),
            huge ==> dec_val(s@.subrange(from as int, i as int)) > u64::MAX,
        decreases to - i,
    {
        proof {
            assert(s@.subrange(from as int, i + 1).drop_last() =~= s@.subrange(
                from as int,
                i as int,
            ));
            assert(s@.subrange(from as int, i + 1).last() == s@[i as int]);
        }
        let c = s.get_char(i);
        let code = c as u32;
        if code < 48 || code > 57 {
            assert(!is_digit(s@.subrange(from as int, to as int)[i - from]));
            return DigitScan::NotDigits;
        }
        let d = (code - 48) as u64;
        if huge {
            proof {
                let prev = dec_val(s@.subrange(from as int, i as int));
                assert(prev * 10 >= prev) by (nonlinear_arith)
                    requires prev >= 0;
            }
        } else if acc > (u64::MAX - d) / 10 {
            proof {
                let q = ((u64::MAX - d) / 10) as int;
                let m = (u64::MAX - d) as int;
                assert(m == 10 * q + m % 10) by (nonlinear_arith)
                    requires q == m / 10 && m >= 0;
                assert(acc * 10 >= (q + 1) * 10) by (nonlinear_arith)
                    requires acc >= q + 1;
            }
            huge = true;
        } else {
            proof {
                assert(acc * 10 + d <= u64::MAX) by (nonlinear_arith)
                    requires acc <= (u64::MAX - d) / 10 && d <= 9
                        && (u64::MAX - d) / 10 * 10 <= u64::MAX - d;
                assert((u64::MAX - d) / 10 * 10 <= u64::MAX - d) by (nonlinear_arith)
                    requires d <= 9;
            }
            acc = acc * 10 + d;
        }
        i += 1;
    }
    if huge {
        DigitScan::Huge
    } else {
        DigitScan::Value(acc)
    }
}

/// `s` with one leading `'+'` removed, if it starts with one.
pub open spec fn strip_plus(s: Seq<char>) -> Seq<char> {
    if s.len() > 0 && s[0] == '+' {
        s.skip(1)
    } else {
        s
    }
}

/// The value of `s` read the way `u64` is read from a string: an optional
/// leading `'+'`, then at least one digit, and a value that fits in a `u64`.
pub open spec fn parse_u64_spec(s: Seq<char>) -> Option<u64> {
    let t = strip_plus(s);
    if t.len() > 0 && all_digits(t) && dec_val(t) <= u64::MAX {
        Some(dec_val(t) as u64)
    } else {
        None
    }
}

/// The value of `s` read the way `u32` is read from a string.
pub open spec fn parse_u32_spec(s: Seq<char>) -> Option<u32> {
    let t = strip_plus(s);
    if t.len() > 0 && all_digits(t) && dec_val(t) <= u32::MAX {
        Some(dec_val(t) as u32)
    } else {
        None
    }
}

/// Reads a whole string as a decimal `u64` numeral.
pub fn parse_u64_str(s: &str) -> (r: Option<u64>)
    ensures
        r == parse_u64_spec(s@),
{
    let n = s.unicode_len();
    let start: usize = if n > 0 && s.get_char(0) == '+' {
        1
    } else {
        0
    };
    proof {
        assert(s@.subrange(start as int, n as int) =~= strip_plus(s@));
    }
    if start >= n {
        return None;
    }
    match scan_digits(s, start, n) {
        DigitScan::Value(v) => Some(v),
        DigitScan::NotDigits => None,
        DigitScan::Huge => None,
    }
}

/// Reads a whole string as a decimal `u32` numeral.
pub fn parse_u32_str(s: &str) -> (r: Option<u32>)
    ensures
        r == parse_u32_spec(s@),
{
    match parse_u64_str(s) {
        Some(v) => if v <= u32::MAX as u64 {
            Some(v as u32)
        } else {
            None
        },
        None => None,
    }
}

/// The prefix of `s` before its first comma, or all of `s` when it holds no
/// comma.
pub open spec fn spec_first_token(s: Seq<char>) -> Seq<char> {
    if find_char(s, ',') >= 0 {
        s.take(find_char(s, ','))
    } else {
        s
    }
}

/// Keeps the first comma-separated token of a string of aliases.
pub fn first_token(s: &str) -> (r: String)
    ensures
        r@ == spec_first_token(s@),
{
    let n = s.unicode_len();
    proof {
        assert(s@.subrange(0, n as int) =~= s@);
        lemma_find_char(s@, ',');
    }
    let (cnt, p) = char_occurrences(s, ',', 0, n);
    if cnt == 0 {
        s.to_owned()
    } else {
        let t = s.substring_char(0, p);
        proof {
            assert(t@ =~= s@.take(find_char(s@, ',')));
        }
        t.to_owned()
    }
}

/// The first line of `s`: the prefix before the first newline, with one
/// trailing carriage return removed; nothing when `s` is empty.
pub open spec fn spec_first_line(s: Seq<char>) -> Option<Seq<char>> {
    if s.len() == 0 {
        None
    } else {
        let p = if find_char(s, '\n') >= 0 {
            find_char(s, '\n')
        } else {
            s.len() as int
        };
        let t = s.take(p);
        if t.len() > 0 && t.last() == '\r' {
            Some(t.drop_last())
        } else {
            Some(t)
        }
    }
}

/// Splits off the first line of a block of output.
pub fn first_line(s: &str) -> (r: Option<String>)
    ensures
        r.deep_view() == spec_first_line(s@),
{
    let n = s.unicode_len();
    if n == 0 {
        return None;
    }
    proof {
        assert(s@.subrange(0, n as int) =~= s@);
        lemma_find_char(s@, '\n');
    }
    let (cnt, p) = char_occurrences(s, '\n', 0, n);
    let end: usize = if cnt > 0 {
        p
    } else {
        n
    };
    proof {
        assert(s@.take(end as int).len() == end);
        if end > 0 {
            assert(s@.take(end as int).last() == s@[end - 1]);
        }
    }
    let stop: usize = if end > 0 && s.get_char(end - 1) == '\r' {
        end - 1
    } else {
        end
    };
    let t = s.substring_char(0, stop);
    proof {
        if stop < end {
            assert(t@ =~= s@.take(end as int).drop_last());
        } else {
            assert(t@ =~= s@.take(end as int));
        }
    }
    Some(t.to_owned())
}

} // verus!
