//! Small verified text utilities: decimal parsing and rendering, string
//! equality, and extraction of the first double-quoted segment of a string.

use vstd::prelude::*;
use vstd::string::StringExecFns;

verus! {

/// Whether `c` is an ASCII decimal digit.
pub open spec fn is_dec_digit(c: char) -> bool {
    48 <= c as u32 <= 57
}

/// The numeric value of an ASCII decimal digit.
pub open spec fn digit_val(c: char) -> int {
    c as u32 - 48
}

/// Whether every character of `s` is an ASCII decimal digit.
pub open spec fn all_digits(s: Seq<char>) -> bool {
    forall|i: int| 0 <= i < s.len() ==> is_dec_digit(#[trigger] s[i])
}

/// The base-10 value denoted by a digit string.
pub open spec fn str_to_nat(s: Seq<char>) -> int
    decreases s.len(),
{
    if s.len() == 0 {
        0
    } else {
        str_to_nat(s.drop_last()) * 10 + digit_val(s.last())
    }
}

/// A digit string denotes a non-negative value.
proof fn lemma_str_to_nat_nonneg(s: Seq<char>)
    requires
        all_digits(s),
    ensures
        str_to_nat(s) >= 0,
    decreases s.len(),
{
    if s.len() > 0 {
        assert(all_digits(s.drop_last()));
        lemma_str_to_nat_nonneg(s.drop_last());
    }
}

/// Extending a digit string never decreases its value.
proof fn lemma_str_to_nat_prefix_le(s: Seq<char>, i: int, j: int)
    requires
        all_digits(s),
        0 <= i <= j <= s.len(),
    ensures
        str_to_nat(s.subrange(0, i)) <= str_to_nat(s.subrange(0, j)),
    decreases j - i,
{
    if i < j {
        let shorter = s.subrange(0, j - 1);
        let longer = s.subrange(0, j);
        assert(longer.drop_last() =~= shorter);
        assert(all_digits(shorter));
        lemma_str_to_nat_nonneg(shorter);
        assert(str_to_nat(longer) == str_to_nat(shorter) * 10 + digit_val(longer.last()));
        assert(is_dec_digit(s[j - 1]));
        assert(str_to_nat(shorter) <= str_to_nat(shorter) * 10) by (nonlinear_arith)
            requires
                str_to_nat(shorter) >= 0,
        ;
        lemma_str_to_nat_prefix_le(s, i, j - 1);
    }
}

/// Parse a string of ASCII decimal digits as a `u64`.
///
/// Returns `None` on the empty string, on any non-digit character, and when
/// the denoted value does not fit in a `u64`.
pub fn parse_u64(s: &str) -> (r: Option<u64>)
    ensures
        match r {
            Some(v) => s@.len() > 0 && all_digits(s@) && v == str_to_nat(s@),
            None => s@.len() == 0 || !all_digits(s@) || str_to_nat(s@) > u64::MAX,
        },
{
    let n = s.unicode_len();
    if n == 0 {
        return None;
    }
    let mut acc: u64 = 0;
    let mut i: usize = 0;
    while i < n
        invariant
            0 <= i <= n,
            n == s@.len(),
            all_digits(s@.subrange(0, i as int)),
            acc == str_to_nat(s@.subrange(0, i as int)),
        decreases n - i,
    {
        let c = s.get_char(i);
        let cv = c as u32;
        if cv < 48 || cv > 57 {
            assert(!is_dec_digit(s@[i as int]));
            return None;
        }
        let d = (cv - 48) as u64;
        let ghost prefix = s@.subrange(0, i as int);
        let ghost extended = s@.subrange(0, i as int + 1);
        proof {
            assert(extended.drop_last() =~= prefix);
            assert(extended.last() == s@[i as int]);
            assert(all_digits(extended));
            assert(str_to_nat(extended) == str_to_nat(prefix) * 10 + digit_val(s@[i as int]));
        }
        let next = match acc.checked_mul(10) {
            Some(m) => m.checked_add(d),
            None => None,
        };
        match next {
            Some(v) => {
                acc = v;
            },
            None => {
                proof {
                    assert(str_to_nat(extended) > u64::MAX);
                    if all_digits(s@) {
                        lemma_str_to_nat_prefix_le(s@, i as int + 1, n as int);
                        assert(s@.subrange(0, n as int) =~= s@);
                    }
                }
                return None;
            },
        }
        i = i + 1;
    }
    proof {
        assert(s@.subrange(0, n as int) =~= s@);
    }
    Some(acc)
}

/// The digits a decimal number consists of: everything after one optional
/// leading plus sign.
pub open spec fn numeric_part(v: Seq<char>) -> Seq<char> {
    if v.len() > 0 && v[0] == '+' {
        v.drop_first()
    } else {
        v
    }
}

/// Parse a decimal number as a `u64`, allowing one leading plus sign.
pub fn parse_number_u64(s: &str) -> (r: Option<u64>)
    ensures
        match r {
            Some(v) => numeric_part(s@).len() > 0 && all_digits(numeric_part(s@)) && v
                == str_to_nat(numeric_part(s@)),
            None => numeric_part(s@).len() == 0 || !all_digits(numeric_part(s@)) || str_to_nat(
                numeric_part(s@),
            ) > u64::MAX,
        },
{
    let n = s.unicode_len();
    if n > 0 && s.get_char(0) == '+' {
        let rest = s.substring_char(1, n);
        proof {
            assert(rest@ =~= s@.drop_first());
        }
        parse_u64(rest)
    } else {
        parse_u64(s)
    }
}

/// Parse a decimal number as a `usize`, allowing one leading plus sign.
pub fn parse_number_usize(s: &str) -> (r: Option<usize>)
    ensures
        match r {
            Some(v) => numeric_part(s@).len() > 0 && all_digits(numeric_part(s@)) && v
                == str_to_nat(numeric_part(s@)),
            None => numeric_part(s@).len() == 0 || !all_digits(numeric_part(s@)) || str_to_nat(
                numeric_part(s@),
            ) > usize::MAX,
        },
{
    match parse_number_u64(s) {
        Some(v) => {
            if v <= usize::MAX as u64 {
                Some(v as usize)
            } else {
                None
            }
        },
        None => None,
    }
}

/// The decimal digit character for a value below ten.
pub open spec fn dec_digit_char(d: int) -> char {
    ((48 + d) as u8) as char
}

/// The decimal rendering of a non-negative number.
pub open spec fn dec_str(n: int) -> Seq<char>
    decreases n,
{
    if n < 10 {
        seq![dec_digit_char(n)]
    } else {
        dec_str(n / 10).push(dec_digit_char(n % 10))
    }
}

fn digit_to_str(d: u64) -> (s: &'static str)
    requires
        d < 10,
    ensures
        s@ =~= seq![dec_digit_char(d as int)],
{
    let s: &'static str = match d {
        0 => "0",
        1 => "1",
        2 => "2",
        3 => "3",
        4 => "4",
        5 => "5",
        6 => "6",
        7 => "7",
        8 => "8",
        _ => "9",
    };
    proof {
        reveal_strlit("0");
        reveal_strlit("1");
        reveal_strlit("2");
        reveal_strlit("3");
        reveal_strlit("4");
        reveal_strlit("5");
        reveal_strlit("6");
        reveal_strlit("7");
        reveal_strlit("8");
        reveal_strlit("9");
    }
    s
}

/// Render a `u64` in decimal.
pub fn u64_to_string(n: u64) -> (s: String)
    ensures
        s@ == dec_str(n as int),
    decreases n,
{
    if n < 10 {
        let s = digit_to_str(n).to_owned();
        proof {
            assert(s@ =~= dec_str(n as int));
        }
        s
    } else {
        let mut s = u64_to_string(n / 10);
        s.append(digit_to_str(n % 10));
        proof {
            assert(s@ =~= dec_str(n as int));
        }
        s
    }
}

/// Compare two string slices by their character contents.
pub fn str_eq(a: &str, b: &str) -> (r: bool)
    ensures
        r == (a@ == b@),
{
    let sa = a.to_owned();
    let sb = b.to_owned();
    sa == sb
}

/// The position of the first occurrence of `c` in `s` at or after `i`.
pub open spec fn find_from(s: Seq<char>, c: char, i: int) -> Option<int>
    decreases s.len() - i,
{
    if i < 0 || i >= s.len() {
        None
    } else if s[i] == c {
        Some(i)
    } else {
        find_from(s, c, i + 1)
    }
}

/// The contents of the first double-quoted segment of `s`, if both quotes
/// are present.
pub open spec fn spec_first_quoted(s: Seq<char>) -> Option<Seq<char>> {
    match find_from(s, '"', 0) {
        None => None,
        Some(i) => match find_from(s, '"', i + 1) {
            None => None,
            Some(j) => Some(s.subrange(i + 1, j)),
        },
    }
}

fn find_char_from(s: &str, n: usize, c: char, from: usize) -> (r: Option<usize>)
    requires
        n == s@.len(),
        from <= n,
    ensures
        match r {
            Some(i) => from <= i < n && find_from(s@, c, from as int) == Some(i as int),
            None => find_from(s@, c, from as int) is None,
        },
{
    let mut i: usize = from;
    while i < n
        invariant
            from <= i <= n,
            n == s@.len(),
            find_from(s@, c, from as int) == find_from(s@, c, i as int),
        decreases n - i,
    {
        if s.get_char(i) == c {
            return Some(i);
        }
        i = i + 1;
    }
    None
}

/// Extract the first double-quoted segment of `s`.
pub fn first_quoted(s: &str) -> (r: Option<String>)
    ensures
        match r {
            Some(q) => spec_first_quoted(s@) == Some(q@),
            None => spec_first_quoted(s@) is None,
        },
{
    let n = s.unicode_len();
    match find_char_from(s, n, '"', 0) {
        None => None,
        Some(i) => match find_char_from(s, n, '"', i + 1) {
            None => None,
            Some(j) => {
                let seg = s.substring_char(i + 1, j);
                Some(seg.to_owned())
            },
        },
    }
}

} // verus!
