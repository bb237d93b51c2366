//! Small verified helpers on character sequences: equality, decimal
//! numbers and zero-padded digits.
use vstd::prelude::*;
use vstd::string::*;

verus! {

/// The characters of an optional string.
pub open spec fn opt_view(o: Option<String>) -> Option<Seq<char>> {
    match o {
        Some(s) => Some(s@),
        None => None,
    }
}

/// Whether `c` is one of the ASCII digits.
pub open spec fn is_digit(c: char) -> bool {
    '0' <= c && c <= '9'
}

/// The value of one ASCII digit.
pub open spec fn digit_value(c: char) -> int {
    (c as u32) as int - ('0' as u32) as int
}

/// Whether every character of `s` is an ASCII digit.
pub open spec fn all_digits(s: Seq<char>) -> bool {
    forall|i: int| 0 <= i < s.len() ==> is_digit(#[trigger] s[i])
}

/// The number written by the decimal digits of `s`.
pub open spec fn decimal_value(s: Seq<char>) -> int
    decreases s.len(),
{
    if s.len() == 0 {
        0
    } else {
        decimal_value(s.drop_last()) * 10 + digit_value(s.last())
    }
}

/// The largest value of a FHIR `integer`.
pub const INTEGER_MAX: u32 = 2147483647;

/// What `parse_decimal` gives for `s`: the value of a non-empty run of digits
/// that fits a FHIR `integer`.
pub open spec fn decimal_of(s: Seq<char>) -> Option<int> {
    if s.len() > 0 && all_digits(s) && decimal_value(s) <= INTEGER_MAX as int {
        Some(decimal_value(s))
    } else {
        None
    }
}

/// The character of the digit `d`, for `0 <= d <= 9`.
pub open spec fn digit_char(d: int) -> char {
    if d == 0 {
        '0'
    } else if d == 1 {
        '1'
    } else if d == 2 {
        '2'
    } else if d == 3 {
        '3'
    } else if d == 4 {
        '4'
    } else if d == 5 {
        '5'
    } else if d == 6 {
        '6'
    } else if d == 7 {
        '7'
    } else if d == 8 {
        '8'
    } else {
        '9'
    }
}

/// `n` written with exactly two digits, for `n < 100`.
pub open spec fn two_digits(n: int) -> Seq<char> {
    seq![digit_char(n / 10), digit_char(n % 10)]
}

/// `n` written with exactly four digits, for `n < 10000`.
pub open spec fn four_digits(n: int) -> Seq<char> {
    two_digits(n / 100) + two_digits(n % 100)
}

/// Whether `a` and `b` hold the same characters.
pub fn str_eq(a: &str, b: &str) -> (r: bool)
    ensures
        r == (a@ == b@),
{
    let n = a.unicode_len();
    if n != b.unicode_len() {
        return false;
    }
    let mut i: usize = 0;
    while i < n
        invariant
            n == a@.len(),
            n == b@.len(),
            i <= n,
            forall|j: int| 0 <= j < i ==> a@[j] == b@[j],
        decreases n - i,
    {
        if a.get_char(i) != b.get_char(i) {
            return false;
        }
        i += 1;
    }
    assert(a@ =~= b@);
    true
}

proof fn lemma_decimal_value_push(s: Seq<char>, c: char)
    ensures
        decimal_value(s.push(c)) == decimal_value(s) * 10 + digit_value(c),
{
    assert(s.push(c).drop_last() =~= s);
}

proof fn lemma_decimal_value_nonneg(s: Seq<char>)
    requires
        all_digits(s),
    ensures
        decimal_value(s) >= 0,
    decreases s.len(),
{
    if s.len() > 0 {
        assert(all_digits(s.drop_last()));
        lemma_decimal_value_nonneg(s.drop_last());
        assert(is_digit(s[s.len() - 1]));
    }
}

proof fn lemma_decimal_value_grows(s: Seq<char>, i: int)
    requires
        all_digits(s),
        0 <= i <= s.len(),
    ensures
        decimal_value(s.subrange(0, i)) <= decimal_value(s),
    decreases s.len() - i,
{
    if i < s.len() {
        let p = s.subrange(0, i + 1);
        assert(p.drop_last() =~= s.subrange(0, i));
        assert(all_digits(s.subrange(0, i)));
        lemma_decimal_value_nonneg(s.subrange(0, i));
        assert(is_digit(s[i]));
        assert(decimal_value(p) >= decimal_value(s.subrange(0, i))) by (nonlinear_arith)
            requires
                decimal_value(p) == decimal_value(s.subrange(0, i)) * 10 + digit_value(s[i]),
                decimal_value(s.subrange(0, i)) >= 0,
                digit_value(s[i]) >= 0,
        ;
        lemma_decimal_value_grows(s, i + 1);
    } else {
        assert(s.subrange(0, i) =~= s);
    }
}

/// Reads a non-empty run of decimal digits whose value fits a FHIR `integer`.
pub fn parse_decimal(s: &str) -> (r: Option<u32>)
    ensures
        match decimal_of(s@) {
            Some(v) => r == Some(v as u32),
            None => r is None,
        },
{
    let n = s.unicode_len();
    if n == 0 {
        return None;
    }
    let mut v: u32 = 0;
    let mut i: usize = 0;
    while i < n
        invariant
            n == s@.len(),
            i <= n,
            all_digits(s@.subrange(0, i as int)),
            v as int == decimal_value(s@.subrange(0, i as int)),
            v <= INTEGER_MAX,
        decreases n - i,
    {
        let c = s.get_char(i);
        assert(s@.subrange(0, i + 1) == s@.subrange(0, i as int).push(c));
        proof {
            lemma_decimal_value_push(s@.subrange(0, i as int), c);
        }
        if c < '0' || c > '9' {
            assert(!is_digit(s@[i as int]));
            return None;
        }
        let d: u32 = (c as u32) - ('0' as u32);
        if v > (INTEGER_MAX - d) / 10 {
            proof {
                assert(v as int * 10 + d as int > INTEGER_MAX as int) by (nonlinear_arith)
                    requires
                        v as int > (INTEGER_MAX as int - d as int) / 10,
                        d <= 9,
                ;
                if all_digits(s@) {
                    lemma_decimal_value_grows(s@, i + 1);
                }
            }
            return None;
        }
        assert(v as int * 10 + d as int <= INTEGER_MAX as int) by (nonlinear_arith)
            requires
                v as int <= (INTEGER_MAX as int - d as int) / 10,
                d <= 9,
        ;
        v = v * 10 + d;
        i += 1;
    }
    assert(s@.subrange(0, n as int) =~= s@);
    Some(v)
}

} // verus!
