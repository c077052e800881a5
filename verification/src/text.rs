use vstd::prelude::*;

verus! {

/// `String::push` appends one character to the end of the string.
pub assume_specification[ String::push ](s: &mut String, ch: char)
    ensures
        final(s)@ == old(s)@.push(ch),
;

/// The characters of a string slice, in order.
pub fn collect_chars(s: &str) -> (r: Vec<char>)
    ensures
        r@ == s@,
{
    let n = s.unicode_len();
    let mut out: Vec<char> = Vec::new();
    let mut i: usize = 0;
    while i < n
        invariant
            n == s@.len(),
            i <= n,
            out@ == s@.subrange(0, i as int),
        decreases n - i,
    {
        out.push(s.get_char(i));
        i += 1;
        assert(out@ == s@.subrange(0, i as int));
    }
    out
}

/// The lower-case form of a string as `str::to_lowercase` computes it
/// (the Unicode lower-case mapping, character by character).
pub uninterp spec fn lowercase_of(s: Seq<char>) -> Seq<char>;

/// Calls `str::to_lowercase`. Its result is named, not described: the
/// contract claims only that it depends on the characters of `s` alone.
#[verifier::external_body]
pub(crate) fn to_lowercase(s: &str) -> (r: String)
    ensures
        r@ == lowercase_of(s@),
{
    s.to_lowercase()
}

/// The text `str::parse::<i32>` gives for the error of reading `s`, as its
/// `Display` writes it; empty where `s` reads as an `i32`.
pub uninterp spec fn parse_error_text(s: Seq<char>) -> Seq<char>;

/// Calls `str::parse::<i32>` and renders its error with `Display`. Its
/// result is named, not described: the contract claims only that it depends
/// on the characters of `s` alone.
#[verifier::external_body]
pub(crate) fn int_parse_error_text(s: &str) -> (r: String)
    ensures
        r@ == parse_error_text(s@),
{
    match s.parse::<i32>() {
        Ok(_) => String::new(),
        Err(e) => e.to_string(),
    }
}

/// The text the `Debug` format gives a list of strings (brackets, quoted
/// and escaped strings, separating commas).
pub uninterp spec fn debug_text(values: Seq<Seq<char>>) -> Seq<char>;

/// Formats a list of strings with `{:?}`. Its result is named, not
/// described: the contract claims only that it depends on the strings alone.
#[verifier::external_body]
pub(crate) fn debug_strings(values: &Vec<String>) -> (r: String)
    ensures
        r@ == debug_text(values@.map_values(|v: String| v@)),
{
    format!("{:?}", values)
}

/// The decimal digits of a number, most significant first, without
/// leading zeros ("0" for zero).
pub open spec fn decimal_text(n: nat) -> Seq<char>
    decreases n,
{
    if n < 10 {
        seq![char_of_digit(n)]
    } else {
        decimal_text(n / 10).push(char_of_digit(n % 10))
    }
}

/// The character of a decimal digit.
pub open spec fn char_of_digit(d: nat) -> char {
    ((d + 48) as u32) as char
}

/// Writes a number in decimal.
pub fn decimal_string(n: usize) -> (r: String)
    ensures
        r@ == decimal_text(n as nat),
    decreases n,
{
    if n < 10 {
        let mut r = String::new();
        r.push(digit_char(n));
        r
    } else {
        let mut r = decimal_string(n / 10);
        r.push(digit_char(n % 10));
        r
    }
}

/// The character of a decimal digit.
fn digit_char(d: usize) -> (c: char)
    requires
        d < 10,
    ensures
        c == char_of_digit(d as nat),
{
    ((d as u8) + 48) as char
}

/// Whether two string slices hold the same characters.
pub fn str_equal(a: &str, b: &str) -> (r: bool)
    ensures
        r == (a@ == b@),
{
    let n = a.unicode_len();
    let m = b.unicode_len();
    if n != m {
        return false;
    }
    let mut i: usize = 0;
    while i < n
        invariant
            n == a@.len(),
            m == b@.len(),
            n == m,
            i <= n,
            forall|k: int| 0 <= k < i ==> a@[k] == b@[k],
        decreases n - i,
    {
        if a.get_char(i) != b.get_char(i) {
            assert(a@[i as int] != b@[i as int]);
            return false;
        }
        i += 1;
    }
    assert(a@ =~= b@);
    true
}

/// Whether every character is a decimal digit.
pub open spec fn all_digits(s: Seq<char>) -> bool {
    forall|i: int| 0 <= i < s.len() ==> '0' <= #[trigger] s[i] <= '9'
}

/// The value of a string of decimal digits.
pub open spec fn digits_value(s: Seq<char>) -> int
    decreases s.len(),
{
    if s.len() == 0 {
        0
    } else {
        digits_value(s.drop_last()) * 10 + (s.last() as int - '0' as int)
    }
}

/// The integer a string spells: an optional `+` or `-` followed by at least
/// one decimal digit.
pub open spec fn parse_int_spec(s: Seq<char>) -> Option<int> {
    if s.len() > 0 && (s[0] == '-' || s[0] == '+') {
        let rest = s.subrange(1, s.len() as int);
        if rest.len() > 0 && all_digits(rest) {
            Some(
                if s[0] == '-' {
                    -digits_value(rest)
                } else {
                    digits_value(rest)
                },
            )
        } else {
            None
        }
    } else if s.len() > 0 && all_digits(s) {
        Some(digits_value(s))
    } else {
        None
    }
}

/// The `i32` a string spells, as `str::parse::<i32>` reads it: `None` where
/// the string is not an integer or the integer does not fit.
pub open spec fn parse_i32_spec(s: Seq<char>) -> Option<i32> {
    match parse_int_spec(s) {
        Some(v) => if i32::MIN <= v <= i32::MAX {
            Some(v as i32)
        } else {
            None
        },
        None => None,
    }
}

/// A digit string is worth at least as much as any of its prefixes.
proof fn lemma_digits_value_prefix(s: Seq<char>, m: int)
    requires
        0 <= m <= s.len(),
        all_digits(s),
    ensures
        digits_value(s.subrange(0, m)) <= digits_value(s),
        0 <= digits_value(s),
    decreases s.len(),
{
    if s.len() == 0 {
    } else {
        assert(all_digits(s.drop_last()));
        if m == s.len() {
            assert(s.subrange(0, m) =~= s);
            lemma_digits_value_prefix(s.drop_last(), 0);
        } else {
            lemma_digits_value_prefix(s.drop_last(), m);
            assert(s.drop_last().subrange(0, m) =~= s.subrange(0, m));
        }
    }
}

/// Reads an `i32` the way `str::parse::<i32>` does.
pub fn parse_i32(s: &str) -> (r: Option<i32>)
    ensures
        r == parse_i32_spec(s@),
{
    let n = s.unicode_len();
    if n == 0 {
        return None;
    }
    let first = s.get_char(0);
    let negative = first == '-';
    let start: usize = if first == '-' || first == '+' {
        1
    } else {
        0
    };
    if start == n {
        return None;
    }
    let ghost digits = s@.subrange(start as int, n as int);
    let mut value: i64 = 0;
    let mut i: usize = start;
    while i < n
        invariant
            n == s@.len(),
            start <= i <= n,
            start < n,
            start == (if s@[0] == '-' || s@[0] == '+' {
                1usize
            } else {
                0usize
            }),
            negative == (s@[0] == '-'),
            digits == s@.subrange(start as int, n as int),
            all_digits(s@.subrange(start as int, i as int)),
            value == digits_value(s@.subrange(start as int, i as int)),
            0 <= value <= 2147483648,
        decreases n - i,
    {
        let c = s.get_char(i);
        if !('0' <= c && c <= '9') {
            proof {
                assert(digits[i - start] == c);
                assert(!all_digits(digits));
                if start == 1 {
                    assert(s@.subrange(1, s@.len() as int) == digits);
                } else {
                    assert(digits =~= s@);
                }
            }
            return None;
        }
        let d = (c as u32 - '0' as u32) as i64;
        proof {
            let pre = s@.subrange(start as int, i + 1);
            assert(pre.drop_last() =~= s@.subrange(start as int, i as int));
            assert(pre.last() == c);
        }
        value = value * 10 + d;
        i += 1;
        if value > 2147483648 {
            proof {
                let pre = s@.subrange(start as int, i as int);
                if all_digits(digits) {
                    assert(digits.subrange(0, i - start) =~= pre);
                    lemma_digits_value_prefix(digits, i - start);
                }
                if start == 1 {
                    assert(s@.subrange(1, s@.len() as int) == digits);
                } else {
                    assert(digits =~= s@);
                }
            }
            return None;
        }
    }
    proof {
        assert(s@.subrange(start as int, n as int) == digits);
        if start == 0 {
            assert(digits =~= s@);
        } else {
            assert(s@.subrange(1, s@.len() as int) == digits);
        }
    }
    if negative {
        Some((-value) as i32)
    } else if value > 2147483647 {
        None
    } else {
        Some(value as i32)
    }
}

} // verus!
