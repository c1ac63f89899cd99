//! Character-level text helpers: decimal rendering of integers, ASCII case
//! folding, substring search, prefix stripping and integer parsing.

use vstd::prelude::*;

verus! {

// ---------------------------------------------------------------------------
// Specifications
// ---------------------------------------------------------------------------

/// The ASCII digit character for `d` (`d < 10`).
pub open spec fn digit_char(d: nat) -> char {
    ((48 + d) as u32) as char
}

/// Decimal rendering of a natural number, most significant digit first,
/// without leading zeros (zero renders as `"0"`).
pub open spec fn decimal(n: nat) -> Seq<char>
    decreases n,
{
    if n < 10 {
        seq![digit_char(n)]
    } else {
        decimal(n / 10).push(digit_char(n % 10))
    }
}

/// Decimal rendering of an integer: a leading `-` for negative values.
pub open spec fn signed_decimal(i: int) -> Seq<char> {
    if i < 0 {
        seq!['-'] + decimal((-i) as nat)
    } else {
        decimal(i as nat)
    }
}

/// ASCII lower-casing of one character; every other character is unchanged.
pub open spec fn ascii_lower(c: char) -> char {
    if 'A' <= c && c <= 'Z' {
        ((c as u32) + 32) as char
    } else {
        c
    }
}

/// ASCII lower-casing of a whole text.
pub open spec fn lower_text(s: Seq<char>) -> Seq<char> {
    s.map_values(|c: char| ascii_lower(c))
}

/// `needle` occurs in `haystack` starting at position `i`.
pub open spec fn occurs_at(haystack: Seq<char>, needle: Seq<char>, i: int) -> bool {
    &&& 0 <= i
    &&& i + needle.len() <= haystack.len()
    &&& haystack.subrange(i, i + needle.len()) == needle
}

/// `needle` occurs somewhere in `haystack` (the empty needle always does).
pub open spec fn text_contains(haystack: Seq<char>, needle: Seq<char>) -> bool {
    exists|i: int| occurs_at(haystack, needle, i)
}

/// `prefix` is a prefix of `s`.
pub open spec fn has_prefix(s: Seq<char>, prefix: Seq<char>) -> bool {
    prefix.len() <= s.len() && s.subrange(0, prefix.len() as int) == prefix
}

// ---------------------------------------------------------------------------
// Building strings
// ---------------------------------------------------------------------------

/// Appends one character (`String::push`).
#[verifier::external_body]
pub(crate) fn push_char(s: &mut String, c: char)
    ensures
        final(s)@ == old(s)@.push(c),
{
    s.push(c);
}

/// Concatenation of two texts into a new `String`.
pub fn concat2(a: &str, b: &str) -> (r: String)
    ensures
        r@ == a@ + b@,
{
    let mut r = String::from_str(a);
    r.append(b);
    r
}

/// The characters of a text, in order.
pub fn chars_of(s: &str) -> (v: Vec<char>)
    ensures
        v@ == s@,
{
    let n = s.unicode_len();
    let mut v: Vec<char> = Vec::new();
    let mut i: usize = 0;
    while i < n
        invariant
            n == s@.len(),
            i <= n,
            v@ == s@.subrange(0, i as int),
        decreases n - i,
    {
        v.push(s.get_char(i));
        i = i + 1;
        assert(v@ =~= s@.subrange(0, i as int));
    }
    assert(v@ =~= s@);
    v
}

/// A `String` made of the characters `chars[from..to]`.
pub fn string_from_chars(chars: &Vec<char>, from: usize, to: usize) -> (r: String)
    requires
        from <= to <= chars@.len(),
    ensures
        r@ == chars@.subrange(from as int, to as int),
{
    let mut r = String::new();
    let mut i: usize = from;
    while i < to
        invariant
            from <= i <= to,
            to <= chars@.len(),
            r@ == chars@.subrange(from as int, i as int),
        decreases to - i,
    {
        push_char(&mut r, chars[i]);
        i = i + 1;
        assert(r@ =~= chars@.subrange(from as int, i as int));
    }
    r
}

// ---------------------------------------------------------------------------
// Decimal rendering
// ---------------------------------------------------------------------------

fn digit(d: u8) -> (c: char)
    requires
        d < 10,
    ensures
        c == digit_char(d as nat),
{
    let b: u8 = 48 + d;
    let c = b as char;
    assert(c as u32 == b as u32);
    c
}

fn write_decimal(out: &mut String, n: u128)
    ensures
        final(out)@ == old(out)@ + decimal(n as nat),
    decreases n,
{
    if n < 10 {
        push_char(out, digit(n as u8));
    } else {
        write_decimal(out, n / 10);
        push_char(out, digit((n % 10) as u8));
    }
}

/// Decimal rendering of an unsigned integer, as `to_string` gives it.
pub fn u128_to_decimal(n: u128) -> (s: String)
    ensures
        s@ == decimal(n as nat),
{
    let mut s = String::new();
    write_decimal(&mut s, n);
    assert(s@ =~= decimal(n as nat));
    s
}

/// Decimal rendering of a `u32`.
pub fn u32_to_decimal(n: u32) -> (s: String)
    ensures
        s@ == decimal(n as nat),
{
    u128_to_decimal(n as u128)
}

/// Decimal rendering of a `usize`.
pub fn usize_to_decimal(n: usize) -> (s: String)
    ensures
        s@ == decimal(n as nat),
{
    u128_to_decimal(n as u128)
}

/// Decimal rendering of an `i64`, with a leading `-` when negative.
pub fn i64_to_decimal(i: i64) -> (s: String)
    ensures
        s@ == signed_decimal(i as int),
{
    let mut s = String::new();
    if i < 0 {
        push_char(&mut s, '-');
        let magnitude: u128 = (0i128 - (i as i128)) as u128;
        write_decimal(&mut s, magnitude);
    } else {
        write_decimal(&mut s, i as u128);
    }
    assert(s@ =~= signed_decimal(i as int));
    s
}


// ---------------------------------------------------------------------------
// Comparison and search
// ---------------------------------------------------------------------------

/// Whether two texts are equal.
pub fn text_eq(a: &str, b: &str) -> (r: bool)
    ensures
        r == (a@ == b@),
{
    let x = String::from_str(a);
    let y = String::from_str(b);
    x == y
}

/// ASCII lower-casing (`str::to_ascii_lowercase`), as characters.
pub fn lower_chars(s: &str) -> (v: Vec<char>)
    ensures
        v@ == lower_text(s@),
{
    let chars = chars_of(s);
    let mut v: Vec<char> = Vec::new();
    let mut i: usize = 0;
    while i < chars.len()
        invariant
            chars@ == s@,
            i <= chars@.len(),
            v@ == lower_text(s@).subrange(0, i as int),
        decreases chars@.len() - i,
    {
        let c = chars[i];
        let l = if 'A' <= c && c <= 'Z' {
            let b: u8 = (c as u8) + 32;
            let lc = b as char;
            assert(lc as u32 == (c as u32) + 32);
            lc
        } else {
            c
        };
        v.push(l);
        i = i + 1;
        assert(v@ =~= lower_text(s@).subrange(0, i as int));
    }
    assert(v@ =~= lower_text(s@));
    v
}

fn matches_at(haystack: &Vec<char>, needle: &Vec<char>, i: usize) -> (r: bool)
    requires
        i + needle@.len() <= haystack@.len(),
    ensures
        r == occurs_at(haystack@, needle@, i as int),
{
    let hl = haystack.len();
    let mut k: usize = 0;
    while k < needle.len()
        invariant
            hl == haystack@.len(),
            i + needle@.len() <= haystack@.len(),
            k <= needle@.len(),
            forall|j: int| 0 <= j < k ==> haystack@[i + j] == needle@[j],
        decreases needle@.len() - k,
    {
        if haystack[i + k] != needle[k] {
            assert(haystack@.subrange(i as int, i + needle@.len())[k as int] != needle@[k as int]);
            return false;
        }
        k = k + 1;
    }
    assert(haystack@.subrange(i as int, i + needle@.len()) =~= needle@);
    true
}

/// Whether `needle` occurs in `haystack` (`str::contains`).
pub fn chars_contain(haystack: &Vec<char>, needle: &Vec<char>) -> (r: bool)
    ensures
        r == text_contains(haystack@, needle@),
{
    if needle.len() > haystack.len() {
        return false;
    }
    let last: usize = haystack.len() - needle.len();
    let mut i: usize = 0;
    loop
        invariant
            last == haystack@.len() - needle@.len(),
            needle@.len() <= haystack@.len(),
            i <= last,
            forall|j: int| 0 <= j < i ==> !occurs_at(haystack@, needle@, j),
        decreases last - i,
    {
        if matches_at(haystack, needle, i) {
            return true;
        }
        if i == last {
            assert forall|j: int| occurs_at(haystack@, needle@, j) implies j <= last by {}
            return false;
        }
        i = i + 1;
    }
}

/// Whether `needle` occurs in `haystack` (`str::contains`).
pub fn contains_text(haystack: &str, needle: &str) -> (r: bool)
    ensures
        r == text_contains(haystack@, needle@),
{
    let h = chars_of(haystack);
    let n = chars_of(needle);
    chars_contain(&h, &n)
}

/// Whether `needle` occurs in the ASCII lower-cased `haystack`
/// (`haystack.to_ascii_lowercase().contains(needle)`).
pub fn lowercase_contains(haystack: &str, needle: &str) -> (r: bool)
    ensures
        r == text_contains(lower_text(haystack@), needle@),
{
    let h = lower_chars(haystack);
    let n = chars_of(needle);
    chars_contain(&h, &n)
}

/// The rest of `s` after `prefix`, when `s` starts with it (`str::strip_prefix`).
pub fn strip_prefix(s: &str, prefix: &str) -> (r: Option<String>)
    ensures
        r is Some <==> has_prefix(s@, prefix@),
        r matches Some(rest) ==> rest@ == s@.subrange(prefix@.len() as int, s@.len() as int),
{
    let chars = chars_of(s);
    let p = chars_of(prefix);
    if p.len() > chars.len() {
        return None;
    }
    if !matches_at(&chars, &p, 0) {
        assert(!has_prefix(s@, prefix@)) by {
            if has_prefix(s@, prefix@) {
                assert(occurs_at(s@, prefix@, 0));
            }
        }
        return None;
    }
    Some(string_from_chars(&chars, p.len(), chars.len()))
}

// ---------------------------------------------------------------------------
// Integer parsing (`str::parse::<i64>`)
// ---------------------------------------------------------------------------

/// Why a text is not a decimal `i64` (the kinds of `std::num::ParseIntError`).
#[derive(Debug, Clone, Copy, PartialEq, Eq, Structural)]
pub enum IntParseError {
    Empty,
    InvalidDigit,
    PosOverflow,
    NegOverflow,
}

pub open spec fn is_digit(c: char) -> bool {
    '0' <= c && c <= '9'
}

pub open spec fn digit_value(c: char) -> int {
    (c as u32) as int - 48
}

/// Left-to-right accumulation of decimal digits, stopping at the first
/// character that is not a digit or at the first step that leaves the `i64`
/// range (towards the sign's side).
pub open spec fn accumulate_digits(digits: Seq<char>, negative: bool) -> Result<int, IntParseError>
    decreases digits.len(),
{
    if digits.len() == 0 {
        Ok(0)
    } else {
        match accumulate_digits(digits.drop_last(), negative) {
            Err(e) => Err(e),
            Ok(acc) => {
                let c = digits.last();
                if !is_digit(c) {
                    Err(IntParseError::InvalidDigit)
                } else if negative {
                    if acc * 10 - digit_value(c) < i64::MIN {
                        Err(IntParseError::NegOverflow)
                    } else {
                        Ok(acc * 10 - digit_value(c))
                    }
                } else {
                    if acc * 10 + digit_value(c) > i64::MAX {
                        Err(IntParseError::PosOverflow)
                    } else {
                        Ok(acc * 10 + digit_value(c))
                    }
                }
            },
        }
    }
}

/// Decimal `i64` parsing: an optional `+` or `-`, then at least one digit.
pub open spec fn parse_i64_text(s: Seq<char>) -> Result<i64, IntParseError> {
    if s.len() == 0 {
        Err(IntParseError::Empty)
    } else if s.len() == 1 && (s[0] == '+' || s[0] == '-') {
        Err(IntParseError::InvalidDigit)
    } else {
        let negative = s[0] == '-';
        let digits = if s[0] == '+' || s[0] == '-' {
            s.drop_first()
        } else {
            s
        };
        match accumulate_digits(digits, negative) {
            Ok(v) => Ok(v as i64),
            Err(e) => Err(e),
        }
    }
}

/// Parses a decimal `i64` exactly as `str::parse::<i64>` does.
pub fn parse_i64(s: &str) -> (r: Result<i64, IntParseError>)
    ensures
        r == parse_i64_text(s@),
{
    let chars = chars_of(s);
    let n = chars.len();
    if n == 0 {
        return Err(IntParseError::Empty);
    }
    let first = chars[0];
    if n == 1 && (first == '+' || first == '-') {
        return Err(IntParseError::InvalidDigit);
    }
    let negative = first == '-';
    let start: usize = if first == '+' || first == '-' { 1 } else { 0 };
    let ghost digits = if first == '+' || first == '-' { s@.drop_first() } else { s@ };
    assert(digits =~= s@.subrange(start as int, n as int));
    let mut acc: i128 = 0;
    let mut i: usize = start;
    while i < n
        invariant
            chars@ == s@,
            n == s@.len(),
            start <= i <= n,
            digits == s@.subrange(start as int, n as int),
            n >= 1,
            !(n == 1 && (s@[0] == '+' || s@[0] == '-')),
            negative == (s@[0] == '-'),
            digits == (if s@[0] == '+' || s@[0] == '-' { s@.drop_first() } else { s@ }),
            accumulate_digits(digits.subrange(0, i - start), negative) == Ok::<int, IntParseError>(acc as int),
            i64::MIN <= acc <= i64::MAX,
            negative ==> acc <= 0,
            !negative ==> acc >= 0,
        decreases n - i,
    {
        let c = chars[i];
        let ghost prefix = digits.subrange(0, i + 1 - start);
        assert(prefix.drop_last() =~= digits.subrange(0, i - start));
        assert(prefix.last() == c);
        if !('0' <= c && c <= '9') {
            assert(accumulate_digits(prefix, negative) == Err::<int, IntParseError>(IntParseError::InvalidDigit));
            proof {
                lemma_accumulate_prefix_error(digits, (i + 1 - start) as int, negative);
            }
            return Err(IntParseError::InvalidDigit);
        }
        let d: i128 = (c as u32) as i128 - 48;
        if negative {
            let next = acc * 10 - d;
            if next < i64::MIN as i128 {
                assert(accumulate_digits(prefix, negative) == Err::<int, IntParseError>(IntParseError::NegOverflow));
                proof {
                    lemma_accumulate_prefix_error(digits, (i + 1 - start) as int, negative);
                }
                return Err(IntParseError::NegOverflow);
            }
            acc = next;
        } else {
            let next = acc * 10 + d;
            if next > i64::MAX as i128 {
                assert(accumulate_digits(prefix, negative) == Err::<int, IntParseError>(IntParseError::PosOverflow));
                proof {
                    lemma_accumulate_prefix_error(digits, (i + 1 - start) as int, negative);
                }
                return Err(IntParseError::PosOverflow);
            }
            acc = next;
        }
        i = i + 1;
    }
    assert(digits.subrange(0, n - start) =~= digits);
    Ok(acc as i64)
}

/// An error on a prefix of the digits is the error of the whole text.
proof fn lemma_accumulate_prefix_error(digits: Seq<char>, k: int, negative: bool)
    requires
        0 <= k <= digits.len(),
        accumulate_digits(digits.subrange(0, k), negative) is Err,
    ensures
        accumulate_digits(digits, negative) == accumulate_digits(digits.subrange(0, k), negative),
    decreases digits.len() - k,
{
    if k < digits.len() {
        let longer = digits.subrange(0, k + 1);
        assert(longer.drop_last() =~= digits.subrange(0, k));
        lemma_accumulate_prefix_error(digits, k + 1, negative);
    } else {
        assert(digits.subrange(0, k) =~= digits);
    }
}


/// `Display` text of `std::num::ParseIntError` for each kind.
pub open spec fn int_parse_error_text(e: IntParseError) -> Seq<char> {
    match e {
        IntParseError::Empty => "cannot parse integer from empty string"@,
        IntParseError::InvalidDigit => "invalid digit found in string"@,
        IntParseError::PosOverflow => "number too large to fit in target type"@,
        IntParseError::NegOverflow => "number too small to fit in target type"@,
    }
}

impl IntParseError {
    /// The message `std::num::ParseIntError` displays for this kind.
    pub fn message(&self) -> (s: String)
        ensures
            s@ == int_parse_error_text(*self),
    {
        match self {
            IntParseError::Empty => String::from_str("cannot parse integer from empty string"),
            IntParseError::InvalidDigit => String::from_str("invalid digit found in string"),
            IntParseError::PosOverflow => String::from_str("number too large to fit in target type"),
            IntParseError::NegOverflow => String::from_str("number too small to fit in target type"),
        }
    }
}


proof fn lemma_digit_char(d: nat)
    requires
        d < 10,
    ensures
        is_digit(digit_char(d)),
        digit_value(digit_char(d)) == d,
        digit_char(d) != '+' && digit_char(d) != '-',
{
    assert((((48 + d) as u32) as char) as u32 == (48 + d) as u32);
}

proof fn lemma_decimal_digits(n: nat, negative: bool)
    requires
        !negative ==> n <= i64::MAX,
        negative ==> n <= 0x8000_0000_0000_0000,
    ensures
        decimal(n).len() >= 1,
        is_digit(decimal(n)[0]),
        accumulate_digits(decimal(n), negative) == Ok::<int, IntParseError>(
            if negative {
                -n
            } else {
                n as int
            },
        ),
    decreases n,
{
    if n < 10 {
        lemma_digit_char(n);
        assert(decimal(n).drop_last() =~= Seq::<char>::empty());
        assert(decimal(n).last() == digit_char(n));
        assert(accumulate_digits(Seq::<char>::empty(), negative) == Ok::<int, IntParseError>(0));
    } else {
        lemma_decimal_digits(n / 10, negative);
        lemma_digit_char(n % 10);
        assert(decimal(n).drop_last() =~= decimal(n / 10));
        assert(decimal(n)[0] == decimal(n / 10)[0]);
        assert(decimal(n).last() == digit_char(n % 10));
        assert((n / 10) * 10 + n % 10 == n);
        if negative {
            assert(-((n / 10) as int) * 10 - (n % 10) as int == -(n as int));
        }
    }
}

/// Rendering an integer in decimal and parsing the text gives the integer
/// back.
pub proof fn lemma_parse_renders_back(i: i64)
    ensures
        parse_i64_text(signed_decimal(i as int)) == Ok::<i64, IntParseError>(i),
{
    let s = signed_decimal(i as int);
    if i < 0 {
        let m = (-(i as int)) as nat;
        lemma_decimal_digits(m, true);
        assert(s.drop_first() =~= decimal(m));
        assert(s[0] == '-');
    } else {
        lemma_decimal_digits(i as nat, false);
        lemma_digit_char(0);
        let c = decimal(i as nat)[0];
        assert(c != '+' && c != '-');
    }
}

} // verus!
