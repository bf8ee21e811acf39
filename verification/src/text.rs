//! Text building blocks shared by the library: decimal rendering of
//! integers, single-character pushes, and the Unicode white-space class.

use vstd::prelude::*;

verus! {

/// The ASCII digit for a value below ten.
pub open spec fn digit_char(d: nat) -> char {
    if d == 0 { '0' }
    else if d == 1 { '1' }
    else if d == 2 { '2' }
    else if d == 3 { '3' }
    else if d == 4 { '4' }
    else if d == 5 { '5' }
    else if d == 6 { '6' }
    else if d == 7 { '7' }
    else if d == 8 { '8' }
    else { '9' }
}

/// The decimal notation of a natural number, as `Display` writes it.
pub open spec fn decimal(n: nat) -> Seq<char>
    decreases n,
{
    if n < 10 {
        seq![digit_char(n)]
    } else {
        decimal(n / 10).push(digit_char(n % 10))
    }
}

fn digit(d: u128) -> (c: char)
    requires
        d < 10,
    ensures
        c == digit_char(d as nat),
{
    if d == 0 { '0' }
    else if d == 1 { '1' }
    else if d == 2 { '2' }
    else if d == 3 { '3' }
    else if d == 4 { '4' }
    else if d == 5 { '5' }
    else if d == 6 { '6' }
    else if d == 7 { '7' }
    else if d == 8 { '8' }
    else { '9' }
}

/// `String::push`: appends one character.
#[verifier::external_body]
pub(crate) fn push_char(s: &mut String, c: char)
    ensures
        final(s)@ == old(s)@.push(c),
{
    s.push(c);
}

/// Appends the decimal notation of `n` to `s`.
pub fn push_decimal(s: &mut String, n: u128)
    ensures
        final(s)@ == old(s)@ + decimal(n as nat),
{
    let mut digits: Vec<char> = Vec::new();
    let mut m: u128 = n;
    while m >= 10
        invariant
            decimal(n as nat) == decimal(m as nat) + digits@,
        decreases m,
    {
        let d = digit(m % 10);
        let ghost old_digits = digits@;
        digits.insert(0, d);
        assert(decimal(m as nat) == decimal((m / 10) as nat).push(d));
        assert(decimal(m as nat) + old_digits =~= decimal((m / 10) as nat) + digits@);
        m = m / 10;
    }
    let ghost start = s@;
    push_char(s, digit(m));
    assert(decimal(m as nat) == seq![digit_char(m as nat)]);
    let mut i: usize = 0;
    while i < digits.len()
        invariant
            0 <= i <= digits@.len(),
            s@ == start + decimal(m as nat) + digits@.subrange(0, i as int),
            decimal(n as nat) == decimal(m as nat) + digits@,
        decreases digits@.len() - i,
    {
        let ghost before = s@;
        push_char(s, digits[i]);
        assert(digits@.subrange(0, i + 1) =~= digits@.subrange(0, i as int).push(digits@[i as int]));
        assert(s@ =~= start + decimal(m as nat) + digits@.subrange(0, i + 1));
        i = i + 1;
    }
    assert(digits@.subrange(0, digits@.len() as int) =~= digits@);
    assert(s@ =~= start + decimal(n as nat));
}

/// The decimal notation of `n` as a new string.
pub fn decimal_string(n: u128) -> (s: String)
    ensures
        s@ == decimal(n as nat),
{
    let mut s = String::new();
    push_decimal(&mut s, n);
    assert(s@ =~= decimal(n as nat));
    s
}

} // verus!

verus! {

/// Unicode `White_Space`, the class that `char::is_whitespace`, `str::trim`
/// and `str::trim_start` go by.
pub open spec fn is_white_space(c: char) -> bool {
    let u = c as u32;
    ||| 0x09 <= u <= 0x0D
    ||| u == 0x20
    ||| u == 0x85
    ||| u == 0xA0
    ||| u == 0x1680
    ||| 0x2000 <= u <= 0x200A
    ||| u == 0x2028
    ||| u == 0x2029
    ||| u == 0x202F
    ||| u == 0x205F
    ||| u == 0x3000
}

/// Whether `c` belongs to Unicode `White_Space`.
pub fn white_space(c: char) -> (b: bool)
    ensures
        b == is_white_space(c),
{
    let u = c as u32;
    (0x09 <= u && u <= 0x0D) || u == 0x20 || u == 0x85 || u == 0xA0 || u == 0x1680
        || (0x2000 <= u && u <= 0x200A) || u == 0x2028 || u == 0x2029 || u == 0x202F
        || u == 0x205F || u == 0x3000
}

/// Every character is white space: what `s.trim().is_empty()` tests.
pub open spec fn is_blank(s: Seq<char>) -> bool {
    forall|i: int| 0 <= i < s.len() ==> is_white_space(#[trigger] s[i])
}

/// Index of the first character that is not white space, or the length.
pub open spec fn first_non_blank(s: Seq<char>) -> int
    decreases s.len(),
{
    if s.len() == 0 {
        0
    } else if !is_white_space(s[0]) {
        0
    } else {
        1 + first_non_blank(s.drop_first())
    }
}

/// What `s.trim_start().starts_with(c)` tests.
pub open spec fn starts_with_after_blanks(s: Seq<char>, c: char) -> bool {
    let k = first_non_blank(s);
    k < s.len() && s[k] == c
}

pub proof fn lemma_first_non_blank(s: Seq<char>)
    ensures
        0 <= first_non_blank(s) <= s.len(),
        forall|j: int| 0 <= j < first_non_blank(s) ==> is_white_space(#[trigger] s[j]),
        first_non_blank(s) < s.len() ==> !is_white_space(s[first_non_blank(s)]),
    decreases s.len(),
{
    if s.len() > 0 && is_white_space(s[0]) {
        lemma_first_non_blank(s.drop_first());
        assert forall|j: int| 0 <= j < first_non_blank(s) implies is_white_space(#[trigger] s[j]) by {
            if j > 0 {
                assert(s[j] == s.drop_first()[j - 1]);
            }
        }
    }
}

/// Whether every character of `s` is white space (`s.trim().is_empty()`).
pub fn blank(s: &str) -> (b: bool)
    ensures
        b == is_blank(s@),
{
    let n = s.unicode_len();
    let mut i: usize = 0;
    while i < n
        invariant
            n == s@.len(),
            i <= n,
            forall|j: int| 0 <= j < i ==> is_white_space(#[trigger] s@[j]),
        decreases n - i,
    {
        if !white_space(s.get_char(i)) {
            return false;
        }
        i = i + 1;
    }
    true
}

/// Whether the first character of `s` that is not white space is `c`
/// (`s.trim_start().starts_with(c)`).
pub fn starts_with_trimmed(s: &str, c: char) -> (b: bool)
    ensures
        b == starts_with_after_blanks(s@, c),
{
    proof { lemma_first_non_blank(s@); }
    let n = s.unicode_len();
    let mut i: usize = 0;
    while i < n
        invariant
            n == s@.len(),
            i <= n,
            i <= first_non_blank(s@),
            forall|j: int| 0 <= j < first_non_blank(s@) ==> is_white_space(#[trigger] s@[j]),
            first_non_blank(s@) < s@.len() ==> !is_white_space(s@[first_non_blank(s@)]),
            0 <= first_non_blank(s@) <= s@.len(),
        decreases n - i,
    {
        let ch = s.get_char(i);
        if !white_space(ch) {
            assert(i == first_non_blank(s@));
            return ch == c;
        }
        i = i + 1;
    }
    false
}

} // verus!
