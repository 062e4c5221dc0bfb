//! Textual encodings used across the service: decimal numerals and
//! lower-case hexadecimal.
use vstd::prelude::*;

verus! {

/// The ASCII digit for `d` in `0..16`, lower-case letters above nine.
pub open spec fn hex_digit(d: int) -> char {
    if d < 10 {
        ((d + 48) as u8) as char
    } else {
        ((d - 10 + 97) as u8) as char
    }
}

/// Lower-case hexadecimal text of `bytes`: two digits per byte, high nibble first.
pub open spec fn hex_lower(bytes: Seq<u8>) -> Seq<char> {
    Seq::new(
        2 * bytes.len(),
        |i: int|
            if i % 2 == 0 {
                hex_digit(bytes[i / 2] as int / 16)
            } else {
                hex_digit(bytes[i / 2] as int % 16)
            },
    )
}

/// Whether `c` is a lower-case hexadecimal digit.
pub open spec fn is_lower_hex_char(c: char) -> bool {
    ('0' <= c && c <= '9') || ('a' <= c && c <= 'f')
}

/// Whether `s` is the hyphenated lower-case text of a version 4 (random) UUID:
/// 36 characters in groups of 8-4-4-4-12 hexadecimal digits, the version digit `4`
/// opening the third group and the variant digit (`8`, `9`, `a` or `b`) the fourth.
pub open spec fn is_uuid_v4_text(s: Seq<char>) -> bool {
    &&& s.len() == 36
    &&& forall|i: int| #![trigger s[i]] 0 <= i < 36 ==> (if i == 8 || i == 13 || i == 18 || i == 23 {
        s[i] == '-'
    } else {
        is_lower_hex_char(s[i])
    })
    &&& s[14] == '4'
    &&& (s[19] == '8' || s[19] == '9' || s[19] == 'a' || s[19] == 'b')
}

/// The decimal digit character for `d` in `0..10`.
pub open spec fn decimal_digit(d: int) -> char {
    ((d + 48) as u8) as char
}

/// Decimal numeral of `n`, without sign or leading zeros.
pub open spec fn decimal(n: nat) -> Seq<char>
    decreases n,
{
    if n < 10 {
        seq![decimal_digit(n as int)]
    } else {
        decimal(n / 10).push(decimal_digit((n % 10) as int))
    }
}

/// Whether every character of `s` is an ASCII decimal digit.
pub open spec fn all_digits(s: Seq<char>) -> bool {
    forall|i: int| 0 <= i < s.len() ==> '0' <= #[trigger] s[i] <= '9'
}

/// The numeral of a number is made of digits, one more digit per power of ten.
pub proof fn lemma_decimal_shape(n: nat)
    ensures
        all_digits(decimal(n)),
        n < 10 ==> decimal(n).len() == 1,
        n >= 10 ==> decimal(n).len() == decimal(n / 10).len() + 1,
    decreases n,
{
    if n >= 10 {
        lemma_decimal_shape(n / 10);
    }
}

/// The number a string of decimal digits stands for, most significant digit first.
pub open spec fn numeral_value(s: Seq<char>) -> int
    decreases s.len(),
{
    if s.len() == 0 {
        0
    } else {
        numeral_value(s.drop_last()) * 10 + (s.last() as int - '0' as int)
    }
}

/// Whether `s` is a numeral as usually written: at least one digit, all digits, and no
/// leading zero unless the numeral is `0` itself.
pub open spec fn is_plain_numeral(s: Seq<char>) -> bool {
    &&& s.len() > 0
    &&& all_digits(s)
    &&& (s[0] != '0' || s.len() == 1)
}

/// The decimal numeral of `n` is a plain numeral and reads back as `n`.
pub proof fn lemma_decimal_reads_back(n: nat)
    ensures
        is_plain_numeral(decimal(n)),
        numeral_value(decimal(n)) == n,
        n > 0 ==> decimal(n)[0] != '0',
    decreases n,
{
    lemma_decimal_shape(n);
    if n < 10 {
        let d = decimal_digit(n as int);
        assert(d as int == n + 48);
        assert(decimal(n) == seq![d]);
        assert(decimal(n).drop_last() =~= Seq::<char>::empty());
        assert(decimal(n).last() == d);
        assert(numeral_value(decimal(n)) == numeral_value(decimal(n).drop_last()) * 10 + (d as int - 48));
    } else {
        lemma_decimal_reads_back(n / 10);
        let d = decimal_digit((n % 10) as int);
        assert(d as int == n % 10 + 48);
        assert(decimal(n) == decimal(n / 10).push(d));
        assert(decimal(n).drop_last() =~= decimal(n / 10));
        assert(decimal(n).last() == d);
        assert(decimal(n)[0] == decimal(n / 10)[0]);
        assert(numeral_value(decimal(n)) == numeral_value(decimal(n / 10)) * 10 + (d as int - 48));
        assert((n / 10) * 10 + n % 10 == n);
    }
}

/// Numbers with six decimal digits are exactly those in `100000..=999999`.
pub proof fn lemma_six_digit_numeral(n: nat)
    requires
        100_000 <= n <= 999_999,
    ensures
        decimal(n).len() == 6,
        all_digits(decimal(n)),
{
    lemma_decimal_shape(n);
    lemma_decimal_shape(n / 10);
    lemma_decimal_shape(n / 100);
    lemma_decimal_shape(n / 1000);
    lemma_decimal_shape(n / 10000);
    lemma_decimal_shape(n / 100000);
    assert(n / 10 / 10 == n / 100);
    assert(n / 100 / 10 == n / 1000);
    assert(n / 1000 / 10 == n / 10000);
    assert(n / 10000 / 10 == n / 100000);
}

fn digit_text(d: u64) -> (s: &'static str)
    requires
        d < 10,
    ensures
        s@ == seq![decimal_digit(d as int)],
{
    proof {
        reveal_strlit("0");
        reveal_strlit("1");
        reveal_strlit("2");
        reveal_strlit("3");
        reveal_strlit("4");
        reveal_strlit("5");
        reveal_strlit("6");
        reveal_strlit("7");
        reveal_strlit("8");
        reveal_strlit("9");
    }
    match d {
        0 => "0",
        1 => "1",
        2 => "2",
        3 => "3",
        4 => "4",
        5 => "5",
        6 => "6",
        7 => "7",
        8 => "8",
        _ => "9",
    }
}

/// Decimal text of `n`, as `n.to_string()` writes it.
pub fn decimal_string(n: u64) -> (s: String)
    ensures
        s@ == decimal(n as nat),
    decreases n,
{
    if n < 10 {
        String::from_str(digit_text(n))
    } else {
        let mut s = decimal_string(n / 10);
        s.append(digit_text(n % 10));
        s
    }
}

} // verus!

verus! {

/// The text of an optional string.
pub open spec fn opt_text(o: Option<String>) -> Option<Seq<char>> {
    match o {
        Some(s) => Some(s@),
        None => None,
    }
}

/// A copy of an optional string with the same text.
pub fn copy_opt(o: &Option<String>) -> (c: Option<String>)
    ensures
        opt_text(c) == opt_text(*o),
{
    match o {
        Some(s) => Some(s.clone()),
        None => None,
    }
}

/// Whether two texts are the same.
pub fn same_text(a: &str, b: &str) -> (same: bool)
    ensures
        same == (a@ == b@),
{
    let x = a.to_owned();
    let y = b.to_owned();
    x == y
}

/// Whether `s` starts with `prefix`, character by character.
pub fn starts_with_text(s: &str, prefix: &str) -> (starts: bool)
    ensures
        starts == prefix@.is_prefix_of(s@),
{
    let n = s.unicode_len();
    let m = prefix.unicode_len();
    if m > n {
        return false;
    }
    let mut i: usize = 0;
    while i < m
        invariant
            m == prefix@.len(),
            n == s@.len(),
            m <= n,
            i <= m,
            forall|j: int| 0 <= j < i ==> prefix@[j] == s@[j],
        decreases m - i,
    {
        if prefix.get_char(i) != s.get_char(i) {
            assert(prefix@[i as int] != s@.subrange(0, m as int)[i as int]);
            return false;
        }
        i = i + 1;
    }
    assert(prefix@ =~= s@.subrange(0, m as int));
    true
}

} // verus!
