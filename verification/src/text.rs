use vstd::prelude::*;

verus! {

/// The character of a decimal digit.
pub open spec fn digit_char(d: int) -> char {
    (48 + d) as char
}

/// Decimal representation of a natural number, most significant digit first.
pub open spec fn nat_decimal(n: nat) -> Seq<char>
    decreases n,
{
    if n < 10 {
        seq![digit_char(n as int)]
    } else {
        nat_decimal(n / 10).push(digit_char((n % 10) as int))
    }
}

/// Decimal representation of an integer, with a leading `-` when negative.
pub open spec fn int_decimal(n: int) -> Seq<char> {
    if n < 0 {
        seq!['-'] + nat_decimal((-n) as nat)
    } else {
        nat_decimal(n as nat)
    }
}

fn digit_str(d: u64) -> (s: &'static str)
    requires
        d < 10,
    ensures
        s@ == seq![digit_char(d as int)],
{
    proof {
        reveal_strlit("0");
        reveal_strlit("1");
        reveal_strlit("2");
        reveal_strlit("3");
        reveal_strlit("4");
        reveal_strlit("5");
        reveal_strlit("6");
        reveal_strlit("7");
        reveal_strlit("8");
        reveal_strlit("9");
    }
    if d == 0 {
        "0"
    } else if d == 1 {
        "1"
    } else if d == 2 {
        "2"
    } else if d == 3 {
        "3"
    } else if d == 4 {
        "4"
    } else if d == 5 {
        "5"
    } else if d == 6 {
        "6"
    } else if d == 7 {
        "7"
    } else if d == 8 {
        "8"
    } else {
        "9"
    }
}

/// Renders an unsigned number in decimal.
pub fn u64_to_decimal(n: u64) -> (s: String)
    ensures
        s@ == nat_decimal(n as nat),
    decreases n,
{
    if n < 10 {
        String::from_str(digit_str(n))
    } else {
        let mut s = u64_to_decimal(n / 10);
        s.append(digit_str(n % 10));
        s
    }
}

/// Renders a signed number in decimal, with a leading `-` when negative.
pub fn i64_to_decimal(n: i64) -> (s: String)
    ensures
        s@ == int_decimal(n as int),
{
    if n < 0 {
        let magnitude: u64 = if n == i64::MIN {
            9223372036854775808u64
        } else {
            (-n) as u64
        };
        let mut s = String::from_str("-");
        proof {
            reveal_strlit("-");
        }
        let digits = u64_to_decimal(magnitude);
        s.append(digits.as_str());
        s
    } else {
        u64_to_decimal(n as u64)
    }
}

/// Whether a character is an ASCII decimal digit.
pub open spec fn is_digit(c: char) -> bool {
    '0' <= c <= '9'
}

/// The number written by a sequence of decimal digits (zero when empty).
pub open spec fn digits_value(s: Seq<char>) -> nat
    decreases s.len(),
{
    if s.len() == 0 {
        0
    } else {
        digits_value(s.drop_last()) * 10 + ((s.last() as int) - 48) as nat
    }
}

/// The digits that follow an optional leading `+`.
pub open spec fn unsigned_digits(s: Seq<char>) -> Seq<char> {
    if s.len() > 0 && s[0] == '+' {
        s.drop_first()
    } else {
        s
    }
}

/// How std's `str::parse::<u16>` reads a string: an optional `+`, then one or
/// more ASCII digits whose value fits in sixteen bits.
pub open spec fn parse_u16_spec(s: Seq<char>) -> Option<u16> {
    let d = unsigned_digits(s);
    if d.len() > 0 && (forall|i: int| 0 <= i < d.len() ==> is_digit(#[trigger] d[i]))
        && digits_value(d) <= 65535 {
        Some(digits_value(d) as u16)
    } else {
        None
    }
}

proof fn lemma_capped_step(a: nat, d: nat)
    requires
        d < 10,
    ensures
        (if a >= 65536 { 65536nat } else { a }) * 10 + d >= 65536 ==> a * 10 + d >= 65536,
        (if a >= 65536 { 65536nat } else { a }) * 10 + d < 65536 ==> a * 10 + d == (if a
            >= 65536 { 65536nat } else { a }) * 10 + d,
{
}

/// Parses a port number the way std's `str::parse::<u16>` does.
pub fn parse_u16(s: &str) -> (r: Option<u16>)
    ensures
        r == parse_u16_spec(s@),
{
    let len = s.unicode_len();
    let mut start: usize = 0;
    if len > 0 && s.get_char(0) == '+' {
        start = 1;
    }
    let ghost d = unsigned_digits(s@);
    assert(d =~= s@.subrange(start as int, len as int));
    if start == len {
        return None;
    }
    let mut value: u32 = 0;
    let mut i: usize = start;
    while i < len
        invariant
            start <= i <= len,
            len == s@.len(),
            d =~= s@.subrange(start as int, len as int),
            d == unsigned_digits(s@),
            forall|j: int| 0 <= j < i - start ==> is_digit(#[trigger] d[j]),
            value == (if digits_value(d.take(i - start)) >= 65536 {
                65536nat
            } else {
                digits_value(d.take(i - start))
            }),
        decreases len - i,
    {
        let c = s.get_char(i);
        if !('0' <= c && c <= '9') {
            assert(!is_digit(d[i - start]));
            return None;
        }
        let digit: u32 = (c as u32) - 48;
        let ghost prev = d.take(i - start);
        assert(d.take(i + 1 - start).drop_last() =~= prev);
        assert(d.take(i + 1 - start).last() == c);
        proof {
            lemma_capped_step(digits_value(prev), digit as nat);
        }
        let next: u32 = value * 10 + digit;
        value = if next >= 65536 { 65536 } else { next };
        i = i + 1;
    }
    assert(d.take(len - start) =~= d);
    if value >= 65536 {
        None
    } else {
        Some(value as u16)
    }
}

/// `s` without the trailing run of `c` characters.
pub open spec fn trim_trailing(s: Seq<char>, c: char) -> Seq<char>
    decreases s.len(),
{
    if s.len() > 0 && s.last() == c {
        trim_trailing(s.drop_last(), c)
    } else {
        s
    }
}

/// `s` without the leading run of `c` characters.
pub open spec fn trim_leading(s: Seq<char>, c: char) -> Seq<char>
    decreases s.len(),
{
    if s.len() > 0 && s[0] == c {
        trim_leading(s.drop_first(), c)
    } else {
        s
    }
}

/// Removes every trailing `c`, as `str::trim_end_matches(c)` does.
pub fn trim_end_char(s: &str, c: char) -> (r: &str)
    ensures
        r@ == trim_trailing(s@, c),
{
    let len = s.unicode_len();
    let mut end: usize = len;
    assert(s@.take(len as int) =~= s@);
    while end > 0 && s.get_char(end - 1) == c
        invariant
            end <= len,
            len == s@.len(),
            trim_trailing(s@.take(end as int), c) == trim_trailing(s@, c),
        decreases end,
    {
        assert(s@.take(end as int).drop_last() =~= s@.take(end - 1));
        end = end - 1;
    }
    assert(s@.take(len as int) =~= s@);
    assert(s@.subrange(0, end as int) =~= s@.take(end as int));
    s.substring_char(0, end)
}

/// Removes every leading and trailing `c`, as `str::trim_matches(c)` does.
pub fn trim_both_char(s: &str, c: char) -> (r: &str)
    ensures
        r@ == trim_trailing(trim_leading(s@, c), c),
{
    let len = s.unicode_len();
    let mut start: usize = 0;
    assert(s@.skip(0) =~= s@);
    while start < len && s.get_char(start) == c
        invariant
            start <= len,
            len == s@.len(),
            trim_leading(s@.skip(start as int), c) == trim_leading(s@, c),
        decreases len - start,
    {
        assert(s@.skip(start as int).drop_first() =~= s@.skip(start + 1));
        start = start + 1;
    }
    assert(s@.skip(0) =~= s@);
    assert(s@.subrange(start as int, len as int) =~= s@.skip(start as int));
    let rest = s.substring_char(start, len);
    trim_end_char(rest, c)
}

/// Whether two texts are equal.
pub fn str_eq(a: &str, b: &str) -> (r: bool)
    ensures
        r == (a@ == b@),
{
    let x = String::from_str(a);
    let y = String::from_str(b);
    x.eq(&y)
}

/// The rest of `s` after `prefix`, when `s` starts with it, as
/// `str::strip_prefix` gives it.
pub open spec fn strip_prefix_spec(s: Seq<char>, prefix: Seq<char>) -> Option<Seq<char>> {
    if prefix.len() <= s.len() && s.take(prefix.len() as int) == prefix {
        Some(s.skip(prefix.len() as int))
    } else {
        None
    }
}

/// Strips `prefix` off the front of `s`, when `s` starts with it.
pub fn strip_prefix<'a>(s: &'a str, prefix: &str) -> (r: Option<&'a str>)
    ensures
        match r {
            Some(rest) => strip_prefix_spec(s@, prefix@) == Some(rest@),
            None => strip_prefix_spec(s@, prefix@) is None,
        },
{
    let n = s.unicode_len();
    let k = prefix.unicode_len();
    if k > n {
        return None;
    }
    let head = s.substring_char(0, k);
    assert(head@ =~= s@.take(k as int));
    if str_eq(head, prefix) {
        let rest = s.substring_char(k, n);
        assert(rest@ =~= s@.skip(k as int));
        Some(rest)
    } else {
        None
    }
}

/// The decimal text of a number is all digits and reads back as that number.
pub proof fn lemma_decimal_digits(n: nat)
    ensures
        nat_decimal(n).len() > 0,
        forall|i: int| 0 <= i < nat_decimal(n).len() ==> is_digit(#[trigger] nat_decimal(n)[i]),
        digits_value(nat_decimal(n)) == n,
    decreases n,
{
    if n < 10 {
        assert((digit_char(n as int) as int) == 48 + n);
        assert(nat_decimal(n).drop_last() =~= Seq::<char>::empty());
        assert(digits_value(nat_decimal(n).drop_last()) == 0);
        assert(digits_value(nat_decimal(n)) == n);
    }
    if n >= 10 {
        lemma_decimal_digits(n / 10);
        let s = nat_decimal(n);
        assert(s.drop_last() =~= nat_decimal(n / 10));
        assert(s.last() == digit_char((n % 10) as int));
        assert((s.last() as int) == 48 + n % 10);
        assert((n / 10) * 10 + n % 10 == n);
        assert(digits_value(s.drop_last()) == n / 10);
        assert(digits_value(s) == digits_value(s.drop_last()) * 10 + ((s.last() as int) - 48) as nat);
        assert(digits_value(s) == n);
        assert forall|i: int| 0 <= i < s.len() implies is_digit(#[trigger] s[i]) by {
            if i < s.len() - 1 {
                assert(s[i] == nat_decimal(n / 10)[i]);
            }
        }
    }
}

/// A port number printed in decimal parses back to itself.
pub proof fn lemma_port_roundtrip(port: u16)
    ensures
        parse_u16_spec(nat_decimal(port as nat)) == Some(port),
{
    lemma_decimal_digits(port as nat);
    let s = nat_decimal(port as nat);
    assert(is_digit(s[0]));
    assert(unsigned_digits(s) == s);
}

} // verus!
