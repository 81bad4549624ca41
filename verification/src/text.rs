//! Text that the other modules put together: decimal numbers, topics and names.

use vstd::prelude::*;

verus! {

/// The decimal digits of `n`, most significant first.
pub open spec fn decimal(n: nat) -> Seq<char>
    decreases n,
{
    if n < 10 {
        seq![digit(n)]
    } else {
        decimal(n / 10).push(digit(n % 10))
    }
}

/// The character of a single decimal digit.
pub open spec fn digit(d: nat) -> char {
    if d == 0 {
        '0'
    } else if d == 1 {
        '1'
    } else if d == 2 {
        '2'
    } else if d == 3 {
        '3'
    } else if d == 4 {
        '4'
    } else if d == 5 {
        '5'
    } else if d == 6 {
        '6'
    } else if d == 7 {
        '7'
    } else if d == 8 {
        '8'
    } else {
        '9'
    }
}

fn digit_text(d: u64) -> (text: &'static str)
    requires
        d < 10,
    ensures
        text@ == seq![digit(d as nat)],
{
    proof {
        reveal_strlit("0");
        reveal_strlit("1");
        reveal_strlit("2");
        reveal_strlit("3");
        reveal_strlit("4");
        reveal_strlit("5");
        reveal_strlit("6");
        reveal_strlit("7");
        reveal_strlit("8");
        reveal_strlit("9");
    }
    match d {
        0 => "0",
        1 => "1",
        2 => "2",
        3 => "3",
        4 => "4",
        5 => "5",
        6 => "6",
        7 => "7",
        8 => "8",
        _ => "9",
    }
}

/// Writes `n` in decimal.
pub fn decimal_text(n: u64) -> (text: String)
    ensures
        text@ == decimal(n as nat),
    decreases n,
{
    if n < 10 {
        String::from_str(digit_text(n))
    } else {
        let mut text: String = decimal_text(n / 10);
        text.append(digit_text(n % 10));
        text
    }
}

/// `path` without `prefix` in front of it, where it starts with it.
pub open spec fn stripped(path: Seq<char>, prefix: Seq<char>) -> Option<Seq<char>> {
    if prefix.is_prefix_of(path) {
        Some(path.skip(prefix.len() as int))
    } else {
        None
    }
}

/// Calls `str::strip_prefix` of std. Taken on trust: the rest of `path` comes
/// back when `path` starts with `prefix`, and nothing otherwise.
#[verifier::external_body]
pub(crate) fn strip_prefix<'a>(path: &'a str, prefix: &str) -> (rest: Option<&'a str>)
    ensures
        rest is Some <==> stripped(path@, prefix@) is Some,
        rest matches Some(text) ==> Some(text@) == stripped(path@, prefix@),
{
    path.strip_prefix(prefix)
}

/// Calls `std::str::from_utf8`. Taken on trust: the text comes back exactly
/// when the bytes are valid UTF-8, and the bytes are its encoding.
#[verifier::external_body]
pub(crate) fn utf8_text(data: &[u8]) -> (text: Option<&str>)
    ensures
        text is Some <==> vstd::utf8::valid_utf8(data@),
        text matches Some(t) ==> t@ == vstd::utf8::decode_utf8(data@),
{
    std::str::from_utf8(data).ok()
}

/// Calls `heapless::String::<N>::push_str` on an empty string. Taken on trust:
/// the text is held unchanged when its UTF-8 encoding has at most `N` bytes, and
/// is refused otherwise.
#[verifier::external_body]
pub(crate) fn bounded_text<const N: usize>(text: &str) -> (held: Result<String, ()>)
    ensures
        held is Ok <==> vstd::utf8::encode_utf8(text@).len() <= N,
        held matches Ok(t) ==> t@ == text@,
{
    let mut bounded: heapless::String<N> = heapless::String::new();
    bounded.push_str(text)?;
    Ok(String::from(bounded.as_str()))
}

/// Whether a character is a decimal digit.
pub open spec fn is_digit(c: char) -> bool {
    '0' <= c <= '9'
}

/// Every number has digits, and nothing but digits.
pub proof fn lemma_decimal_has_digits(n: nat)
    ensures
        decimal(n).len() > 0,
        forall|i: int| 0 <= i < decimal(n).len() ==> is_digit(#[trigger] decimal(n)[i]),
    decreases n,
{
    if n >= 10 {
        lemma_decimal_has_digits(n / 10);
    }
}

proof fn lemma_digits_differ(a: nat, b: nat)
    requires
        a < 10,
        b < 10,
        digit(a) == digit(b),
    ensures
        a == b,
{
}

/// Different numbers have different digits.
pub proof fn law_decimal_tells_numbers_apart(m: nat, n: nat)
    requires
        decimal(m) == decimal(n),
    ensures
        m == n,
    decreases m,
{
    if m < 10 && n < 10 {
        assert(decimal(m) == seq![digit(m)]);
        assert(decimal(n) == seq![digit(n)]);
        assert(seq![digit(m)][0] == seq![digit(n)][0]);
        lemma_digits_differ(m, n);
    } else if m < 10 {
        lemma_decimal_has_digits(n / 10);
        assert(decimal(m).len() == 1);
    } else if n < 10 {
        lemma_decimal_has_digits(m / 10);
        assert(decimal(n).len() == 1);
    } else {
        assert(decimal(m).last() == digit(m % 10));
        assert(decimal(n).last() == digit(n % 10));
        lemma_digits_differ(m % 10, n % 10);
        assert(decimal(m).drop_last() =~= decimal(m / 10));
        assert(decimal(n).drop_last() =~= decimal(n / 10));
        law_decimal_tells_numbers_apart(m / 10, n / 10);
    }
}

/// A number ends where its digits end: two texts that start with a number and go
/// on with something else are the same only if both parts are.
pub proof fn lemma_decimal_ends(m: nat, n: nat, x: Seq<char>, y: Seq<char>)
    requires
        decimal(m) + x == decimal(n) + y,
        x.len() > 0 && !is_digit(x[0]),
        y.len() > 0 && !is_digit(y[0]),
    ensures
        m == n,
        x == y,
{
    lemma_decimal_has_digits(m);
    lemma_decimal_has_digits(n);
    let text = decimal(m) + x;
    assert(text[decimal(m).len() as int] == x[0]);
    assert((decimal(n) + y)[decimal(n).len() as int] == y[0]);
    if decimal(m).len() < decimal(n).len() {
        assert((decimal(n) + y)[decimal(m).len() as int] == decimal(n)[decimal(m).len() as int]);
    }
    if decimal(n).len() < decimal(m).len() {
        assert(text[decimal(n).len() as int] == decimal(m)[decimal(n).len() as int]);
    }
    assert(decimal(m) =~= text.subrange(0, decimal(m).len() as int));
    assert(decimal(n) =~= (decimal(n) + y).subrange(0, decimal(n).len() as int));
    law_decimal_tells_numbers_apart(m, n);
    assert(x =~= text.skip(decimal(m).len() as int));
    assert(y =~= (decimal(n) + y).skip(decimal(n).len() as int));
}

/// The number that decimal digits stand for.
pub open spec fn number_read(text: Seq<char>) -> int
    decreases text.len(),
{
    if text.len() == 0 {
        0
    } else {
        10 * number_read(text.drop_last()) + (text.last() as int - '0' as int)
    }
}

/// A number's digits read back as the number, and there are no more of them than it
/// takes: none but a lone one is a leading zero.
pub proof fn law_decimal_reads_back(n: nat)
    ensures
        number_read(decimal(n)) == n,
        decimal(n).len() > 0,
        decimal(n).len() > 1 ==> decimal(n)[0] != '0',
        forall|i: int| 0 <= i < decimal(n).len() ==> '0' <= #[trigger] decimal(n)[i] <= '9',
    decreases n,
{
    lemma_decimal_has_digits(n);
    if n < 10 {
        assert(decimal(n).drop_last() =~= seq![]);
        reveal_with_fuel(number_read, 2);
    } else {
        law_decimal_reads_back(n / 10);
        assert(decimal(n).drop_last() =~= decimal(n / 10));
        assert(decimal(n)[0] == decimal(n / 10)[0]);
        if n / 10 < 10 {
            assert(decimal(n / 10)[0] == digit(n / 10));
        } else {
            lemma_decimal_has_digits((n / 10) / 10);
        }
    }
}

/// A digit that is written behind a number other than zero makes ten times the number and
/// the digit of it.
pub proof fn law_decimal_grows_by_digits(n: nat, d: nat)
    requires
        d < 10,
    ensures
        decimal(d).len() == 1,
        decimal(d)[0] as int == '0' as int + d,
        n > 0 ==> decimal(10 * n + d) == decimal(n) + decimal(d),
{
    if n > 0 {
        assert((10 * n + d) / 10 == n && (10 * n + d) % 10 == d) by (nonlinear_arith)
            requires
                d < 10,
        ;
        assert(decimal(10 * n + d) =~= decimal(n) + decimal(d));
    }
}

/// What is left of a path without a prefix is exactly what the prefix has to be followed
/// by to give the path; nothing is left where the path is not the prefix and more.
pub proof fn law_stripped_is_what_follows(path: Seq<char>, prefix: Seq<char>, rest: Seq<char>)
    ensures
        stripped(path, prefix) == Some(rest) <==> path == prefix + rest,
        stripped(path, prefix) is None <==> !(path.len() >= prefix.len() && path.take(
            prefix.len() as int,
        ) == prefix),
{
    if path == prefix + rest {
        assert(path.subrange(0, prefix.len() as int) =~= prefix);
        assert(path.skip(prefix.len() as int) =~= rest);
    }
    if prefix.is_prefix_of(path) {
        assert(path.take(prefix.len() as int) =~= prefix);
        assert(path =~= prefix + path.skip(prefix.len() as int));
    }
    if path.len() >= prefix.len() && path.take(prefix.len() as int) == prefix {
        assert(path.subrange(0, prefix.len() as int) =~= prefix);
    }
}

} // verus!
