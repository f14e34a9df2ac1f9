use vstd::prelude::*;

verus! {

/// The error of `serde_json`, carried as it comes and never looked into.
#[verifier::external_type_specification]
#[verifier::external_body]
pub struct ExJsonError(serde_json::Error);

/// The character of one decimal digit, `0` to `9`.
pub open spec fn digit_char(d: int) -> char {
    if d == 0 {
        '0'
    } else if d == 1 {
        '1'
    } else if d == 2 {
        '2'
    } else if d == 3 {
        '3'
    } else if d == 4 {
        '4'
    } else if d == 5 {
        '5'
    } else if d == 6 {
        '6'
    } else if d == 7 {
        '7'
    } else if d == 8 {
        '8'
    } else {
        '9'
    }
}

/// Whether a character is a decimal digit.
pub open spec fn is_decimal_digit(c: char) -> bool {
    '0' <= c && c <= '9'
}

/// The decimal digits of a natural number, most significant first, with no
/// leading zero.
pub open spec fn decimal_digits(n: nat) -> Seq<char>
    decreases n,
{
    if n < 10 {
        seq![digit_char(n as int)]
    } else {
        decimal_digits(n / 10).push(digit_char((n % 10) as int))
    }
}

/// The decimal text of an integer: a minus sign for a negative one, then the
/// digits of its magnitude.
pub open spec fn decimal_text(i: int) -> Seq<char> {
    if i < 0 {
        seq!['-'] + decimal_digits((-i) as nat)
    } else {
        decimal_digits(i as nat)
    }
}

/// The JSON text of a truth value.
pub open spec fn bool_text(b: bool) -> Seq<char> {
    if b {
        seq!['t', 'r', 'u', 'e']
    } else {
        seq!['f', 'a', 'l', 's', 'e']
    }
}

/// The lower-case hexadecimal digit of a value below sixteen.
pub open spec fn hex_char(d: int) -> char {
    if d < 10 {
        digit_char(d)
    } else if d == 10 {
        'a'
    } else if d == 11 {
        'b'
    } else if d == 12 {
        'c'
    } else if d == 13 {
        'd'
    } else if d == 14 {
        'e'
    } else {
        'f'
    }
}

/// What one character becomes inside a JSON string literal: the quote, the
/// backslash and the control characters are escaped, the short way where
/// there is one, and every other character stands for itself.
pub open spec fn escaped_char(c: char) -> Seq<char> {
    if c == '"' {
        seq!['\\', '"']
    } else if c == '\\' {
        seq!['\\', '\\']
    } else if c == '\u{8}' {
        seq!['\\', 'b']
    } else if c == '\t' {
        seq!['\\', 't']
    } else if c == '\n' {
        seq!['\\', 'n']
    } else if c == '\u{c}' {
        seq!['\\', 'f']
    } else if c == '\r' {
        seq!['\\', 'r']
    } else if (c as int) < 32 {
        seq!['\\', 'u', '0', '0', hex_char((c as int) / 16), hex_char((c as int) % 16)]
    } else {
        seq![c]
    }
}

/// The characters of a string, each escaped for a JSON string literal.
pub open spec fn escaped_text(s: Seq<char>) -> Seq<char>
    decreases s.len(),
{
    if s.len() == 0 {
        Seq::empty()
    } else {
        escaped_text(s.drop_last()) + escaped_char(s.last())
    }
}

/// The JSON string literal of a string: its escaped text between quotes.
pub open spec fn string_text(s: Seq<char>) -> Seq<char> {
    seq!['"'] + escaped_text(s) + seq!['"']
}

/// The white space that JSON allows around a value.
pub open spec fn is_json_space(c: char) -> bool {
    c == ' ' || c == '\n' || c == '\t' || c == '\r'
}

/// A text without the JSON white space at its start.
pub open spec fn without_leading_space(text: Seq<char>) -> Seq<char>
    decreases text.len(),
{
    if text.len() > 0 && is_json_space(text.first()) {
        without_leading_space(text.drop_first())
    } else {
        text
    }
}

/// A text without the JSON white space at its end.
pub open spec fn without_trailing_space(text: Seq<char>) -> Seq<char>
    decreases text.len(),
{
    if text.len() > 0 && is_json_space(text.last()) {
        without_trailing_space(text.drop_last())
    } else {
        text
    }
}

/// A text without the JSON white space around it.
pub open spec fn without_space(text: Seq<char>) -> Seq<char> {
    without_trailing_space(without_leading_space(text))
}

/// The decimal text of a 32-bit integer.
pub open spec fn i32_text(v: i32) -> Seq<char> {
    decimal_text(v as int)
}

/// The 32-bit integer that a JSON text stands for: the one whose decimal
/// text it is, alone but for white space around it. A text with a fraction,
/// an exponent, a plus sign, a leading zero or a minus before a lone zero
/// stands for none, nor does one out of range.
pub open spec fn i32_value(text: Seq<char>) -> Option<i32> {
    let word = without_space(text);
    if exists|v: i32| word == #[trigger] i32_text(v) {
        Some(choose|v: i32| word == #[trigger] i32_text(v))
    } else {
        None
    }
}

/// The truth value that a JSON text stands for: `true` or `false`, alone but
/// for white space around it.
pub open spec fn bool_value(text: Seq<char>) -> Option<bool> {
    let word = without_space(text);
    if word == bool_text(true) {
        Some(true)
    } else if word == bool_text(false) {
        Some(false)
    } else {
        None
    }
}

/// The string that `serde_json::from_str` reads from a text as a `String`, if
/// it reads one.
pub uninterp spec fn json_string_value(text: Seq<char>) -> Option<Seq<char>>;

/// `serde_json::to_string` on a `String`. The serializer writes into a buffer
/// in memory and a string has no way to refuse, so the call succeeds; the text
/// is the string between quotes, with the escapes of the serializer's table.
/// `serde_json::from_str` reads that text back as the same string: it takes
/// every character but the quote, the backslash and the control characters
/// as it stands, and each escape of the table as the character it was
/// written for.
#[verifier::external_body]
pub(crate) fn string_to_json(s: &String) -> (r: Result<String, serde_json::Error>)
    ensures
        match r {
            Ok(text) => text@ == string_text(s@) && json_string_value(text@) == Some(s@),
            Err(_) => false,
        },
{
    serde_json::to_string(s)
}

/// `serde_json::to_string` on an `i32`. The serializer writes the integer in
/// decimal into a buffer in memory, so the call succeeds.
#[verifier::external_body]
pub(crate) fn i32_to_json(v: &i32) -> (r: Result<String, serde_json::Error>)
    ensures
        match r {
            Ok(text) => text@ == i32_text(*v),
            Err(_) => false,
        },
{
    serde_json::to_string(v)
}

/// `serde_json::to_string` on a `bool`. The serializer writes `true` or
/// `false` into a buffer in memory, so the call succeeds.
#[verifier::external_body]
pub(crate) fn bool_to_json(b: &bool) -> (r: Result<String, serde_json::Error>)
    ensures
        match r {
            Ok(text) => text@ == bool_text(*b),
            Err(_) => false,
        },
{
    serde_json::to_string(b)
}

/// `serde_json::from_str` at type `String`. The outcome depends on the text
/// alone: the string read, or an error where the text is no JSON string.
#[verifier::external_body]
pub(crate) fn string_from_json(text: &str) -> (r: Result<String, serde_json::Error>)
    ensures
        match r {
            Ok(s) => json_string_value(text@) == Some(s@),
            Err(_) => json_string_value(text@) is None,
        },
{
    serde_json::from_str::<String>(text)
}

/// `serde_json::from_str` at type `i32`. The deserializer skips white space,
/// reads an integer written in decimal without a leading zero, and refuses
/// anything but white space after it; a number that is written otherwise or
/// does not fit is an error.
#[verifier::external_body]
pub(crate) fn i32_from_json(text: &str) -> (r: Result<i32, serde_json::Error>)
    ensures
        match r {
            Ok(v) => without_space(text@) == i32_text(v),
            Err(_) => forall|v: i32| without_space(text@) != #[trigger] i32_text(v),
        },
{
    serde_json::from_str::<i32>(text)
}

/// `serde_json::from_str` at type `bool`. The deserializer skips white space,
/// reads the word `true` or `false`, and refuses anything but white space
/// after it.
#[verifier::external_body]
pub(crate) fn bool_from_json(text: &str) -> (r: Result<bool, serde_json::Error>)
    ensures
        match r {
            Ok(b) => bool_value(text@) == Some(b),
            Err(_) => bool_value(text@) is None,
        },
{
    serde_json::from_str::<bool>(text)
}

/// The decimal digits of a number are at least one, and all of them digits.
pub proof fn lemma_decimal_digits_shape(n: nat)
    ensures
        decimal_digits(n).len() >= 1,
        decimal_digits(n).len() == 1 <==> n < 10,
        forall|i: int|
            0 <= i < decimal_digits(n).len() ==> is_decimal_digit(#[trigger] decimal_digits(n)[i]),
    decreases n,
{
    if n >= 10 {
        lemma_decimal_digits_shape(n / 10);
    }
}

/// Two numbers with the same decimal digits are the same number.
pub proof fn lemma_decimal_digits_injective(a: nat, b: nat)
    requires
        decimal_digits(a) == decimal_digits(b),
    ensures
        a == b,
    decreases a,
{
    lemma_decimal_digits_shape(a);
    lemma_decimal_digits_shape(b);
    if a < 10 {
        assert(decimal_digits(a)[0] == digit_char(a as int));
        assert(decimal_digits(b)[0] == digit_char(b as int));
    } else {
        let x = decimal_digits(a / 10);
        let y = decimal_digits(b / 10);
        let p = digit_char((a % 10) as int);
        let q = digit_char((b % 10) as int);
        assert(x.push(p) == y.push(q));
        assert(x == x.push(p).drop_last());
        assert(y == y.push(q).drop_last());
        assert(p == x.push(p).last());
        assert(q == y.push(q).last());
        lemma_decimal_digits_injective(a / 10, b / 10);
    }
}

/// Two integers with the same decimal text are the same integer.
pub proof fn lemma_decimal_text_injective(a: int, b: int)
    requires
        decimal_text(a) == decimal_text(b),
    ensures
        a == b,
{
    let x = if a < 0 { (-a) as nat } else { a as nat };
    let y = if b < 0 { (-b) as nat } else { b as nat };
    lemma_decimal_digits_shape(x);
    lemma_decimal_digits_shape(y);
    let minus = seq!['-'];
    if a < 0 {
        assert(decimal_text(a)[0] == '-');
    } else {
        assert(decimal_text(a)[0] == decimal_digits(x)[0]);
    }
    if b < 0 {
        assert(decimal_text(b)[0] == '-');
    } else {
        assert(decimal_text(b)[0] == decimal_digits(y)[0]);
    }
    if a < 0 && b < 0 {
        assert((minus + decimal_digits(x)).drop_first() == decimal_digits(x));
        assert((minus + decimal_digits(y)).drop_first() == decimal_digits(y));
    }
    lemma_decimal_digits_injective(x, y);
}

/// A text is the decimal text of at most one 32-bit integer, and that one is
/// its value.
pub proof fn lemma_i32_value_is(text: Seq<char>, v: i32)
    requires
        without_space(text) == i32_text(v),
    ensures
        i32_value(text) == Some(v),
{
    let w = choose|w: i32| without_space(text) == #[trigger] i32_text(w);
    lemma_decimal_text_injective(w as int, v as int);
}

/// The decimal text of a 32-bit integer stands for that integer.
pub proof fn lemma_i32_text_value(v: i32)
    ensures
        i32_value(i32_text(v)) == Some(v),
{
    let text = i32_text(v);
    let digits = decimal_digits(if v < 0 { (-v) as nat } else { v as nat });
    lemma_decimal_digits_shape(if v < 0 { (-v) as nat } else { v as nat });
    assert(text.len() > 0);
    assert(text.last() == digits.last());
    assert(text.first() == if v < 0 { '-' } else { digits.first() });
    assert(!is_json_space(text.first()));
    assert(!is_json_space(text.last()));
    lemma_i32_value_is(text, v);
}

/// The text of a truth value stands for that value.
pub proof fn lemma_bool_text_value(b: bool)
    ensures
        bool_value(bool_text(b)) == Some(b),
{
    let text = bool_text(b);
    assert(text.len() > 0);
    assert(text.first() == if b { 't' } else { 'f' });
    assert(text.last() == 'e');
    assert(bool_text(true).len() != bool_text(false).len());
}

} // verus!
