//! Text helpers: decimal numbers, trimming and character classes.

use vstd::prelude::*;
use vstd::string::*;

verus! {

/// Copy of a string.
pub fn clone_string(s: &String) -> (out: String)
    ensures
        out@ == s@,
{
    s.clone()
}

/// Copy of an optional string.
pub fn clone_opt_string(s: &Option<String>) -> (out: Option<String>)
    ensures
        out is Some == s is Some,
        s is Some ==> out->Some_0@ == s->Some_0@,
{
    match s {
        Some(text) => Some(text.clone()),
        None => None,
    }
}

/// View of an optional string.
pub open spec fn opt_string_view(s: Option<String>) -> Option<Seq<char>> {
    match s {
        Some(text) => Some(text@),
        None => None,
    }
}

/// The value `new` where it is given, `old` otherwise.
pub open spec fn or_keep<T>(new: Option<T>, old: T) -> T {
    match new {
        Some(value) => value,
        None => old,
    }
}

/// Whether `c` is one of the ten ASCII digits.
pub open spec fn is_digit(c: char) -> bool {
    '0' <= c <= '9'
}

/// Value of an ASCII digit.
pub open spec fn digit_value(c: char) -> int {
    c as int - '0' as int
}

/// Value of a run of ASCII digits read as a decimal number; the empty run
/// has value 0.
pub open spec fn decimal_value(digits: Seq<char>) -> int
    decreases digits.len(),
{
    if digits.len() == 0 {
        0
    } else {
        decimal_value(digits.drop_last()) * 10 + digit_value(digits.last())
    }
}

/// The digits of a number written with an optional leading `+`.
pub open spec fn unsigned_digits(text: Seq<char>) -> Seq<char> {
    if text.len() > 0 && text[0] == '+' {
        text.subrange(1, text.len() as int)
    } else {
        text
    }
}

/// Whether `text` is an unsigned decimal number: an optional `+`, then one
/// ASCII digit or more.
pub open spec fn is_unsigned_decimal(text: Seq<char>) -> bool {
    let digits = unsigned_digits(text);
    digits.len() > 0 && forall|i: int| 0 <= i < digits.len() ==> is_digit(#[trigger] digits[i])
}

/// The number that `text` stands for, if it is an unsigned decimal number of
/// at most 64 bits.
pub open spec fn spec_parse_u64(text: Seq<char>) -> Option<u64> {
    if is_unsigned_decimal(text) && decimal_value(unsigned_digits(text)) <= u64::MAX {
        Some(decimal_value(unsigned_digits(text)) as u64)
    } else {
        None
    }
}

/// The value of a run of digits does not shrink when a digit is added.
pub proof fn lemma_decimal_value_grows(digits: Seq<char>, n: int)
    requires
        0 <= n <= digits.len(),
        forall|i: int| 0 <= i < digits.len() ==> is_digit(#[trigger] digits[i]),
    ensures
        0 <= decimal_value(digits.subrange(0, n)) <= decimal_value(digits),
    decreases digits.len() - n,
{
    if n == digits.len() {
        assert(digits.subrange(0, n) =~= digits);
        lemma_decimal_value_nonnegative(digits);
    } else {
        lemma_decimal_value_grows(digits, n + 1);
        let longer = digits.subrange(0, n + 1);
        assert(longer.drop_last() =~= digits.subrange(0, n));
        assert(is_digit(digits[n]));
        assert(longer.last() == digits[n]);
        lemma_decimal_value_nonnegative(digits.subrange(0, n));
    }
}

/// The value of a run of digits is not negative.
pub proof fn lemma_decimal_value_nonnegative(digits: Seq<char>)
    requires
        forall|i: int| 0 <= i < digits.len() ==> is_digit(#[trigger] digits[i]),
    ensures
        0 <= decimal_value(digits),
    decreases digits.len(),
{
    if digits.len() > 0 {
        lemma_decimal_value_nonnegative(digits.drop_last());
        assert(is_digit(digits[digits.len() - 1]));
    }
}

/// Reads an unsigned decimal number of at most 64 bits.
pub fn parse_u64(text: &str) -> (out: Option<u64>)
    ensures
        out == spec_parse_u64(text@),
{
    let len = text.unicode_len();
    let start: usize = if len > 0 && text.get_char(0) == '+' {
        1
    } else {
        0
    };
    if start >= len {
        return None;
    }
    let ghost digits = unsigned_digits(text@);
    assert(digits.len() == len - start);
    let mut value: u64 = 0;
    let mut i: usize = start;
    while i < len
        invariant
            start <= i <= len,
            len == text@.len(),
            digits == unsigned_digits(text@),
            digits.len() == len - start,
            forall|k: int| 0 <= k < digits.len() ==> digits[k] == text@[k + start],
            forall|k: int| 0 <= k < i - start ==> is_digit(#[trigger] digits[k]),
            value == decimal_value(digits.subrange(0, i - start)),
        decreases len - i,
    {
        let c = text.get_char(i);
        if !(c >= '0' && c <= '9') {
            assert(!is_digit(digits[i - start]));
            return None;
        }
        let d: u64 = (c as u32 - '0' as u32) as u64;
        proof {
            let longer = digits.subrange(0, i - start + 1);
            assert(longer.drop_last() =~= digits.subrange(0, i - start));
            assert(longer.last() == c);
            if value * 10 + d > u64::MAX {
                if forall|k: int| 0 <= k < digits.len() ==> is_digit(#[trigger] digits[k]) {
                    lemma_decimal_value_grows(digits, i - start + 1);
                }
            }
        }
        let next = match value.checked_mul(10) {
            Some(scaled) => scaled.checked_add(d),
            None => None,
        };
        match next {
            Some(next) => {
                value = next;
            },
            None => {
                return None;
            },
        }
        i += 1;
    }
    assert(digits.subrange(0, len - start) =~= digits);
    Some(value)
}

/// Whether `c` is white space: a character with the Unicode property
/// `White_Space`.
pub open spec fn is_whitespace(c: char) -> bool {
    let u = c as u32;
    (0x09 <= u <= 0x0D) || u == 0x20 || u == 0x85 || u == 0xA0 || u == 0x1680 || (0x2000 <= u
        <= 0x200A) || u == 0x2028 || u == 0x2029 || u == 0x202F || u == 0x205F || u == 0x3000
}

/// See [`is_whitespace`].
pub fn char_is_whitespace(c: char) -> (out: bool)
    ensures
        out == is_whitespace(c),
{
    let u: u32 = c as u32;
    (0x09 <= u && u <= 0x0D) || u == 0x20 || u == 0x85 || u == 0xA0 || u == 0x1680 || (0x2000 <= u
        && u <= 0x200A) || u == 0x2028 || u == 0x2029 || u == 0x202F || u == 0x205F || u == 0x3000
}

/// `text` without its leading white space.
pub open spec fn trim_start(text: Seq<char>) -> Seq<char>
    decreases text.len(),
{
    if text.len() > 0 && is_whitespace(text[0]) {
        trim_start(text.subrange(1, text.len() as int))
    } else {
        text
    }
}

/// `text` without its trailing white space.
pub open spec fn trim_end(text: Seq<char>) -> Seq<char>
    decreases text.len(),
{
    if text.len() > 0 && is_whitespace(text.last()) {
        trim_end(text.drop_last())
    } else {
        text
    }
}

/// `text` without its leading and trailing white space.
pub open spec fn spec_trim(text: Seq<char>) -> Seq<char> {
    trim_end(trim_start(text))
}

/// An input without the white space around it.
pub fn sanitize_input(input: &str) -> (out: String)
    ensures
        out@ == spec_trim(input@),
{
    let len = input.unicode_len();
    let mut start: usize = 0;
    assert(input@.subrange(0, len as int) =~= input@);
    while start < len && char_is_whitespace(input.get_char(start))
        invariant
            start <= len,
            len == input@.len(),
            trim_start(input@) == trim_start(input@.subrange(start as int, len as int)),
        decreases len - start,
    {
        proof {
            let rest = input@.subrange(start as int, len as int);
            assert(rest[0] == input@[start as int]);
            assert(rest.subrange(1, rest.len() as int) =~= input@.subrange(
                start as int + 1,
                len as int,
            ));
        }
        start += 1;
    }
    let ghost front = input@.subrange(start as int, len as int);
    assert(trim_start(input@) == front) by {
        if start < len {
            assert(front[0] == input@[start as int]);
        }
    }
    let mut end: usize = len;
    while end > start && char_is_whitespace(input.get_char(end - 1))
        invariant
            start <= end <= len,
            len == input@.len(),
            trim_end(front) == trim_end(input@.subrange(start as int, end as int)),
            front == input@.subrange(start as int, len as int),
        decreases end,
    {
        proof {
            let rest = input@.subrange(start as int, end as int);
            assert(rest.last() == input@[end - 1]);
            assert(rest.drop_last() =~= input@.subrange(start as int, end - 1));
        }
        end -= 1;
    }
    assert(trim_end(front) == input@.subrange(start as int, end as int)) by {
        let kept = input@.subrange(start as int, end as int);
        if end > start {
            assert(kept.last() == input@[end - 1]);
        }
    }
    input.substring_char(start, end).to_owned()
}

/// Whether `c` is a letter or a number, by the Unicode properties
/// `Alphabetic` and the general categories `Nd`, `Nl` and `No`.
pub uninterp spec fn is_alphanumeric_char(c: char) -> bool;

/// Calls `char::is_alphanumeric`. The result is trusted to be that of
/// [`is_alphanumeric_char`], which stands for the tables of the Unicode
/// standard.
#[verifier::external_body]
fn char_is_alphanumeric(c: char) -> (out: bool)
    ensures
        out == is_alphanumeric_char(c),
{
    c.is_alphanumeric()
}

/// Whether every character of `input` is a letter or a number.
pub fn is_alphanumeric(input: &str) -> (out: bool)
    ensures
        out == forall|i: int| 0 <= i < input@.len() ==> is_alphanumeric_char(#[trigger] input@[i]),
{
    let len = input.unicode_len();
    let mut i: usize = 0;
    while i < len
        invariant
            i <= len,
            len == input@.len(),
            forall|k: int| 0 <= k < i ==> is_alphanumeric_char(#[trigger] input@[k]),
        decreases len - i,
    {
        if !char_is_alphanumeric(input.get_char(i)) {
            return false;
        }
        i += 1;
    }
    true
}

/// Whether `text` begins with `prefix`.
pub open spec fn spec_starts_with(text: Seq<char>, prefix: Seq<char>) -> bool {
    prefix.len() <= text.len() && text.subrange(0, prefix.len() as int) == prefix
}

/// Whether `text` begins with `prefix`.
pub fn starts_with(text: &str, prefix: &str) -> (out: bool)
    ensures
        out == spec_starts_with(text@, prefix@),
{
    let text_len = text.unicode_len();
    let prefix_len = prefix.unicode_len();
    if prefix_len > text_len {
        return false;
    }
    let mut i: usize = 0;
    while i < prefix_len
        invariant
            i <= prefix_len <= text_len,
            text_len == text@.len(),
            prefix_len == prefix@.len(),
            forall|k: int| 0 <= k < i ==> text@[k] == prefix@[k],
        decreases prefix_len - i,
    {
        if text.get_char(i) != prefix.get_char(i) {
            assert(text@.subrange(0, prefix_len as int)[i as int] != prefix@[i as int]);
            return false;
        }
        i += 1;
    }
    assert(text@.subrange(0, prefix_len as int) =~= prefix@);
    true
}

/// Whether `text` matches the regular expression `pattern`, where `pattern`
/// is one.
pub uninterp spec fn regex_is_match(pattern: Seq<char>, text: Seq<char>) -> Option<bool>;

/// Calls `regex::Regex::new` and, on the expression it gives,
/// `regex::Regex::is_match`. The result is trusted to be that of
/// [`regex_is_match`], which stands for the crate's matching; `None` comes
/// back for a pattern that the crate refuses.
#[verifier::external_body]
fn regex_match(pattern: &str, text: &str) -> (out: Option<bool>)
    ensures
        out == regex_is_match(pattern@, text@),
{
    match regex::Regex::new(pattern) {
        Ok(expression) => Some(expression.is_match(text)),
        Err(_) => None,
    }
}

/// The form of an address for mail: a local part of letters, digits and
/// some signs, an `@`, and labels of letters, digits and hyphens, each of at
/// most 63 characters and none with a hyphen at an end, joined by dots.
pub open spec fn email_pattern() -> Seq<char> {
    r"^[a-zA-Z0-9.!#$%&'*+/=?^_`{|}~-]+@[a-zA-Z0-9](?:[a-zA-Z0-9-]{0,61}[a-zA-Z0-9])?(?:\.[a-zA-Z0-9](?:[a-zA-Z0-9-]{0,61}[a-zA-Z0-9])?)*$"@
}

/// Whether `email` has the form of an address for mail.
pub fn is_valid_email(email: &str) -> (out: bool)
    ensures
        out == (regex_is_match(email_pattern(), email@) == Some(true)),
{
    match regex_match(
        r"^[a-zA-Z0-9.!#$%&'*+/=?^_`{|}~-]+@[a-zA-Z0-9](?:[a-zA-Z0-9-]{0,61}[a-zA-Z0-9])?(?:\.[a-zA-Z0-9](?:[a-zA-Z0-9-]{0,61}[a-zA-Z0-9])?)*$",
        email,
    ) {
        Some(matched) => matched,
        None => false,
    }
}

/// Calls `rand::Rng::gen_range` on the thread's generator. Whatever comes
/// back lies below `bound`; nothing else is known of it.
#[verifier::external_body]
fn random_below(bound: usize) -> (out: usize)
    requires
        bound > 0,
    ensures
        out < bound,
{
    rand::Rng::gen_range(&mut rand::thread_rng(), 0..bound)
}

/// Calls `String::from_iter` on the characters.
#[verifier::external_body]
fn string_of_chars(chars: &Vec<char>) -> (out: String)
    ensures
        out@ == chars@,
{
    chars.iter().collect()
}

/// The characters that random strings are drawn from: the letters, the
/// digits and eleven signs.
pub open spec fn random_charset() -> Seq<char> {
    "ABCDEFGHIJKLMNOPQRSTUVWXYZabcdefghijklmnopqrstuvwxyz0123456789)(*&^%$#@!~"@
}

/// A string of `length` characters, each drawn at random from
/// [`random_charset`].
pub fn generate_random_string(length: usize) -> (out: String)
    ensures
        out@.len() == length,
        forall|i: int| 0 <= i < length ==> random_charset().contains(#[trigger] out@[i]),
{
    let charset = "ABCDEFGHIJKLMNOPQRSTUVWXYZabcdefghijklmnopqrstuvwxyz0123456789)(*&^%$#@!~";
    proof {
        reveal_strlit("ABCDEFGHIJKLMNOPQRSTUVWXYZabcdefghijklmnopqrstuvwxyz0123456789)(*&^%$#@!~");
    }
    let size = charset.unicode_len();
    let mut chars: Vec<char> = Vec::new();
    let mut i: usize = 0;
    while i < length
        invariant
            i <= length,
            chars.len() == i,
            size == charset@.len(),
            size > 0,
            charset@ == random_charset(),
            forall|k: int| 0 <= k < i ==> random_charset().contains(#[trigger] chars@[k]),
        decreases length - i,
    {
        let idx = random_below(size);
        let c = charset.get_char(idx);
        assert(random_charset()[idx as int] == c);
        chars.push(c);
        i += 1;
    }
    string_of_chars(&chars)
}

} // verus!
