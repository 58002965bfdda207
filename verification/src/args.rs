//! Typed extraction of command arguments: the next token as text or as a
//! signed 64-bit integer in base 10.

use vstd::prelude::*;
use vstd::std_specs::iter::IteratorSpec;
use vstd::string::StringExecFns;
use crate::value::{ErrorView, RedisError};

verus! {

/// Whether `c` is one of the ten ASCII digits.
pub open spec fn is_digit(c: char) -> bool {
    '0' <= c <= '9'
}

/// The number that the digit `c` stands for.
pub open spec fn digit_value(c: char) -> int {
    c as int - '0' as int
}

/// Whether `s` consists of ASCII digits only.
pub open spec fn all_digits(s: Seq<char>) -> bool {
    forall|i: int| 0 <= i < s.len() ==> is_digit(#[trigger] s[i])
}

/// The number that `s` denotes in base 10, most significant digit first.
pub open spec fn decimal_value(s: Seq<char>) -> int
    decreases s.len(),
{
    if s.len() == 0 {
        0
    } else {
        10 * decimal_value(s.drop_last()) + digit_value(s.last())
    }
}

/// Whether `s` starts with a plus or minus sign.
pub open spec fn has_sign(s: Seq<char>) -> bool {
    s.len() > 0 && (s[0] == '+' || s[0] == '-')
}

/// What is left of `s` without its sign, if it has one.
pub open spec fn digits_of(s: Seq<char>) -> Seq<char> {
    if has_sign(s) {
        s.subrange(1, s.len() as int)
    } else {
        s
    }
}

/// The number that `s` denotes: an optional sign, then digits.
pub open spec fn signed_value(s: Seq<char>) -> int {
    if s.len() > 0 && s[0] == '-' {
        -decimal_value(digits_of(s))
    } else {
        decimal_value(digits_of(s))
    }
}

/// The signed 64-bit integer that `s` denotes in base 10, if it denotes one:
/// an optional `+` or `-`, then at least one ASCII digit and nothing else, the
/// whole within the range of `i64`. Leading zeros are allowed; blanks,
/// separators and an empty text are not.
pub open spec fn spec_parse_i64(s: Seq<char>) -> Option<i64> {
    if digits_of(s).len() > 0 && all_digits(digits_of(s)) && i64::MIN <= signed_value(s)
        <= i64::MAX {
        Some(signed_value(s) as i64)
    } else {
        None
    }
}

/// A number in digits is at least the number that any of its beginnings denotes.
pub proof fn lemma_decimal_value_prefix(s: Seq<char>, k: int)
    requires
        all_digits(s),
        0 <= k <= s.len(),
    ensures
        0 <= decimal_value(s.subrange(0, k)) <= decimal_value(s),
    decreases s.len() - k,
{
    if k == s.len() {
        assert(s.subrange(0, k) == s);
        lemma_decimal_value_nonnegative(s);
    } else {
        lemma_decimal_value_prefix(s, k + 1);
        let longer = s.subrange(0, k + 1);
        assert(longer.drop_last() == s.subrange(0, k));
        assert(is_digit(s[k]));
        assert(longer.last() == s[k]);
        lemma_decimal_value_nonnegative(s.subrange(0, k));
    }
}

/// Digits never denote a negative number.
pub proof fn lemma_decimal_value_nonnegative(s: Seq<char>)
    requires
        all_digits(s),
    ensures
        0 <= decimal_value(s),
    decreases s.len(),
{
    if s.len() > 0 {
        assert(is_digit(s[s.len() - 1]));
        lemma_decimal_value_nonnegative(s.drop_last());
    }
}

/// Reads `s` as a signed 64-bit integer in base 10.
pub fn parse_i64(s: &str) -> (res: Option<i64>)
    ensures
        res == spec_parse_i64(s@),
{
    let mut chars = s.chars();
    let first = match chars.next() {
        Some(c) => c,
        None => {
            return None;
        },
    };
    let negative = first == '-';
    let signed = negative || first == '+';
    let ghost digits = digits_of(s@);
    let mut acc: i64 = 0;
    let mut any = false;
    let ghost mut done: int = 0;
    if !signed {
        if !(first >= '0' && first <= '9') {
            assert(!is_digit(digits[0]));
            return None;
        }
        acc = (first as u32 - '0' as u32) as i64;
        any = true;
        proof {
            done = 1;
            assert(digits.subrange(0, 1).drop_last() =~= Seq::<char>::empty());
            assert(decimal_value(digits.subrange(0, 1)) == digit_value(first)) by {
                reveal_with_fuel(decimal_value, 2);
            }
            assert(chars.remaining() =~= digits.subrange(1, digits.len() as int));
        }
    } else {
        proof {
            assert(chars.remaining() =~= digits.subrange(0, digits.len() as int));
        }
    }
    loop
        invariant
            digits == digits_of(s@),
            negative == (s@.len() > 0 && s@[0] == '-'),
            0 <= done <= digits.len(),
            any == (done > 0),
            chars.remaining() == digits.subrange(done, digits.len() as int),
            all_digits(digits.subrange(0, done)),
            acc == if negative {
                -decimal_value(digits.subrange(0, done))
            } else {
                decimal_value(digits.subrange(0, done))
            },
        ensures
            done == digits.len(),
        decreases digits.len() - done,
    {
        let c = match chars.next() {
            Some(c) => c,
            None => {
                assert(digits.subrange(done, digits.len() as int).len() == 0);
                break ;
            },
        };
        assert(c == digits[done]);
        if !(c >= '0' && c <= '9') {
            assert(!is_digit(digits[done]));
            return None;
        }
        let d: i128 = (c as u32 - '0' as u32) as i128;
        let wide: i128 = if negative {
            (acc as i128) * 10 - d
        } else {
            (acc as i128) * 10 + d
        };
        proof {
            let longer = digits.subrange(0, done + 1);
            assert(longer.drop_last() =~= digits.subrange(0, done));
            assert(longer.last() == c);
            assert(all_digits(longer)) by {
                assert forall|i: int| 0 <= i < longer.len() implies is_digit(
                    #[trigger] longer[i],
                ) by {
                    if i < done {
                        assert(longer[i] == digits.subrange(0, done)[i]);
                    }
                }
            }
            assert(wide == if negative {
                -decimal_value(longer)
            } else {
                decimal_value(longer)
            });
            assert(chars.remaining() =~= digits.subrange(done + 1, digits.len() as int));
        }
        if wide < i64::MIN as i128 || wide > i64::MAX as i128 {
            proof {
                if all_digits(digits) {
                    lemma_decimal_value_prefix(digits, done + 1);
                }
            }
            return None;
        }
        acc = wide as i64;
        any = true;
        proof {
            done = done + 1;
        }
    }
    proof {
        assert(done == digits.len());
        assert(digits.subrange(0, done) =~= digits);
    }
    if any {
        Some(acc)
    } else {
        None
    }
}

/// The message for a token that is no signed 64-bit integer in base 10: a
/// fixed prefix, then the token as it was given.
pub open spec fn parse_failure(token: Seq<char>) -> ErrorView {
    ErrorView::String("Couldn't parse as integer: "@ + token)
}

/// Reads `arg` as a signed 64-bit integer in base 10, or reports the token
/// that could not be read.
pub fn parse_integer(arg: String) -> (res: Result<i64, RedisError>)
    ensures
        match spec_parse_i64(arg@) {
            Some(value) => res matches Ok(v) && v == value,
            None => res matches Err(e) && e@ == parse_failure(arg@),
        },
{
    match parse_i64(arg.as_str()) {
        Some(value) => Ok(value),
        None => {
            let mut message = String::from_str("Couldn't parse as integer: ");
            message.append(arg.as_str());
            Err(RedisError::String(message))
        },
    }
}

/// What taking one token off the front of `tokens` as text gives.
pub open spec fn spec_next_string(tokens: Seq<String>) -> Result<String, ErrorView> {
    if tokens.len() == 0 {
        Err(ErrorView::WrongArity)
    } else {
        Ok(tokens[0])
    }
}

/// What taking one token off the front of `tokens` as an integer gives.
pub open spec fn spec_next_i64(tokens: Seq<String>) -> Result<i64, ErrorView> {
    if tokens.len() == 0 {
        Err(ErrorView::WrongArity)
    } else {
        match spec_parse_i64(tokens[0]@) {
            Some(value) => Ok(value),
            None => Err(parse_failure(tokens[0]@)),
        }
    }
}

/// What is left of `tokens` once one has been taken, if there was one.
pub open spec fn spec_rest(tokens: Seq<String>) -> Seq<String> {
    if tokens.len() == 0 {
        tokens
    } else {
        tokens.drop_first()
    }
}

/// Whether `text` ends with `tail`, letter for letter.
pub open spec fn ends_with(text: Seq<char>, tail: Seq<char>) -> bool {
    text.len() >= tail.len() && text.subrange(text.len() - tail.len(), text.len() as int) == tail
}

/// With no token left, text and integer extraction both fail for want of an
/// argument, and for no other reason.
pub proof fn lemma_exhausted_is_wrong_arity(tokens: Seq<String>)
    requires
        tokens.len() == 0,
    ensures
        spec_next_string(tokens) == Err::<String, ErrorView>(ErrorView::WrongArity),
        spec_next_i64(tokens) == Err::<i64, ErrorView>(ErrorView::WrongArity),
{
}

/// With a token left, integer extraction succeeds exactly when the token
/// denotes a signed 64-bit integer in base 10, and then with that integer;
/// when it fails, the message ends with the token, letter for letter.
pub proof fn lemma_next_i64_follows_token(tokens: Seq<String>)
    requires
        tokens.len() > 0,
    ensures
        spec_next_i64(tokens) is Ok <==> spec_parse_i64(tokens[0]@) is Some,
        spec_next_i64(tokens) matches Ok(value) ==> spec_parse_i64(tokens[0]@) == Some(value),
        spec_next_i64(tokens) matches Err(error) ==> error matches ErrorView::String(message)
            && ends_with(message, tokens[0]@),
{
    let token = tokens[0]@;
    let message = "Couldn't parse as integer: "@ + token;
    assert(message.subrange(message.len() - token.len(), message.len() as int) =~= token);
}

/// Typed access to the next argument of a command.
pub trait NextArg: Iterator<Item = String> {
    /// Takes the next token as text.
    fn next_string(&mut self) -> (res: Result<String, RedisError>)
        ensures
            <Self as IteratorSpec>::obeys_prophetic_iter_laws(old(self)) ==> {
                &&& <Self as IteratorSpec>::remaining(final(self)) == spec_rest(
                    <Self as IteratorSpec>::remaining(old(self)),
                )
                &&& match spec_next_string(<Self as IteratorSpec>::remaining(old(self))) {
                    Ok(token) => res matches Ok(s) && s == token,
                    Err(error) => res matches Err(e) && e@ == error,
                }
            },
    ;

    /// Takes the next token as a signed 64-bit integer in base 10.
    fn next_i64(&mut self) -> (res: Result<i64, RedisError>)
        ensures
            <Self as IteratorSpec>::obeys_prophetic_iter_laws(old(self)) ==> {
                &&& <Self as IteratorSpec>::remaining(final(self)) == spec_rest(
                    <Self as IteratorSpec>::remaining(old(self)),
                )
                &&& match spec_next_i64(<Self as IteratorSpec>::remaining(old(self))) {
                    Ok(value) => res matches Ok(v) && v == value,
                    Err(error) => res matches Err(e) && e@ == error,
                }
            },
    ;
}

impl<T: Iterator<Item = String>> NextArg for T {
    fn next_string(&mut self) -> (res: Result<String, RedisError>) {
        match self.next() {
            Some(token) => Ok(token),
            None => Err(RedisError::WrongArity),
        }
    }

    fn next_i64(&mut self) -> (res: Result<i64, RedisError>) {
        match self.next() {
            Some(token) => parse_integer(token),
            None => Err(RedisError::WrongArity),
        }
    }
}

} // verus!
