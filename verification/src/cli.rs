//! Command-line argument validation.
//!
//! The program expects exactly two positional arguments after the program
//! name: the round count and the string length, both non-zero positive
//! decimal integers. A numeral here is what `str::parse` accepts for an
//! unsigned integer type: an optional leading `+` followed by one or more
//! decimal digits, whose value fits the target type.

use vstd::prelude::*;

verus! {

/// Whether a character is a decimal digit `0`..`9`.
pub open spec fn is_decimal_digit(c: char) -> bool {
    '0' as u32 <= c as u32 && c as u32 <= '9' as u32
}

/// Numeric value of a decimal digit.
pub open spec fn digit_value(c: char) -> int {
    c as u32 - '0' as u32
}

/// Value of a digit string read most-significant first; 0 for the empty
/// string.
pub open spec fn digits_value(s: Seq<char>) -> int
    decreases s.len(),
{
    if s.len() == 0 {
        0
    } else {
        digits_value(s.drop_last()) * 10 + digit_value(s.last())
    }
}

/// The digit part of a numeral: everything after an optional leading `+`.
pub open spec fn numeral_body(s: Seq<char>) -> Seq<char> {
    if s.len() > 0 && s[0] == '+' {
        s.subrange(1, s.len() as int)
    } else {
        s
    }
}

/// A numeral is an optional leading `+` followed by one or more decimal
/// digits.
pub open spec fn is_valid_numeral(s: Seq<char>) -> bool {
    numeral_body(s).len() > 0 && (forall|i: int|
        0 <= i < numeral_body(s).len() ==> is_decimal_digit(numeral_body(s)[i]))
}

/// Value of a numeral: the value of its digit part.
pub open spec fn numeral_value(s: Seq<char>) -> int {
    digits_value(numeral_body(s))
}

/// A digit string has a non-negative value.
pub proof fn lemma_digits_value_nonneg(s: Seq<char>)
    requires
        forall|i: int| 0 <= i < s.len() ==> is_decimal_digit(s[i]),
    ensures
        digits_value(s) >= 0,
    decreases s.len(),
{
    if s.len() > 0 {
        lemma_digits_value_nonneg(s.drop_last());
    }
}

/// Extending a digit prefix by one digit multiplies its value by ten and
/// adds the digit.
pub proof fn lemma_digits_value_snoc(s: Seq<char>, k: int)
    requires
        0 <= k < s.len(),
    ensures
        digits_value(s.subrange(0, k + 1)) == digits_value(s.subrange(0, k)) * 10 + digit_value(
            s[k],
        ),
{
    let t = s.subrange(0, k + 1);
    assert(t.drop_last() =~= s.subrange(0, k));
    assert(t.last() == s[k]);
}

/// The value of a digit string never falls when more digits follow.
pub proof fn lemma_digits_value_prefix_le(s: Seq<char>, i: int, j: int)
    requires
        forall|k: int| 0 <= k < s.len() ==> is_decimal_digit(s[k]),
        0 <= i <= j <= s.len(),
    ensures
        digits_value(s.subrange(0, i)) <= digits_value(s.subrange(0, j)),
    decreases j - i,
{
    if i < j {
        lemma_digits_value_prefix_le(s, i, j - 1);
        lemma_digits_value_snoc(s, j - 1);
        assert(forall|k: int|
            0 <= k < s.subrange(0, j - 1).len() ==> is_decimal_digit(
                #[trigger] s.subrange(0, j - 1)[k],
            ));
        lemma_digits_value_nonneg(s.subrange(0, j - 1));
    }
}

/// Parse a numeral whose value fits in `usize`. Returns the value exactly
/// when the string is a valid numeral and its value is representable;
/// returns nothing otherwise.
pub fn parse_usize(s: &str) -> (r: Option<usize>)
    ensures
        match r {
            Some(v) => is_valid_numeral(s@) && numeral_value(s@) <= usize::MAX && v
                == numeral_value(s@),
            None => !(is_valid_numeral(s@) && numeral_value(s@) <= usize::MAX),
        },
{
    let len = s.unicode_len();
    let mut start: usize = 0;
    if len > 0 {
        let c0 = s.get_char(0);
        if c0 == '+' {
            start = 1;
        }
    }
    if start >= len {
        return None;
    }
    let ghost body = numeral_body(s@);
    proof {
        assert(body =~= s@.subrange(start as int, len as int));
    }
    let mut acc: usize = 0;
    let mut i = start;
    while i < len
        invariant
            start <= i <= len,
            len == s@.len(),
            start < len,
            body == numeral_body(s@),
            body =~= s@.subrange(start as int, len as int),
            forall|j: int| 0 <= j < i - start ==> is_decimal_digit(body[j]),
            acc == digits_value(body.subrange(0, i - start)),
        decreases len - i,
    {
        let ghost k = i - start;
        let c = s.get_char(i);
        proof {
            assert(body[k] == s@[i as int]);
        }
        let u = c as u32;
        if u < '0' as u32 || u > '9' as u32 {
            proof {
                assert(!is_decimal_digit(body[k]));
            }
            return None;
        }
        let d = u - '0' as u32;
        let wide: u128 = acc as u128 * 10 + d as u128;
        proof {
            lemma_digits_value_snoc(body, k);
        }
        if wide > usize::MAX as u128 {
            proof {
                if is_valid_numeral(s@) {
                    lemma_digits_value_prefix_le(body, k + 1, body.len() as int);
                    assert(body.subrange(0, body.len() as int) =~= body);
                }
            }
            return None;
        }
        acc = wide as usize;
        i = i + 1;
    }
    proof {
        assert(body.subrange(0, body.len() as int) =~= body);
    }
    Some(acc)
}

/// Parse a numeral whose value fits in `u32`.
pub fn parse_u32(s: &str) -> (r: Option<u32>)
    ensures
        match r {
            Some(v) => is_valid_numeral(s@) && numeral_value(s@) <= u32::MAX && v == numeral_value(
                s@,
            ),
            None => !(is_valid_numeral(s@) && numeral_value(s@) <= u32::MAX),
        },
{
    match parse_usize(s) {
        Some(v) => if v <= u32::MAX as usize {
            Some(v as u32)
        } else {
            None
        },
        None => None,
    }
}

/// Why an invocation was rejected.
#[derive(Clone, Copy, Debug, PartialEq, Eq, Structural)]
pub enum CliError {
    /// The argument count is not exactly two positional arguments after
    /// the program name.
    WrongArgCount,
    /// The round count is missing, non-numeric, zero, or negative.
    InvalidRounds,
    /// The string length is missing, non-numeric, zero, or negative.
    InvalidLength,
}

/// An acceptable round-count argument: a numeral with a non-zero value
/// that fits in `u32`.
pub open spec fn valid_rounds_arg(s: Seq<char>) -> bool {
    is_valid_numeral(s) && 1 <= numeral_value(s) <= u32::MAX
}

/// An acceptable string-length argument: a numeral with a non-zero value
/// that fits in `usize`.
pub open spec fn valid_length_arg(s: Seq<char>) -> bool {
    is_valid_numeral(s) && 1 <= numeral_value(s) <= usize::MAX
}

/// Validate a full argument vector (program name included). Returns the
/// round count and string length exactly when the vector holds three
/// entries whose second and third are acceptable numerals; otherwise
/// reports the first failing check.
pub fn validate_args(args: &Vec<String>) -> (r: Result<(u32, usize), CliError>)
    ensures
        match r {
            Ok(p) => args@.len() == 3 && valid_rounds_arg(args@[1]@) && valid_length_arg(args@[2]@)
                && p.0 == numeral_value(args@[1]@) && p.1 == numeral_value(args@[2]@),
            Err(e) => match e {
                CliError::WrongArgCount => args@.len() != 3,
                CliError::InvalidRounds => args@.len() == 3 && !valid_rounds_arg(args@[1]@),
                CliError::InvalidLength => args@.len() == 3 && valid_rounds_arg(args@[1]@)
                    && !valid_length_arg(args@[2]@),
            },
        },
{
    if args.len() != 3 {
        return Err(CliError::WrongArgCount);
    }
    let rounds = match parse_u32(args[1].as_str()) {
        Some(v) => v,
        None => 0,
    };
    if rounds == 0 {
        return Err(CliError::InvalidRounds);
    }
    let string_len = match parse_usize(args[2].as_str()) {
        Some(v) => v,
        None => 0,
    };
    if string_len == 0 {
        return Err(CliError::InvalidLength);
    }
    Ok((rounds, string_len))
}

} // verus!
