//! Scripting-type glue.
//!
//! Badge parameters can be supplied from an embedded script. A documented
//! parameter type maps to a validation strategy (`RhaiType`), and a string
//! argument is validated and converted to a script value accordingly.
use vstd::prelude::*;
use vstd::string::StrSliceExecFns;
use vstd::string::StringExecFns;

use crate::color::lower_eq;
use crate::color::spec_lower;

verus! {

/// The validation strategy a documented parameter type maps to.
#[derive(Debug, PartialEq, Eq, Structural, Hash)]
pub enum RhaiType {
    Number,
    String,
    Bool,
    /// Catch-all for flexible types.
    Dynamic,
    Char,
    Unknown,
    Float,
}

/// The strategy for a type name, by its ASCII-lowercased spelling.
pub open spec fn rhai_type_of(s: Seq<char>) -> RhaiType {
    let n = spec_lower(s);
    if n == "i64"@ || n == "i32"@ || n == "int"@ || n == "integer"@ {
        RhaiType::Number
    } else if n == "f32"@ || n == "f64"@ || n == "float"@ || n == "double"@ {
        RhaiType::Float
    } else if n == "string"@ || n == "str"@ {
        RhaiType::String
    } else if n == "bool"@ || n == "boolean"@ {
        RhaiType::Bool
    } else if n == "dynamic"@ || n == "any"@ {
        RhaiType::Dynamic
    } else if n == "letter"@ || n == "char"@ {
        RhaiType::Char
    } else {
        RhaiType::Unknown
    }
}

impl From<&str> for RhaiType {
    /// Maps a documented type name, case-insensitively, to its strategy;
    /// unrecognized names map to `Unknown`.
    fn from(s: &str) -> (r: Self) {
        if lower_eq(s, "i64") || lower_eq(s, "i32") || lower_eq(s, "int") || lower_eq(
            s,
            "integer",
        ) {
            RhaiType::Number
        } else if lower_eq(s, "f32") || lower_eq(s, "f64") || lower_eq(s, "float") || lower_eq(
            s,
            "double",
        ) {
            RhaiType::Float
        } else if lower_eq(s, "string") || lower_eq(s, "str") {
            RhaiType::String
        } else if lower_eq(s, "bool") || lower_eq(s, "boolean") {
            RhaiType::Bool
        } else if lower_eq(s, "dynamic") || lower_eq(s, "any") {
            RhaiType::Dynamic
        } else if lower_eq(s, "letter") || lower_eq(s, "char") {
            RhaiType::Char
        } else {
            RhaiType::Unknown
        }
    }
}

impl vstd::std_specs::convert::FromSpecImpl<&str> for RhaiType {
    open spec fn obeys_from_spec() -> bool {
        true
    }

    open spec fn from_spec(s: &str) -> Self {
        rhai_type_of(s@)
    }
}

#[verifier::external_type_specification]
#[verifier::external_body]
pub struct ExDynamic(rhai::Dynamic);

/// Relies on `rhai::Dynamic::from_int`: wraps an integer as a script
/// value.
#[verifier::external_body]
pub(crate) fn dynamic_from_int(v: i64) -> rhai::Dynamic {
    rhai::Dynamic::from_int(v)
}

/// Relies on `rhai::Dynamic::from_bool`: wraps a boolean as a script
/// value.
#[verifier::external_body]
pub(crate) fn dynamic_from_bool(v: bool) -> rhai::Dynamic {
    rhai::Dynamic::from_bool(v)
}

/// Relies on `rhai::Dynamic::from_char`: wraps a character as a script
/// value.
#[verifier::external_body]
pub(crate) fn dynamic_from_char(v: char) -> rhai::Dynamic {
    rhai::Dynamic::from_char(v)
}

/// Relies on `rhai::Dynamic::from_str`, which never fails: wraps a string
/// as a script value.
#[verifier::external_body]
pub(crate) fn dynamic_from_text(v: &str) -> rhai::Dynamic {
    let r: Result<rhai::Dynamic, ()> = core::str::FromStr::from_str(v);
    r.unwrap()
}

/// The error text that parsing this text as a script float yields, if it
/// is not a float: the result depends on the characters alone.
pub uninterp spec fn float_error_of(s: Seq<char>) -> Option<Seq<char>>;

/// Relies on `str::parse::<rhai::FLOAT>` (and `rhai::Dynamic::from_float`):
/// accepts exactly the texts the float grammar admits, deterministically
/// in the text; the error carries the parse failure's description.
#[verifier::external_body]
pub(crate) fn parse_float_dynamic(s: &str) -> (r: Result<rhai::Dynamic, String>)
    ensures
        match r {
            Result::Ok(_) => float_error_of(s@) is None,
            Result::Err(e) => float_error_of(s@) == Option::Some(e@),
        },
{
    match s.parse::<rhai::FLOAT>() {
        Ok(v) => Ok(rhai::Dynamic::from_float(v)),
        Err(e) => Err(e.to_string()),
    }
}

/// A decimal digit.
pub open spec fn is_digit(c: char) -> bool {
    48 <= c as int <= 57
}

/// The value of a decimal digit.
pub open spec fn digit_val(c: char) -> int {
    c as int - 48
}

/// How parsing an integer can fail.
#[derive(Clone, Copy, PartialEq, Eq, Structural, Debug)]
pub enum IntParseErr {
    /// The text was empty.
    Empty,
    /// A character was not a decimal digit (or only a sign was given).
    InvalidDigit,
    /// The value grew past the largest representable integer.
    PosOverflow,
    /// The value shrank past the smallest representable integer.
    NegOverflow,
}

/// Scanning the first `n` digit characters, accumulating left to right
/// (negatively for a negative number), failing on the first non-digit or
/// the first step out of the 64-bit signed range.
pub open spec fn int_scan(digits: Seq<char>, neg: bool, n: int) -> Result<int, IntParseErr>
    decreases n,
{
    if n <= 0 {
        Result::Ok(0)
    } else {
        match int_scan(digits, neg, n - 1) {
            Result::Err(e) => Result::Err(e),
            Result::Ok(acc) => {
                let c = digits[n - 1];
                if !is_digit(c) {
                    Result::Err(IntParseErr::InvalidDigit)
                } else {
                    let v = if neg {
                        acc * 10 - digit_val(c)
                    } else {
                        acc * 10 + digit_val(c)
                    };
                    if v > i64::MAX {
                        Result::Err(IntParseErr::PosOverflow)
                    } else if v < i64::MIN {
                        Result::Err(IntParseErr::NegOverflow)
                    } else {
                        Result::Ok(v)
                    }
                }
            },
        }
    }
}

/// What parsing a text as a 64-bit signed integer yields: an optional
/// sign, then one or more decimal digits, within range.
pub open spec fn parse_i64_spec(s: Seq<char>) -> Result<int, IntParseErr> {
    if s.len() == 0 {
        Result::Err(IntParseErr::Empty)
    } else {
        let neg = s[0] == '-';
        let digits = if s[0] == '-' || s[0] == '+' {
            s.skip(1)
        } else {
            s
        };
        if digits.len() == 0 {
            Result::Err(IntParseErr::InvalidDigit)
        } else {
            int_scan(digits, neg, digits.len() as int)
        }
    }
}

/// A failed digit scan stays failed however many digits follow.
proof fn lemma_int_scan_err(digits: Seq<char>, neg: bool, i: int, n: int)
    requires
        0 <= i <= n,
        int_scan(digits, neg, i) is Err,
    ensures
        int_scan(digits, neg, n) == int_scan(digits, neg, i),
    decreases n - i,
{
    if n > i {
        lemma_int_scan_err(digits, neg, i, n - 1);
    }
}

/// Parses a 64-bit signed integer: an optional `+` or `-` sign, then one
/// or more decimal digits; fails on an empty text, a non-digit, or a
/// value out of range, as `parse_i64_spec` says.
pub fn parse_i64(s: &str) -> (r: Result<i64, IntParseErr>)
    ensures
        match r {
            Result::Ok(v) => parse_i64_spec(s@) == Result::<int, IntParseErr>::Ok(v as int),
            Result::Err(e) => parse_i64_spec(s@) == Result::<int, IntParseErr>::Err(e),
        },
{
    let n: usize = s.unicode_len();
    if n == 0 {
        return Err(IntParseErr::Empty);
    }
    let c0 = s.get_char(0);
    let neg: bool = c0 == '-';
    let start: usize = if c0 == '-' || c0 == '+' {
        1
    } else {
        0
    };
    let ghost digits = if c0 == '-' || c0 == '+' {
        s@.skip(1)
    } else {
        s@
    };
    if n - start == 0 {
        return Err(IntParseErr::InvalidDigit);
    }
    proof {
        assert(digits.len() == n - start);
        assert(forall|j: int| 0 <= j < digits.len() ==> #[trigger] digits[j] == s@[j + start]);
    }
    let mut acc: i64 = 0;
    let mut i: usize = start;
    while i < n
        invariant
            n == s@.len(),
            n > 0,
            neg == (s@[0] == '-'),
            start == if s@[0] == '-' || s@[0] == '+' {
                1int
            } else {
                0int
            },
            digits == if s@[0] == '-' || s@[0] == '+' {
                s@.skip(1)
            } else {
                s@
            },
            start <= i <= n,
            start <= 1,
            digits.len() == n - start,
            digits.len() > 0,
            forall|j: int| 0 <= j < digits.len() ==> #[trigger] digits[j] == s@[j + start],
            int_scan(digits, neg, i - start) == Result::<int, IntParseErr>::Ok(acc as int),
        decreases n - i,
    {
        let c = s.get_char(i);
        let u: u32 = c as u32;
        proof {
            assert(digits[i - start] == c);
        }
        if u < 48 || u > 57 {
            proof {
                assert(int_scan(digits, neg, i - start + 1) == Result::<int, IntParseErr>::Err(
                    IntParseErr::InvalidDigit,
                ));
                lemma_int_scan_err(digits, neg, i - start + 1, digits.len() as int);
            }
            return Err(IntParseErr::InvalidDigit);
        }
        let d: i64 = (u - 48) as i64;
        let t: i128 = if neg {
            acc as i128 * 10 - d as i128
        } else {
            acc as i128 * 10 + d as i128
        };
        if t > i64::MAX as i128 {
            proof {
                assert(int_scan(digits, neg, i - start + 1) == Result::<int, IntParseErr>::Err(
                    IntParseErr::PosOverflow,
                ));
                lemma_int_scan_err(digits, neg, i - start + 1, digits.len() as int);
            }
            return Err(IntParseErr::PosOverflow);
        }
        if t < i64::MIN as i128 {
            proof {
                assert(int_scan(digits, neg, i - start + 1) == Result::<int, IntParseErr>::Err(
                    IntParseErr::NegOverflow,
                ));
                lemma_int_scan_err(digits, neg, i - start + 1, digits.len() as int);
            }
            return Err(IntParseErr::NegOverflow);
        }
        acc = t as i64;
        i = i + 1;
    }
    Ok(acc)
}

/// The description of an integer parse failure.
pub open spec fn int_err_text(e: IntParseErr) -> Seq<char> {
    match e {
        IntParseErr::Empty => "cannot parse integer from empty string"@,
        IntParseErr::InvalidDigit => "invalid digit found in string"@,
        IntParseErr::PosOverflow => "number too large to fit in target type"@,
        IntParseErr::NegOverflow => "number too small to fit in target type"@,
    }
}

/// The description of a character parse failure.
pub open spec fn char_err_text(value: Seq<char>) -> Seq<char> {
    if value.len() == 0 {
        "cannot parse char from empty string"@
    } else {
        "too many characters in string"@
    }
}

/// The failure message, if any, that validating `value` as an argument
/// named `name` of strategy `t` yields. `String`, `Dynamic` and `Unknown`
/// accept anything; `Bool` accepts exactly `true` and `false`, case
/// insensitively; `Char` accepts exactly one character; `Number` and
/// `Float` follow their numeric grammars.
pub open spec fn spec_parse_arg(name: Seq<char>, value: Seq<char>, t: RhaiType) -> Option<
    Seq<char>,
> {
    match t {
        RhaiType::Number => match parse_i64_spec(value) {
            Result::Ok(v) => Option::None,
            Result::Err(k) => Option::Some(
                "Invalid value for argument '"@ + name + "': '"@ + value
                    + "' is not an integer. ("@ + int_err_text(k) + ")"@,
            ),
        },
        RhaiType::Float => match float_error_of(value) {
            Option::None => Option::None,
            Option::Some(e) => Option::Some(
                "Invalid value for argument '"@ + name + "': '"@ + value + "' is not a float. ("@
                    + e + ")"@,
            ),
        },
        RhaiType::String => Option::None,
        RhaiType::Dynamic => Option::None,
        RhaiType::Unknown => Option::None,
        RhaiType::Bool => if spec_lower(value) == "true"@ || spec_lower(value) == "false"@ {
            Option::None
        } else {
            Option::Some(
                "Invalid value for argument '"@ + name + "': '"@ + value
                    + "' is not a boolean. ("@ + "provided string was not `true` or `false`"@
                    + ")"@,
            )
        },
        RhaiType::Char => if value.len() == 1 {
            Option::None
        } else {
            Option::Some("Not a char"@ + char_err_text(value))
        },
    }
}

/// Builds the invalid-argument message around a failure description.
fn arg_err_msg(name: &str, value: &str, middle: &str, detail: &str) -> (r: String)
    ensures
        r@ == "Invalid value for argument '"@ + name@ + "': '"@ + value@ + middle@ + detail@
            + ")"@,
{
    let mut msg = String::from_str("Invalid value for argument '");
    msg.append(name);
    msg.append("': '");
    msg.append(value);
    msg.append(middle);
    msg.append(detail);
    msg.append(")");
    proof {
        assert(msg@ =~= "Invalid value for argument '"@ + name@ + "': '"@ + value@ + middle@
            + detail@ + ")"@);
    }
    msg
}

/// Validates and converts one string argument by its expected strategy:
/// succeeds exactly when `spec_parse_arg` reports no failure, and fails
/// with exactly that failure message.
pub fn parse_arg_to_dynamic(arg_name: &str, arg_value_str: &str, expected_type: &RhaiType) -> (r:
    Result<rhai::Dynamic, String>)
    ensures
        match r {
            Result::Ok(_) => spec_parse_arg(arg_name@, arg_value_str@, *expected_type) is None,
            Result::Err(e) => spec_parse_arg(arg_name@, arg_value_str@, *expected_type)
                == Option::Some(e@),
        },
{
    match *expected_type {
        RhaiType::Number => match parse_i64(arg_value_str) {
            Result::Ok(v) => Ok(dynamic_from_int(v)),
            Result::Err(k) => {
                let detail: &str = match k {
                    IntParseErr::Empty => "cannot parse integer from empty string",
                    IntParseErr::InvalidDigit => "invalid digit found in string",
                    IntParseErr::PosOverflow => "number too large to fit in target type",
                    IntParseErr::NegOverflow => "number too small to fit in target type",
                };
                let msg = arg_err_msg(arg_name, arg_value_str, "' is not an integer. (", detail);
                proof {
                    assert(msg@ =~= "Invalid value for argument '"@ + arg_name@ + "': '"@
                        + arg_value_str@ + "' is not an integer. ("@ + int_err_text(k) + ")"@);
                }
                Err(msg)
            },
        },
        RhaiType::Float => match parse_float_dynamic(arg_value_str) {
            Result::Ok(d) => Ok(d),
            Result::Err(e) => {
                let msg = arg_err_msg(arg_name, arg_value_str, "' is not a float. (", e.as_str());
                proof {
                    assert(msg@ =~= "Invalid value for argument '"@ + arg_name@ + "': '"@
                        + arg_value_str@ + "' is not a float. ("@ + e@ + ")"@);
                }
                Err(msg)
            },
        },
        RhaiType::String => Ok(dynamic_from_text(arg_value_str)),
        RhaiType::Dynamic => Ok(dynamic_from_text(arg_value_str)),
        RhaiType::Unknown => Ok(dynamic_from_text(arg_value_str)),
        RhaiType::Bool => {
            if lower_eq(arg_value_str, "true") {
                Ok(dynamic_from_bool(true))
            } else if lower_eq(arg_value_str, "false") {
                Ok(dynamic_from_bool(false))
            } else {
                let msg = arg_err_msg(
                    arg_name,
                    arg_value_str,
                    "' is not a boolean. (",
                    "provided string was not `true` or `false`",
                );
                proof {
                    assert(msg@ =~= "Invalid value for argument '"@ + arg_name@ + "': '"@
                        + arg_value_str@ + "' is not a boolean. ("@
                        + "provided string was not `true` or `false`"@ + ")"@);
                }
                Err(msg)
            }
        },
        RhaiType::Char => {
            if arg_value_str.unicode_len() == 1 {
                Ok(dynamic_from_char(arg_value_str.get_char(0)))
            } else {
                let mut msg = String::from_str("Not a char");
                if arg_value_str.unicode_len() == 0 {
                    msg.append("cannot parse char from empty string");
                } else {
                    msg.append("too many characters in string");
                }
                proof {
                    assert(msg@ =~= "Not a char"@ + char_err_text(arg_value_str@));
                }
                Err(msg)
            }
        },
    }
}

} // verus!
