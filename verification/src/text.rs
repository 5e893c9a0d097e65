//! Rendering of values and faults as human-readable text.
//!
//! Integers render in decimal. Reals render exactly from their bits:
//! special values by name, finite values in hexadecimal floating-point
//! notation. Fault messages substitute the offending value and kinds into
//! their message templates.

use vstd::prelude::*;
use vstd::string::StrSliceExecFns;
use vstd::string::StringExecFns;
use crate::fault::Fault;
use crate::fault::FaultKind;
use crate::fault::FaultOrPause;
use crate::reals::real_abs_bits;
use crate::reals::real_is_infinite;
use crate::reals::real_is_nan;
use crate::reals::real_is_sign_positive;
use crate::value::DynamicValue;
use crate::value::Value;
use crate::value::ValueKind;
use crate::value::primitive_kind;

verus! {

/// The character of one decimal digit.
pub open spec fn decimal_digit(d: nat) -> char {
    if d == 0 {
        '0'
    } else if d == 1 {
        '1'
    } else if d == 2 {
        '2'
    } else if d == 3 {
        '3'
    } else if d == 4 {
        '4'
    } else if d == 5 {
        '5'
    } else if d == 6 {
        '6'
    } else if d == 7 {
        '7'
    } else if d == 8 {
        '8'
    } else {
        '9'
    }
}

/// The character of one hexadecimal digit, in lower case.
pub open spec fn hex_digit(d: nat) -> char {
    if d < 10 {
        decimal_digit(d)
    } else if d == 10 {
        'a'
    } else if d == 11 {
        'b'
    } else if d == 12 {
        'c'
    } else if d == 13 {
        'd'
    } else if d == 14 {
        'e'
    } else {
        'f'
    }
}

/// The decimal digits of a natural number, most significant first.
pub open spec fn spec_decimal(n: nat) -> Seq<char>
    decreases n,
{
    if n < 10 {
        seq![decimal_digit(n)]
    } else {
        spec_decimal(n / 10).push(decimal_digit(n % 10))
    }
}

/// The decimal text of an integer: a minus sign before the digits of its
/// magnitude when it is negative.
pub open spec fn spec_integer_text(i: int) -> Seq<char> {
    if i < 0 {
        seq!['-'] + spec_decimal((-i) as nat)
    } else {
        spec_decimal(i as nat)
    }
}

/// The hexadecimal digits of `n`, zero-padded to exactly `width` digits.
pub open spec fn spec_hex_fixed(n: nat, width: nat) -> Seq<char>
    decreases width,
{
    if width == 0 {
        Seq::empty()
    } else {
        spec_hex_fixed(n / 16, (width - 1) as nat).push(hex_digit(n % 16))
    }
}

/// The text of a binary exponent, always carrying an explicit sign.
pub open spec fn spec_exponent_text(e: int) -> Seq<char> {
    if e < 0 {
        seq!['-'] + spec_decimal((-e) as nat)
    } else {
        seq!['+'] + spec_decimal(e as nat)
    }
}

/// The text of a real, from its bits: NaNs and infinities by name, zeroes as
/// `0` or `-0`, and finite values in hexadecimal floating-point notation
/// with thirteen fraction digits and a signed binary exponent.
pub open spec fn spec_real_text(bits: u64) -> Seq<char> {
    let sign = if real_is_sign_positive(bits) {
        Seq::<char>::empty()
    } else {
        seq!['-']
    };
    if real_is_nan(bits) {
        "NaN"@
    } else if real_is_infinite(bits) {
        sign + "inf"@
    } else if real_abs_bits(bits) == 0 {
        sign + "0"@
    } else {
        let exponent = (bits >> 52) & 0x7FF;
        let fraction = bits & 0xF_FFFF_FFFF_FFFF;
        if exponent == 0 {
            sign + "0x0."@ + spec_hex_fixed(fraction as nat, 13) + "p-1022"@
        } else {
            sign + "0x1."@ + spec_hex_fixed(fraction as nat, 13) + "p"@ + spec_exponent_text(
                exponent - 1023,
            )
        }
    }
}

/// The text of a primitive value.
pub open spec fn spec_value_text<D>(v: Value<D>) -> Seq<char> {
    match v {
        Value::Integer(i) => spec_integer_text(i as int),
        Value::Real(bits) => spec_real_text(bits),
        Value::Boolean(b) => if b {
            "true"@
        } else {
            "false"@
        },
        Value::Void => "Void"@,
        Value::Dynamic(_) => arbitrary(),
    }
}

/// The text of a value kind's name.
pub open spec fn spec_kind_text(kind: ValueKind) -> Seq<char> {
    match kind {
        ValueKind::Integer => "Integer"@,
        ValueKind::Real => "Real"@,
        ValueKind::Boolean => "Boolean"@,
        ValueKind::Void => "Void"@,
        ValueKind::Dynamic(name) => name@,
    }
}

/// One decimal digit as text.
fn decimal_digit_str(d: u64) -> (r: &'static str)
    requires
        d < 10,
    ensures
        r@ == seq![decimal_digit(d as nat)],
{
    if d == 0 {
        proof {
            reveal_strlit("0");
            assert("0"@ =~= seq![decimal_digit(0)]);
        }
        "0"
    } else if d == 1 {
        proof {
            reveal_strlit("1");
            assert("1"@ =~= seq![decimal_digit(1)]);
        }
        "1"
    } else if d == 2 {
        proof {
            reveal_strlit("2");
            assert("2"@ =~= seq![decimal_digit(2)]);
        }
        "2"
    } else if d == 3 {
        proof {
            reveal_strlit("3");
            assert("3"@ =~= seq![decimal_digit(3)]);
        }
        "3"
    } else if d == 4 {
        proof {
            reveal_strlit("4");
            assert("4"@ =~= seq![decimal_digit(4)]);
        }
        "4"
    } else if d == 5 {
        proof {
            reveal_strlit("5");
            assert("5"@ =~= seq![decimal_digit(5)]);
        }
        "5"
    } else if d == 6 {
        proof {
            reveal_strlit("6");
            assert("6"@ =~= seq![decimal_digit(6)]);
        }
        "6"
    } else if d == 7 {
        proof {
            reveal_strlit("7");
            assert("7"@ =~= seq![decimal_digit(7)]);
        }
        "7"
    } else if d == 8 {
        proof {
            reveal_strlit("8");
            assert("8"@ =~= seq![decimal_digit(8)]);
        }
        "8"
    } else {
        proof {
            reveal_strlit("9");
            assert("9"@ =~= seq![decimal_digit(9)]);
        }
        "9"
    }
}

/// One hexadecimal digit as text.
fn hex_digit_str(d: u64) -> (r: &'static str)
    requires
        d < 16,
    ensures
        r@ == seq![hex_digit(d as nat)],
{
    if d < 10 {
        decimal_digit_str(d)
    } else if d == 10 {
        proof {
            reveal_strlit("a");
            assert("a"@ =~= seq![hex_digit(10)]);
        }
        "a"
    } else if d == 11 {
        proof {
            reveal_strlit("b");
            assert("b"@ =~= seq![hex_digit(11)]);
        }
        "b"
    } else if d == 12 {
        proof {
            reveal_strlit("c");
            assert("c"@ =~= seq![hex_digit(12)]);
        }
        "c"
    } else if d == 13 {
        proof {
            reveal_strlit("d");
            assert("d"@ =~= seq![hex_digit(13)]);
        }
        "d"
    } else if d == 14 {
        proof {
            reveal_strlit("e");
            assert("e"@ =~= seq![hex_digit(14)]);
        }
        "e"
    } else {
        proof {
            reveal_strlit("f");
            assert("f"@ =~= seq![hex_digit(15)]);
        }
        "f"
    }
}

/// Renders a natural number in decimal.
pub fn u64_to_string(n: u64) -> (r: String)
    ensures
        r@ == spec_decimal(n as nat),
    decreases n,
{
    if n < 10 {
        decimal_digit_str(n).to_owned()
    } else {
        let mut prefix = u64_to_string(n / 10);
        prefix.append(decimal_digit_str(n % 10));
        prefix
    }
}

/// Renders a signed integer in decimal.
pub fn i64_to_string(i: i64) -> (r: String)
    ensures
        r@ == spec_integer_text(i as int),
{
    if i >= 0 {
        u64_to_string(i as u64)
    } else {
        let magnitude = (-(i as i128)) as u64;
        let mut text = "-".to_owned();
        proof {
            reveal_strlit("-");
            assert("-"@ =~= seq!['-']);
        }
        text.append(u64_to_string(magnitude).as_str());
        text
    }
}

/// Renders `n` in hexadecimal, zero-padded to `width` digits.
fn hex_fixed_to_string(n: u64, width: usize) -> (r: String)
    ensures
        r@ == spec_hex_fixed(n as nat, width as nat),
    decreases width,
{
    if width == 0 {
        proof {
            assert(""@ =~= Seq::<char>::empty()) by {
                reveal_strlit("");
            }
        }
        "".to_owned()
    } else {
        let mut prefix = hex_fixed_to_string(n / 16, width - 1);
        prefix.append(hex_digit_str(n % 16));
        prefix
    }
}

/// Renders a real from its bits.
pub fn real_to_string(bits: u64) -> (r: String)
    ensures
        r@ == spec_real_text(bits),
{
    let positive = (bits & crate::reals::REAL_SIGN_MASK) == 0;
    let magnitude = bits & crate::reals::REAL_ABS_MASK;
    if magnitude > crate::reals::REAL_INFINITY_BITS {
        "NaN".to_owned()
    } else if magnitude == crate::reals::REAL_INFINITY_BITS {
        if positive {
            proof {
                assert(Seq::<char>::empty() + "inf"@ =~= "inf"@);
            }
            "inf".to_owned()
        } else {
            proof {
                reveal_strlit("-inf");
                reveal_strlit("inf");
                assert("-inf"@ =~= seq!['-'] + "inf"@);
            }
            "-inf".to_owned()
        }
    } else if magnitude == 0 {
        if positive {
            proof {
                assert(Seq::<char>::empty() + "0"@ =~= "0"@);
            }
            "0".to_owned()
        } else {
            proof {
                reveal_strlit("-0");
                reveal_strlit("0");
                assert("-0"@ =~= seq!['-'] + "0"@);
            }
            "-0".to_owned()
        }
    } else {
        let exponent = (bits >> 52) & 0x7FF;
        let fraction = bits & 0xF_FFFF_FFFF_FFFF;
        let mut text = if positive {
            proof {
                assert(""@ =~= Seq::<char>::empty()) by {
                    reveal_strlit("");
                }
            }
            "".to_owned()
        } else {
            proof {
                reveal_strlit("-");
                assert("-"@ =~= seq!['-']);
            }
            "-".to_owned()
        };
        if exponent == 0 {
            text.append("0x0.");
            text.append(hex_fixed_to_string(fraction, 13).as_str());
            text.append("p-1022");
        } else {
            text.append("0x1.");
            text.append(hex_fixed_to_string(fraction, 13).as_str());
            text.append("p");
            proof {
                assert((bits >> 52) & 0x7FF < 2048) by (bit_vector);
            }
            let e = (exponent as i64) - 1023;
            if e >= 0 {
                proof {
                    reveal_strlit("+");
                    assert("+"@ =~= seq!['+']);
                }
                text.append("+");
                text.append(u64_to_string(e as u64).as_str());
            } else {
                proof {
                    reveal_strlit("-");
                    assert("-"@ =~= seq!['-']);
                }
                text.append("-");
                text.append(u64_to_string((-e) as u64).as_str());
            }
        }
        proof {
            assert(text@ =~= spec_real_text(bits));
        }
        text
    }
}

/// Returns true if the two strings spell the same characters.
fn chars_eq(a: &str, b: &str) -> (r: bool)
    ensures
        r == (a@ == b@),
{
    let a_len = a.unicode_len();
    let b_len = b.unicode_len();
    if a_len != b_len {
        proof {
            assert(a@ != b@);
        }
        return false;
    }
    let mut index: usize = 0;
    while index < a_len
        invariant
            a_len == a@.len(),
            b_len == b@.len(),
            a_len == b_len,
            index <= a_len,
            forall|i: int| 0 <= i < index ==> a@[i] == b@[i],
        decreases a_len - index,
    {
        if a.get_char(index) != b.get_char(index) {
            proof {
                assert(a@[index as int] != b@[index as int]);
            }
            return false;
        }
        index = index + 1;
    }
    proof {
        assert(a@ =~= b@);
    }
    true
}

/// The characters of `s` with every occurrence of `from` replaced by `to`,
/// scanning left to right without overlap.
pub open spec fn spec_replace(s: Seq<char>, from: Seq<char>, to: Seq<char>) -> Seq<char>
    recommends
        from.len() >= 1,
    decreases s.len(),
{
    if s.len() < from.len() || from.len() == 0 {
        s
    } else if s.take(from.len() as int) == from {
        to + spec_replace(s.skip(from.len() as int), from, to)
    } else {
        seq![s[0]] + spec_replace(s.skip(1), from, to)
    }
}

/// Replaces every occurrence of `from` in `s` by `to`, scanning left to
/// right without overlap.
pub fn replace_all(s: &str, from: &str, to: &str) -> (r: String)
    requires
        from@.len() >= 1,
    ensures
        r@ == spec_replace(s@, from@, to@),
    decreases s@.len(),
{
    let s_len = s.unicode_len();
    let from_len = from.unicode_len();
    if s_len < from_len {
        s.to_owned()
    } else if chars_eq(s.substring_char(0, from_len), from) {
        proof {
            assert(s@.subrange(0, from_len as int) == s@.take(from_len as int));
        }
        let mut text = to.to_owned();
        let rest = replace_all(s.substring_char(from_len, s_len), from, to);
        proof {
            assert(s@.subrange(from_len as int, s_len as int) == s@.skip(from_len as int));
        }
        text.append(rest.as_str());
        text
    } else {
        proof {
            assert(s@.subrange(0, from_len as int) == s@.take(from_len as int));
        }
        let mut text = s.substring_char(0, 1).to_owned();
        let rest = replace_all(s.substring_char(1, s_len), from, to);
        proof {
            assert(s@.subrange(0, 1) =~= seq![s@[0]]);
            assert(s@.subrange(1, s_len as int) == s@.skip(1));
        }
        text.append(rest.as_str());
        text
    }
}

/// The rendered text of a type-mismatch fault over a primitive value: the
/// template with the expected kind, the value's kind and the value itself
/// substituted in.
pub open spec fn spec_type_mismatch_text<D>(
    message: Seq<char>,
    expected: ValueKind,
    received: Value<D>,
) -> Seq<char> {
    spec_replace(
        spec_replace(
            spec_replace(message, "@expected"@, spec_kind_text(expected)),
            "@received-type"@,
            spec_kind_text(primitive_kind(received)),
        ),
        "@received-value"@,
        spec_value_text(received),
    )
}

/// The rendered text of an invalid-type fault over a primitive value.
pub open spec fn spec_invalid_type_text<D>(message: Seq<char>, received: Value<D>) -> Seq<char> {
    spec_replace(
        spec_replace(message, "@received-type"@, spec_kind_text(primitive_kind(received))),
        "@received-value"@,
        spec_value_text(received),
    )
}

impl<D: DynamicValue> Value<D> {
    /// Renders the value as text. Integers render in decimal, reals from
    /// their bits, and host values however the host renders them.
    pub fn to_display_string(&self) -> (r: String)
        ensures
            !(self is Dynamic) ==> r@ == spec_value_text(*self),
    {
        match self {
            Value::Integer(i) => i64_to_string(*i),
            Value::Real(bits) => real_to_string(*bits),
            Value::Boolean(b) => if *b {
                "true".to_owned()
            } else {
                "false".to_owned()
            },
            Value::Void => "Void".to_owned(),
            Value::Dynamic(dynamic) => dynamic.get().display(),
        }
    }
}

impl<D: DynamicValue> FaultKind<D> {
    /// Renders the fault as a human-readable message, substituting the
    /// offending value and kinds into the message template where one is
    /// carried.
    pub fn to_message(&self) -> (r: String)
        ensures
            *self is StackOverflow ==> r@ == "stack pushed to while at maximum capacity"@,
            *self is StackUnderflow ==> r@ == "stack popped but no values present"@,
            *self is InvalidVariableIndex ==> r@
                == "a variable index was outside of the range allocated for the function"@,
            *self is InvalidArgumentIndex ==> r@
                == "an argument index was beyond the number of arguments passed to the function"@,
            *self is InvalidVtableIndex ==> r@
                == "a vtable index was beyond the number functions registered in the current module"@,
            (*self) matches FaultKind::UnknownFunction { kind, name } ==> r@
                == "unknown function "@ + name@ + " on "@ + spec_kind_text(kind),
            (*self) matches FaultKind::TypeMismatch { message, expected, received } ==> !(received
                is Dynamic) ==> r@ == spec_type_mismatch_text(message@, expected, received),
            (*self) matches FaultKind::InvalidType { message, received } ==> !(received is Dynamic)
                ==> r@ == spec_invalid_type_text(message@, received),
    {
        match self {
            FaultKind::StackOverflow => "stack pushed to while at maximum capacity".to_owned(),
            FaultKind::StackUnderflow => "stack popped but no values present".to_owned(),
            FaultKind::InvalidVariableIndex => {
                "a variable index was outside of the range allocated for the function".to_owned()
            },
            FaultKind::InvalidArgumentIndex => {
                "an argument index was beyond the number of arguments passed to the function".to_owned()
            },
            FaultKind::InvalidVtableIndex => {
                "a vtable index was beyond the number functions registered in the current module".to_owned()
            },
            FaultKind::UnknownFunction { kind, name } => {
                let mut text = "unknown function ".to_owned();
                text.append(name.as_str());
                text.append(" on ");
                text.append(kind.as_str());
                text
            },
            FaultKind::TypeMismatch { message, expected, received } => {
                proof {
                    reveal_strlit("@expected");
                    reveal_strlit("@received-type");
                    reveal_strlit("@received-value");
                }
                let text = replace_all(message.as_str(), "@expected", expected.as_str());
                let kind = received.kind();
                let text = replace_all(text.as_str(), "@received-type", kind.as_str());
                let rendered = received.to_display_string();
                replace_all(text.as_str(), "@received-value", rendered.as_str())
            },
            FaultKind::InvalidType { message, received } => {
                proof {
                    reveal_strlit("@received-type");
                    reveal_strlit("@received-value");
                }
                let kind = received.kind();
                let text = replace_all(message.as_str(), "@received-type", kind.as_str());
                let rendered = received.to_display_string();
                replace_all(text.as_str(), "@received-value", rendered.as_str())
            },
            FaultKind::Dynamic(dynamic) => dynamic.message(),
        }
    }
}

impl<D: DynamicValue> Fault<D> {
    /// Renders the fault as a human-readable message; a pause renders as a
    /// fixed note.
    pub fn to_message(&self) -> (r: String)
        ensures
            self.kind matches FaultOrPause::Fault(FaultKind::<D>::StackOverflow) ==> r@
                == "stack pushed to while at maximum capacity"@,
            self.kind matches FaultOrPause::Fault(FaultKind::<D>::StackUnderflow) ==> r@
                == "stack popped but no values present"@,
            self.kind matches FaultOrPause::Fault(FaultKind::<D>::InvalidVariableIndex) ==> r@
                == "a variable index was outside of the range allocated for the function"@,
            self.kind matches FaultOrPause::Fault(FaultKind::<D>::InvalidArgumentIndex) ==> r@
                == "an argument index was beyond the number of arguments passed to the function"@,
            self.kind matches FaultOrPause::Fault(FaultKind::<D>::InvalidVtableIndex) ==> r@
                == "a vtable index was beyond the number functions registered in the current module"@,
            self.kind matches FaultOrPause::Fault(
                FaultKind::UnknownFunction { kind, name },
            ) ==> r@ == "unknown function "@ + name@ + " on "@ + spec_kind_text(kind),
            self.kind matches FaultOrPause::Fault(
                FaultKind::TypeMismatch { message, expected, received },
            ) ==> (!(received is Dynamic) ==> r@ == spec_type_mismatch_text(
                message@,
                expected,
                received,
            )),
            self.kind matches FaultOrPause::Fault(FaultKind::InvalidType { message, received })
                ==> (!(received is Dynamic) ==> r@ == spec_invalid_type_text(message@, received)),
            self.kind is Pause ==> r@ == "paused execution"@,
    {
        match &self.kind {
            FaultOrPause::Fault(fault) => fault.to_message(),
            FaultOrPause::Pause(_) => "paused execution".to_owned(),
        }
    }
}

} // verus!
