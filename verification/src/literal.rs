//! Reading a literal back: which scalar, bit for bit, a written literal
//! stands for. This is the inverse of writing a value out, stated so that
//! the two can be held against each other.
use vstd::prelude::*;
use crate::float_bits::{f32_infinite, f32_nan, f64_infinite, f64_nan, lemma_nan_not_infinite};
use crate::text::{digit_char, int_text, nat_text};
use crate::value::{bare_text, value_text, Value};

verus! {

/// A scalar by its bits: an integer by its value, a float by its bit pattern.
pub enum Scalar {
    I32(i32),
    I64(i64),
    F32(u32),
    F64(u64),
}

/// The bits of a value.
pub open spec fn scalar_of(v: Value) -> Scalar {
    match v {
        Value::I32(i) => Scalar::I32(i),
        Value::I64(i) => Scalar::I64(i),
        Value::F32(f) => Scalar::F32(f.bits),
        Value::F64(f) => Scalar::F64(f.bits),
    }
}

/// Whether the literal of the value is made from its bits alone: true of
/// every value but a finite float, which is written by its decimal text.
pub open spec fn written_from_bits(v: Value) -> bool {
    match v {
        Value::I32(_) => true,
        Value::I64(_) => true,
        Value::F32(f) => f32_infinite(f.bits) || f32_nan(f.bits),
        Value::F64(f) => f64_infinite(f.bits) || f64_nan(f.bits),
    }
}

/// The value of a decimal digit; -1 for any other character.
pub open spec fn digit_of(c: char) -> int {
    if c == '0' {
        0
    } else if c == '1' {
        1
    } else if c == '2' {
        2
    } else if c == '3' {
        3
    } else if c == '4' {
        4
    } else if c == '5' {
        5
    } else if c == '6' {
        6
    } else if c == '7' {
        7
    } else if c == '8' {
        8
    } else if c == '9' {
        9
    } else {
        -1
    }
}

/// The number that a non-empty text of decimal digits stands for.
pub open spec fn number_of(s: Seq<char>) -> Option<nat>
    decreases s.len(),
{
    if s.len() == 0 || digit_of(s.last()) < 0 {
        None
    } else if s.len() == 1 {
        Some(digit_of(s.last()) as nat)
    } else {
        match number_of(s.drop_last()) {
            Some(n) => Some((n * 10 + digit_of(s.last())) as nat),
            None => None,
        }
    }
}

/// The integer that decimal digits, with or without a minus sign before
/// them, stand for.
pub open spec fn integer_of(s: Seq<char>) -> Option<int> {
    if s.len() > 0 && s[0] == '-' {
        match number_of(s.skip(1)) {
            Some(n) => Some(-(n as int)),
            None => None,
        }
    } else {
        match number_of(s) {
            Some(n) => Some(n as int),
            None => None,
        }
    }
}

/// What stands between `open` and `close`, where the text begins with the
/// one and ends with the other.
pub open spec fn enclosed(text: Seq<char>, open: Seq<char>, close: Seq<char>) -> Option<
    Seq<char>,
> {
    if text.len() >= open.len() + close.len() && text.take(open.len() as int) == open && text.skip(
        text.len() - close.len(),
    ) == close {
        Some(text.subrange(open.len() as int, text.len() - close.len()))
    } else {
        None
    }
}

/// The single-precision pattern that stands in decimal in `digits`.
pub open spec fn f32_from_digits(digits: Seq<char>) -> Option<Scalar> {
    match number_of(digits) {
        Some(n) => if n <= u32::MAX {
            Some(Scalar::F32(n as u32))
        } else {
            None
        },
        None => None,
    }
}

/// The double-precision pattern that stands in decimal in `digits`.
pub open spec fn f64_from_digits(digits: Seq<char>) -> Option<Scalar> {
    match number_of(digits) {
        Some(n) => if n <= u64::MAX {
            Some(Scalar::F64(n as u64))
        } else {
            None
        },
        None => None,
    }
}

/// The 32-bit integer that stands in decimal in `digits`.
pub open spec fn i32_from_digits(digits: Seq<char>) -> Option<Scalar> {
    match integer_of(digits) {
        Some(i) => if i32::MIN <= i <= i32::MAX {
            Some(Scalar::I32(i as i32))
        } else {
            None
        },
        None => None,
    }
}

/// The 64-bit integer that stands in decimal in `digits`.
pub open spec fn i64_from_digits(digits: Seq<char>) -> Option<Scalar> {
    match integer_of(digits) {
        Some(i) => if i64::MIN <= i <= i64::MAX {
            Some(Scalar::I64(i as i64))
        } else {
            None
        },
        None => None,
    }
}

/// The scalar that a bare literal stands for: an infinity constant, a float
/// rebuilt from its bits, or an integer with its width cast. Any other text
/// stands for none.
pub open spec fn bare_value(text: Seq<char>) -> Option<Scalar> {
    if text == "f32::INFINITY"@ {
        Some(Scalar::F32(0x7F80_0000))
    } else if text == "f32::NEG_INFINITY"@ {
        Some(Scalar::F32(0xFF80_0000))
    } else if text == "f64::INFINITY"@ {
        Some(Scalar::F64(0x7FF0_0000_0000_0000))
    } else if text == "f64::NEG_INFINITY"@ {
        Some(Scalar::F64(0xFFF0_0000_0000_0000))
    } else if enclosed(text, "f32::from_bits("@, ")"@) is Some {
        f32_from_digits(enclosed(text, "f32::from_bits("@, ")"@)->0)
    } else if enclosed(text, "f64::from_bits("@, ")"@) is Some {
        f64_from_digits(enclosed(text, "f64::from_bits("@, ")"@)->0)
    } else if enclosed(text, Seq::empty(), " as i32"@) is Some {
        i32_from_digits(enclosed(text, Seq::empty(), " as i32"@)->0)
    } else if enclosed(text, Seq::empty(), " as i64"@) is Some {
        i64_from_digits(enclosed(text, Seq::empty(), " as i64"@)->0)
    } else {
        None
    }
}

/// The scalar that a literal in its tagged wrapper stands for: the bare
/// literal inside must stand for a scalar of the type that the tag names.
pub open spec fn tagged_value(text: Seq<char>) -> Option<Scalar> {
    if enclosed(text, "Value::I32("@, ")"@) is Some {
        match bare_value(enclosed(text, "Value::I32("@, ")"@)->0) {
            Some(Scalar::I32(i)) => Some(Scalar::I32(i)),
            _ => None,
        }
    } else if enclosed(text, "Value::I64("@, ")"@) is Some {
        match bare_value(enclosed(text, "Value::I64("@, ")"@)->0) {
            Some(Scalar::I64(i)) => Some(Scalar::I64(i)),
            _ => None,
        }
    } else if enclosed(text, "Value::F32("@, ")"@) is Some {
        match bare_value(enclosed(text, "Value::F32("@, ")"@)->0) {
            Some(Scalar::F32(bits)) => Some(Scalar::F32(bits)),
            _ => None,
        }
    } else if enclosed(text, "Value::F64("@, ")"@) is Some {
        match bare_value(enclosed(text, "Value::F64("@, ")"@)->0) {
            Some(Scalar::F64(bits)) => Some(Scalar::F64(bits)),
            _ => None,
        }
    } else {
        None
    }
}

/// The decimal text of a number is not empty and consists of digits.
pub proof fn lemma_nat_text_digits(n: nat)
    ensures
        nat_text(n).len() > 0,
        forall|i: int| 0 <= i < nat_text(n).len() ==> digit_of(#[trigger] nat_text(n)[i]) >= 0,
    decreases n,
{
    if n >= 10 {
        lemma_nat_text_digits(n / 10);
    }
}

/// Reading the decimal text of a number gives the number back.
pub proof fn lemma_number_round_trip(n: nat)
    ensures
        number_of(nat_text(n)) == Some(n),
    decreases n,
{
    if n >= 10 {
        lemma_number_round_trip(n / 10);
        lemma_nat_text_digits(n / 10);
        let text = nat_text(n);
        assert(text.drop_last() =~= nat_text(n / 10));
        assert(text.last() == digit_char((n % 10) as int));
        assert(digit_of(text.last()) == n % 10);
    }
}

/// Reading the decimal text of an integer gives the integer back.
pub proof fn lemma_integer_round_trip(i: int)
    ensures
        integer_of(int_text(i)) == Some(i),
{
    if i < 0 {
        let text = int_text(i);
        assert(text.skip(1) =~= nat_text((-i) as nat));
        lemma_number_round_trip((-i) as nat);
    } else {
        lemma_nat_text_digits(i as nat);
        assert(digit_of(nat_text(i as nat)[0]) >= 0);
        lemma_number_round_trip(i as nat);
    }
}

/// A text put between `open` and `close` is found between them again.
pub proof fn lemma_enclosed(open: Seq<char>, middle: Seq<char>, close: Seq<char>)
    ensures
        enclosed(open + middle + close, open, close) == Some(middle),
{
    let text = open + middle + close;
    assert(text.take(open.len() as int) =~= open);
    assert(text.skip(text.len() - close.len()) =~= close);
    assert(text.subrange(open.len() as int, text.len() - close.len()) =~= middle);
}

/// A text that does not end as `close` does is not enclosed by it.
pub proof fn lemma_not_enclosed(text: Seq<char>, open: Seq<char>, close: Seq<char>)
    requires
        close.len() > 0,
        text.len() > 0,
        text.last() != close.last(),
    ensures
        enclosed(text, open, close) is None,
{
    if text.len() >= close.len() {
        let tail = text.skip(text.len() - close.len());
        assert(tail.last() == text.last());
    }
}

/// A text that differs from `open` at position `k` is not enclosed by it.
pub proof fn lemma_not_opened(text: Seq<char>, open: Seq<char>, close: Seq<char>, k: int)
    requires
        0 <= k < open.len(),
        k < text.len(),
        text[k] != open[k],
    ensures
        enclosed(text, open, close) is None,
{
    if text.len() >= open.len() {
        assert(text.take(open.len() as int)[k] == text[k]);
    }
}

/// The bare literal of an integer stands for that integer.
proof fn lemma_bare_i32(i: i32)
    ensures
        bare_value(int_text(i as int) + " as i32"@) == Some(Scalar::I32(i)),
{
    reveal_strlit("f32::INFINITY");
    reveal_strlit("f32::NEG_INFINITY");
    reveal_strlit("f64::INFINITY");
    reveal_strlit("f64::NEG_INFINITY");
    reveal_strlit(")");
    reveal_strlit(" as i32");
    let text = int_text(i as int) + " as i32"@;
    assert(text.last() == '2');
    lemma_not_enclosed(text, "f32::from_bits("@, ")"@);
    lemma_not_enclosed(text, "f64::from_bits("@, ")"@);
    lemma_enclosed(Seq::empty(), int_text(i as int), " as i32"@);
    assert(text =~= Seq::<char>::empty() + int_text(i as int) + " as i32"@);
    lemma_integer_round_trip(i as int);
}

/// The bare literal of an integer stands for that integer.
proof fn lemma_bare_i64(i: i64)
    ensures
        bare_value(int_text(i as int) + " as i64"@) == Some(Scalar::I64(i)),
{
    reveal_strlit("f32::INFINITY");
    reveal_strlit("f32::NEG_INFINITY");
    reveal_strlit("f64::INFINITY");
    reveal_strlit("f64::NEG_INFINITY");
    reveal_strlit(")");
    reveal_strlit(" as i32");
    reveal_strlit(" as i64");
    let text = int_text(i as int) + " as i64"@;
    assert(text.last() == '4');
    lemma_not_enclosed(text, "f32::from_bits("@, ")"@);
    lemma_not_enclosed(text, "f64::from_bits("@, ")"@);
    lemma_not_enclosed(text, Seq::empty(), " as i32"@);
    lemma_enclosed(Seq::empty(), int_text(i as int), " as i64"@);
    assert(text =~= Seq::<char>::empty() + int_text(i as int) + " as i64"@);
    lemma_integer_round_trip(i as int);
}

/// The literal that rebuilds a single-precision float from its bits stands for those bits.
proof fn lemma_bare_f32_bits(bits: u32)
    ensures
        bare_value("f32::from_bits("@ + nat_text(bits as nat) + ")"@) == Some(Scalar::F32(bits)),
{
    reveal_strlit("f32::INFINITY");
    reveal_strlit("f32::NEG_INFINITY");
    reveal_strlit("f64::INFINITY");
    reveal_strlit("f64::NEG_INFINITY");
    reveal_strlit(")");
    let text = "f32::from_bits("@ + nat_text(bits as nat) + ")"@;
    assert(text.last() == ')');
    lemma_enclosed("f32::from_bits("@, nat_text(bits as nat), ")"@);
    lemma_number_round_trip(bits as nat);
}

/// The literal that rebuilds a double-precision float from its bits stands for those bits.
proof fn lemma_bare_f64_bits(bits: u64)
    ensures
        bare_value("f64::from_bits("@ + nat_text(bits as nat) + ")"@) == Some(Scalar::F64(bits)),
{
    reveal_strlit("f32::INFINITY");
    reveal_strlit("f32::NEG_INFINITY");
    reveal_strlit("f64::INFINITY");
    reveal_strlit("f64::NEG_INFINITY");
    reveal_strlit(")");
    reveal_strlit("f32::from_bits(");
    reveal_strlit("f64::from_bits(");
    let text = "f64::from_bits("@ + nat_text(bits as nat) + ")"@;
    assert(text.last() == ')');
    assert(text[1] == '6');
    lemma_not_opened(text, "f32::from_bits("@, ")"@, 1);
    lemma_enclosed("f64::from_bits("@, nat_text(bits as nat), ")"@);
    lemma_number_round_trip(bits as nat);
}

/// The constants of the infinities stand for their bit patterns.
proof fn lemma_bare_infinities()
    ensures
        bare_value("f32::INFINITY"@) == Some(Scalar::F32(0x7F80_0000)),
        bare_value("f32::NEG_INFINITY"@) == Some(Scalar::F32(0xFF80_0000)),
        bare_value("f64::INFINITY"@) == Some(Scalar::F64(0x7FF0_0000_0000_0000)),
        bare_value("f64::NEG_INFINITY"@) == Some(Scalar::F64(0xFFF0_0000_0000_0000)),
{
    reveal_strlit("f32::INFINITY");
    reveal_strlit("f32::NEG_INFINITY");
    reveal_strlit("f64::INFINITY");
    reveal_strlit("f64::NEG_INFINITY");
    assert("f32::NEG_INFINITY"@.len() != "f32::INFINITY"@.len());
    assert("f64::INFINITY"@[1] != "f32::INFINITY"@[1]);
    assert("f64::INFINITY"@.len() != "f32::NEG_INFINITY"@.len());
    assert("f64::NEG_INFINITY"@[1] != "f32::NEG_INFINITY"@[1]);
    assert("f64::NEG_INFINITY"@.len() != "f32::INFINITY"@.len());
    assert("f64::NEG_INFINITY"@.len() != "f64::INFINITY"@.len());
}

/// Round trip of the bare literal. For every value whose literal is made
/// from its bits (every integer, both infinities of both widths, and every
/// NaN with whatever payload and sign) the bare literal stands for exactly
/// the bits of the value.
pub proof fn lemma_bare_round_trip(v: Value)
    requires
        written_from_bits(v),
    ensures
        bare_value(bare_text(v)) == Some(scalar_of(v)),
{
    match v {
        Value::I32(i) => {
            lemma_bare_i32(i);
        },
        Value::I64(i) => {
            lemma_bare_i64(i);
        },
        Value::F32(f) => {
            lemma_nan_not_infinite(f.bits, 0);
            lemma_bare_infinities();
            lemma_bare_f32_bits(f.bits);
            assert(0xFF80_0000u32 & 0x8000_0000u32 != 0) by (bit_vector);
            assert(0x7F80_0000u32 & 0x8000_0000u32 == 0) by (bit_vector);
        },
        Value::F64(f) => {
            lemma_nan_not_infinite(0, f.bits);
            lemma_bare_infinities();
            lemma_bare_f64_bits(f.bits);
            assert(0xFFF0_0000_0000_0000u64 & 0x8000_0000_0000_0000u64 != 0) by (bit_vector);
            assert(0x7FF0_0000_0000_0000u64 & 0x8000_0000_0000_0000u64 == 0) by (bit_vector);
        },
    }
}

/// The tagged literal of a value made from its bits is its bare literal
/// between the tag with an opening bracket and a closing bracket.
proof fn lemma_tagged_shape(v: Value)
    requires
        written_from_bits(v),
    ensures
        value_text(v) == match v {
            Value::I32(_) => "Value::I32("@ + bare_text(v) + ")"@,
            Value::I64(_) => "Value::I64("@ + bare_text(v) + ")"@,
            Value::F32(_) => "Value::F32("@ + bare_text(v) + ")"@,
            Value::F64(_) => "Value::F64("@ + bare_text(v) + ")"@,
        },
{
    reveal_strlit(")");
    reveal_strlit("))");
    match v {
        Value::I32(i) => {
            reveal_strlit(" as i32");
            reveal_strlit(" as i32)");
            assert(" as i32)"@ =~= " as i32"@ + ")"@);
            assert(value_text(v) =~= "Value::I32("@ + bare_text(v) + ")"@);
        },
        Value::I64(i) => {
            reveal_strlit(" as i64");
            reveal_strlit(" as i64)");
            assert(" as i64)"@ =~= " as i64"@ + ")"@);
            assert(value_text(v) =~= "Value::I64("@ + bare_text(v) + ")"@);
        },
        Value::F32(f) => {
            reveal_strlit("Value::F32(");
            reveal_strlit("f32::INFINITY");
            reveal_strlit("f32::NEG_INFINITY");
            reveal_strlit("f32::from_bits(");
            reveal_strlit("Value::F32(f32::INFINITY)");
            reveal_strlit("Value::F32(f32::NEG_INFINITY)");
            reveal_strlit("Value::F32(f32::from_bits(");
            assert("))"@ =~= ")"@ + ")"@);
            assert("Value::F32(f32::from_bits("@ =~= "Value::F32("@ + "f32::from_bits("@);
            assert("Value::F32(f32::INFINITY)"@ =~= "Value::F32("@ + "f32::INFINITY"@ + ")"@);
            assert("Value::F32(f32::NEG_INFINITY)"@ =~= "Value::F32("@ + "f32::NEG_INFINITY"@
                + ")"@);
            assert(value_text(v) =~= "Value::F32("@ + bare_text(v) + ")"@);
        },
        Value::F64(f) => {
            reveal_strlit("Value::F64(");
            reveal_strlit("f64::INFINITY");
            reveal_strlit("f64::NEG_INFINITY");
            reveal_strlit("f64::from_bits(");
            reveal_strlit("Value::F64(f64::INFINITY)");
            reveal_strlit("Value::F64(f64::NEG_INFINITY)");
            reveal_strlit("Value::F64(f64::from_bits(");
            assert("))"@ =~= ")"@ + ")"@);
            assert("Value::F64(f64::from_bits("@ =~= "Value::F64("@ + "f64::from_bits("@);
            assert("Value::F64(f64::INFINITY)"@ =~= "Value::F64("@ + "f64::INFINITY"@ + ")"@);
            assert("Value::F64(f64::NEG_INFINITY)"@ =~= "Value::F64("@ + "f64::NEG_INFINITY"@
                + ")"@);
            assert(value_text(v) =~= "Value::F64("@ + bare_text(v) + ")"@);
        },
    }
}

/// Round trip of the tagged literal. For every value whose literal is made
/// from its bits (every integer, both infinities of both widths, and every
/// NaN with whatever payload and sign) the literal in its tagged wrapper
/// stands for exactly the bits of the value, under the tag of its type.
pub proof fn lemma_value_round_trip(v: Value)
    requires
        written_from_bits(v),
    ensures
        tagged_value(value_text(v)) == Some(scalar_of(v)),
{
    lemma_tagged_shape(v);
    lemma_bare_round_trip(v);
    reveal_strlit("Value::I32(");
    reveal_strlit("Value::I64(");
    reveal_strlit("Value::F32(");
    reveal_strlit("Value::F64(");
    let text = value_text(v);
    match v {
        Value::I32(_) => {
            lemma_enclosed("Value::I32("@, bare_text(v), ")"@);
        },
        Value::I64(_) => {
            assert(text[8] == '6');
            lemma_not_opened(text, "Value::I32("@, ")"@, 8);
            lemma_enclosed("Value::I64("@, bare_text(v), ")"@);
        },
        Value::F32(_) => {
            assert(text[7] == 'F');
            lemma_not_opened(text, "Value::I32("@, ")"@, 7);
            lemma_not_opened(text, "Value::I64("@, ")"@, 7);
            lemma_enclosed("Value::F32("@, bare_text(v), ")"@);
        },
        Value::F64(_) => {
            assert(text[7] == 'F');
            assert(text[8] == '6');
            lemma_not_opened(text, "Value::I32("@, ")"@, 7);
            lemma_not_opened(text, "Value::I64("@, ")"@, 7);
            lemma_not_opened(text, "Value::F32("@, ")"@, 8);
            lemma_enclosed("Value::F64("@, bare_text(v), ")"@);
        },
    }
}

} // verus!
