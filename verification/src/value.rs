//! Script values and their rendering as source literals.
//!
//! A float is kept as its bit pattern, so that the payload and the sign of a
//! NaN survive; what is written for it depends on the pattern alone, except
//! for a finite value, whose decimal text the value carries with it.
use vstd::prelude::*;
use vstd::string::*;
use crate::float_bits::{
    f32_infinite, f32_is_infinite, f32_is_nan, f32_is_sign_negative, f32_nan, f32_sign_negative,
    f64_infinite, f64_is_infinite, f64_is_nan, f64_is_sign_negative, f64_nan, f64_sign_negative,
};
use crate::text::{int_text, nat_text, push_i64, push_u64, texts};

verus! {

/// A single-precision float of a script.
#[derive(Clone, Debug, PartialEq)]
pub struct Float32 {
    /// The bit pattern of the value.
    pub bits: u32,
    /// The shortest decimal text that reads back as this value. It is
    /// written out for a finite value only.
    pub decimal: String,
}

/// A double-precision float of a script.
#[derive(Clone, Debug, PartialEq)]
pub struct Float64 {
    /// The bit pattern of the value.
    pub bits: u64,
    /// The shortest decimal text that reads back as this value. It is
    /// written out for a finite value only.
    pub decimal: String,
}

/// A value that a script passes to a function or expects from it.
#[derive(Clone, Debug, PartialEq)]
pub enum Value {
    I32(i32),
    I64(i64),
    F32(Float32),
    F64(Float64),
}

/// The name of the value's type.
pub open spec fn type_text(v: Value) -> Seq<char> {
    match v {
        Value::I32(_) => "i32"@,
        Value::I64(_) => "i64"@,
        Value::F32(_) => "f32"@,
        Value::F64(_) => "f64"@,
    }
}

/// The pattern that binds the payload of a value of this type to `placeholder`.
pub open spec fn destructure_text(v: Value, placeholder: Seq<char>) -> Seq<char> {
    match v {
        Value::I32(_) => "Value::I32("@ + placeholder + ")"@,
        Value::I64(_) => "Value::I64("@ + placeholder + ")"@,
        Value::F32(_) => "Value::F32("@ + placeholder + ")"@,
        Value::F64(_) => "Value::F64("@ + placeholder + ")"@,
    }
}

/// Whether the value is a float NaN, of either width.
pub open spec fn value_is_nan(v: Value) -> bool {
    match v {
        Value::I32(_) => false,
        Value::I64(_) => false,
        Value::F32(f) => f32_nan(f.bits),
        Value::F64(f) => f64_nan(f.bits),
    }
}

/// The literal of a single-precision float, without its wrapper.
pub open spec fn f32_bare_text(f: Float32) -> Seq<char> {
    if f32_infinite(f.bits) {
        if f32_sign_negative(f.bits) {
            "f32::NEG_INFINITY"@
        } else {
            "f32::INFINITY"@
        }
    } else if f32_nan(f.bits) {
        "f32::from_bits("@ + nat_text(f.bits as nat) + ")"@
    } else {
        f.decimal@
    }
}

/// The literal of a double-precision float, without its wrapper.
pub open spec fn f64_bare_text(f: Float64) -> Seq<char> {
    if f64_infinite(f.bits) {
        if f64_sign_negative(f.bits) {
            "f64::NEG_INFINITY"@
        } else {
            "f64::INFINITY"@
        }
    } else if f64_nan(f.bits) {
        "f64::from_bits("@ + nat_text(f.bits as nat) + ")"@
    } else {
        f.decimal@
    }
}

/// The literal of the scalar itself: an integer with its width cast, an
/// infinity by its constant, a NaN rebuilt from its bits, and any other
/// float by its decimal text.
pub open spec fn bare_text(v: Value) -> Seq<char> {
    match v {
        Value::I32(i) => int_text(i as int) + " as i32"@,
        Value::I64(i) => int_text(i as int) + " as i64"@,
        Value::F32(f) => f32_bare_text(f),
        Value::F64(f) => f64_bare_text(f),
    }
}

/// The literal of the value in its tagged wrapper. A finite float stands in
/// brackets with its type as a suffix; everything else is the bare literal.
pub open spec fn value_text(v: Value) -> Seq<char> {
    match v {
        Value::I32(i) => "Value::I32("@ + int_text(i as int) + " as i32)"@,
        Value::I64(i) => "Value::I64("@ + int_text(i as int) + " as i64)"@,
        Value::F32(f) => if f32_infinite(f.bits) {
            if f32_sign_negative(f.bits) {
                "Value::F32(f32::NEG_INFINITY)"@
            } else {
                "Value::F32(f32::INFINITY)"@
            }
        } else if f32_nan(f.bits) {
            "Value::F32(f32::from_bits("@ + nat_text(f.bits as nat) + "))"@
        } else {
            "Value::F32(("@ + f.decimal@ + "f32))"@
        },
        Value::F64(f) => if f64_infinite(f.bits) {
            if f64_sign_negative(f.bits) {
                "Value::F64(f64::NEG_INFINITY)"@
            } else {
                "Value::F64(f64::INFINITY)"@
            }
        } else if f64_nan(f.bits) {
            "Value::F64(f64::from_bits("@ + nat_text(f.bits as nat) + "))"@
        } else {
            "Value::F64(("@ + f.decimal@ + "f64))"@
        },
    }
}

/// The literals of a list of values, in order.
pub open spec fn value_texts(values: Seq<Value>) -> Seq<Seq<char>> {
    values.map_values(|v: Value| value_text(v))
}

/// The name of the value's type.
pub fn wabt2rust_type(v: &Value) -> (s: String)
    ensures
        s@ == type_text(*v),
{
    match v {
        Value::I32(_) => String::from_str("i32"),
        Value::I64(_) => String::from_str("i64"),
        Value::F32(_) => String::from_str("f32"),
        Value::F64(_) => String::from_str("f64"),
    }
}

/// The pattern that binds the payload of a value of this type to `placeholder`.
pub fn wabt2rust_type_destructure(v: &Value, placeholder: &str) -> (s: String)
    ensures
        s@ == destructure_text(*v, placeholder@),
{
    let mut s = match v {
        Value::I32(_) => String::from_str("Value::I32("),
        Value::I64(_) => String::from_str("Value::I64("),
        Value::F32(_) => String::from_str("Value::F32("),
        Value::F64(_) => String::from_str("Value::F64("),
    };
    s.append(placeholder);
    s.append(")");
    s
}

/// Whether the value is a float NaN, of either width.
pub fn is_nan(v: &Value) -> (r: bool)
    ensures
        r == value_is_nan(*v),
{
    match v {
        Value::F32(f) => f32_is_nan(f.bits),
        Value::F64(f) => f64_is_nan(f.bits),
        _ => false,
    }
}

/// The literal of the scalar itself, without the tagged wrapper.
pub fn wabt2rust_value_bare(v: &Value) -> (s: String)
    ensures
        s@ == bare_text(*v),
{
    match v {
        Value::I32(i) => {
            let mut s = String::new();
            push_i64(&mut s, *i as i64);
            s.append(" as i32");
            assert(s@ =~= bare_text(*v));
            s
        },
        Value::I64(i) => {
            let mut s = String::new();
            push_i64(&mut s, *i);
            s.append(" as i64");
            assert(s@ =~= bare_text(*v));
            s
        },
        Value::F32(f) => {
            if f32_is_infinite(f.bits) {
                if f32_is_sign_negative(f.bits) {
                    String::from_str("f32::NEG_INFINITY")
                } else {
                    String::from_str("f32::INFINITY")
                }
            } else if f32_is_nan(f.bits) {
                let mut s = String::from_str("f32::from_bits(");
                push_u64(&mut s, f.bits as u64);
                s.append(")");
                s
            } else {
                f.decimal.clone()
            }
        },
        Value::F64(f) => {
            if f64_is_infinite(f.bits) {
                if f64_is_sign_negative(f.bits) {
                    String::from_str("f64::NEG_INFINITY")
                } else {
                    String::from_str("f64::INFINITY")
                }
            } else if f64_is_nan(f.bits) {
                let mut s = String::from_str("f64::from_bits(");
                push_u64(&mut s, f.bits);
                s.append(")");
                s
            } else {
                f.decimal.clone()
            }
        },
    }
}

/// The literal of the value in its tagged wrapper.
pub fn wabt2rust_value(v: &Value) -> (s: String)
    ensures
        s@ == value_text(*v),
{
    match v {
        Value::I32(i) => {
            let mut s = String::from_str("Value::I32(");
            push_i64(&mut s, *i as i64);
            s.append(" as i32)");
            s
        },
        Value::I64(i) => {
            let mut s = String::from_str("Value::I64(");
            push_i64(&mut s, *i);
            s.append(" as i64)");
            s
        },
        Value::F32(f) => {
            if f32_is_infinite(f.bits) {
                if f32_is_sign_negative(f.bits) {
                    String::from_str("Value::F32(f32::NEG_INFINITY)")
                } else {
                    String::from_str("Value::F32(f32::INFINITY)")
                }
            } else if f32_is_nan(f.bits) {
                let mut s = String::from_str("Value::F32(f32::from_bits(");
                push_u64(&mut s, f.bits as u64);
                s.append("))");
                s
            } else {
                let mut s = String::from_str("Value::F32((");
                s.append(f.decimal.as_str());
                s.append("f32))");
                s
            }
        },
        Value::F64(f) => {
            if f64_is_infinite(f.bits) {
                if f64_is_sign_negative(f.bits) {
                    String::from_str("Value::F64(f64::NEG_INFINITY)")
                } else {
                    String::from_str("Value::F64(f64::INFINITY)")
                }
            } else if f64_is_nan(f.bits) {
                let mut s = String::from_str("Value::F64(f64::from_bits(");
                push_u64(&mut s, f.bits);
                s.append("))");
                s
            } else {
                let mut s = String::from_str("Value::F64((");
                s.append(f.decimal.as_str());
                s.append("f64))");
                s
            }
        },
    }
}

/// The literals of the values, in order.
pub fn value_literals(values: &Vec<Value>) -> (out: Vec<String>)
    ensures
        texts(out@) == value_texts(values@),
{
    let mut out: Vec<String> = Vec::new();
    let mut i: usize = 0;
    while i < values.len()
        invariant
            i <= values.len(),
            out@.len() == i,
            forall|k: int| 0 <= k < i ==> (#[trigger] out@[k])@ == value_text(values@[k]),
        decreases values.len() - i,
    {
        out.push(wabt2rust_value(&values[i]));
        i = i + 1;
    }
    assert(texts(out@) =~= value_texts(values@));
    out
}

} // verus!
