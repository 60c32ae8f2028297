//! The stored values and their runtime type tags.
//!
//! A double-precision value is carried by its 64-bit pattern
//! ([`Double`]), and a complex value by the bit patterns of its real and
//! imaginary parts ([`Complex`]); storage round-trips those bits exactly.

use vstd::prelude::*;

verus! {

/// Runtime type tag identifying what an entry holds.
#[allow(non_camel_case_types)]
#[derive(Clone, Copy, Debug, PartialEq, Eq, Structural)]
pub enum datablock_type_t {
    DBT_INT,
    DBT_DOUBLE,
    DBT_COMPLEX,
    DBT_STRING,
    DBT_INT1D,
    DBT_DOUBLE1D,
    DBT_COMPLEX1D,
    DBT_BOOL,
    DBT_UNKNOWN,
}

/// A double-precision value, carried as its 64-bit pattern.
#[derive(Clone, Copy, Debug, PartialEq, Eq, Structural)]
pub struct Double {
    pub bits: u64,
}

/// A complex value: the bit patterns of its real and imaginary parts.
#[derive(Clone, Copy, Debug, PartialEq, Eq, Structural)]
pub struct Complex {
    pub re: Double,
    pub im: Double,
}

/// One stored value, tagged by type.
#[derive(Debug)]
pub enum Value {
    Int(i32),
    Bool(bool),
    Double(Double),
    Complex(Complex),
    Text(String),
    IntArray(Vec<i32>),
    DoubleArray(Vec<Double>),
    ComplexArray(Vec<Complex>),
}

/// The mathematical shape of one stored value: text as a sequence of
/// characters, arrays as sequences of elements.
pub enum ValueView {
    Int(i32),
    Bool(bool),
    Double(Double),
    Complex(Complex),
    Text(Seq<char>),
    IntArray(Seq<i32>),
    DoubleArray(Seq<Double>),
    ComplexArray(Seq<Complex>),
}

impl View for Value {
    type V = ValueView;

    open spec fn view(&self) -> ValueView {
        match self {
            Value::Int(x) => ValueView::Int(*x),
            Value::Bool(x) => ValueView::Bool(*x),
            Value::Double(x) => ValueView::Double(*x),
            Value::Complex(x) => ValueView::Complex(*x),
            Value::Text(s) => ValueView::Text(s@),
            Value::IntArray(v) => ValueView::IntArray(v@),
            Value::DoubleArray(v) => ValueView::DoubleArray(v@),
            Value::ComplexArray(v) => ValueView::ComplexArray(v@),
        }
    }
}

/// The type tag that each stored value carries.
pub open spec fn tag_of(v: ValueView) -> datablock_type_t {
    match v {
        ValueView::Int(_) => datablock_type_t::DBT_INT,
        ValueView::Bool(_) => datablock_type_t::DBT_BOOL,
        ValueView::Double(_) => datablock_type_t::DBT_DOUBLE,
        ValueView::Complex(_) => datablock_type_t::DBT_COMPLEX,
        ValueView::Text(_) => datablock_type_t::DBT_STRING,
        ValueView::IntArray(_) => datablock_type_t::DBT_INT1D,
        ValueView::DoubleArray(_) => datablock_type_t::DBT_DOUBLE1D,
        ValueView::ComplexArray(_) => datablock_type_t::DBT_COMPLEX1D,
    }
}

impl Value {
    /// The type tag of this value.
    pub fn type_tag(&self) -> (t: datablock_type_t)
        ensures
            t == tag_of(self@),
    {
        match self {
            Value::Int(_) => datablock_type_t::DBT_INT,
            Value::Bool(_) => datablock_type_t::DBT_BOOL,
            Value::Double(_) => datablock_type_t::DBT_DOUBLE,
            Value::Complex(_) => datablock_type_t::DBT_COMPLEX,
            Value::Text(_) => datablock_type_t::DBT_STRING,
            Value::IntArray(_) => datablock_type_t::DBT_INT1D,
            Value::DoubleArray(_) => datablock_type_t::DBT_DOUBLE1D,
            Value::ComplexArray(_) => datablock_type_t::DBT_COMPLEX1D,
        }
    }
}

impl Clone for Value {
    /// A deep copy holding the same value.
    fn clone(&self) -> (r: Self)
        ensures
            r@ == self@,
    {
        match self {
            Value::Int(x) => Value::Int(*x),
            Value::Bool(x) => Value::Bool(*x),
            Value::Double(x) => Value::Double(*x),
            Value::Complex(x) => Value::Complex(*x),
            Value::Text(s) => Value::Text(s.clone()),
            Value::IntArray(v) => {
                let c = v.clone();
                proof {
                    assert(c@ =~= v@);
                }
                Value::IntArray(c)
            },
            Value::DoubleArray(v) => {
                let c = v.clone();
                proof {
                    assert(c@ =~= v@);
                }
                Value::DoubleArray(c)
            },
            Value::ComplexArray(v) => {
                let c = v.clone();
                proof {
                    assert(c@ =~= v@);
                }
                Value::ComplexArray(c)
            },
        }
    }
}

} // verus!
