//! The value model: tagged runtime values, their declared types, and
//! engineering units.

use vstd::prelude::*;

verus! {

/// The declared type of a tag, fixed at creation; every stored value must
/// match it.
#[derive(Clone, Copy, PartialEq, Eq, Structural, Debug, Hash)]
pub enum DataType {
    Integer,
    Float,
    Boolean,
    String,
}

/// An engineering unit. A label only: no conversion or arithmetic.
#[derive(Clone, Copy, PartialEq, Eq, Structural, Debug, Hash)]
pub enum Unit {
    NoUnit,
    Percent,
    Volt,
    Ampere,
    Degree,
    Radian,
    Celsius,
    Kelvin,
    Metre,
    Kilogram,
    Second,
}

impl Default for Unit {
    fn default() -> (r: Self)
        ensures
            r == Unit::NoUnit,
    {
        Unit::NoUnit
    }
}

/// A runtime value carried by a tag.
///
/// The `Float` arm holds the IEEE-754 bit pattern of a 32-bit float, so that
/// the value model stays over plain integers; equality on it is equality of
/// bit patterns.
#[derive(Debug)]
pub enum Value {
    Integer(i64),
    Float(u32),
    Boolean(bool),
    String(String),
}

/// The mathematical model of a `Value`.
pub enum ValueView {
    Integer(i64),
    Float(u32),
    Boolean(bool),
    String(Seq<char>),
}

impl ValueView {
    /// The declared type that this value conforms to.
    pub open spec fn data_type(self) -> DataType {
        match self {
            ValueView::Integer(_) => DataType::Integer,
            ValueView::Float(_) => DataType::Float,
            ValueView::Boolean(_) => DataType::Boolean,
            ValueView::String(_) => DataType::String,
        }
    }

    /// The zero value of each declared type: 0, 0.0 (whose bit pattern is 0),
    /// false, the empty string.
    pub open spec fn default_for(data_type: DataType) -> ValueView {
        match data_type {
            DataType::Integer => ValueView::Integer(0),
            DataType::Float => ValueView::Float(0),
            DataType::Boolean => ValueView::Boolean(false),
            DataType::String => ValueView::String(Seq::empty()),
        }
    }
}

impl View for Value {
    type V = ValueView;

    open spec fn view(&self) -> ValueView {
        match self {
            Value::Integer(i) => ValueView::Integer(*i),
            Value::Float(bits) => ValueView::Float(*bits),
            Value::Boolean(b) => ValueView::Boolean(*b),
            Value::String(s) => ValueView::String(s@),
        }
    }
}

impl Clone for Value {
    fn clone(&self) -> (res: Self)
        ensures
            res@ == self@,
    {
        match self {
            Value::Integer(i) => Value::Integer(*i),
            Value::Float(bits) => Value::Float(*bits),
            Value::Boolean(b) => Value::Boolean(*b),
            Value::String(s) => Value::String(s.clone()),
        }
    }
}

impl PartialEq for Value {
    fn eq(&self, other: &Self) -> bool {
        match (self, other) {
            (Value::Integer(a), Value::Integer(b)) => *a == *b,
            (Value::Float(a), Value::Float(b)) => *a == *b,
            (Value::Boolean(a), Value::Boolean(b)) => *a == *b,
            (Value::String(a), Value::String(b)) => *a == *b,
            _ => false,
        }
    }
}

impl vstd::std_specs::cmp::PartialEqSpecImpl for Value {
    open spec fn obeys_eq_spec() -> bool {
        true
    }

    open spec fn eq_spec(&self, other: &Value) -> bool {
        self@ == other@
    }
}

impl Value {
    /// The runtime-resolvable declared type of this value.
    pub fn get_data_type(&self) -> (r: DataType)
        ensures
            r == self@.data_type(),
    {
        match self {
            Value::Integer(_) => DataType::Integer,
            Value::Float(_) => DataType::Float,
            Value::Boolean(_) => DataType::Boolean,
            Value::String(_) => DataType::String,
        }
    }

    /// The zero of the given declared type.
    pub fn default_with_data_type(data_type: DataType) -> (r: Self)
        ensures
            r@ == ValueView::default_for(data_type),
            r@.data_type() == data_type,
    {
        match data_type {
            DataType::Integer => Value::Integer(0),
            DataType::Float => Value::Float(0),
            DataType::Boolean => Value::Boolean(false),
            DataType::String => Value::String(String::new()),
        }
    }
}

impl DataType {
    /// The name of the declared type, as it appears on the wire.
    pub fn name(&self) -> (r: String)
        ensures
            r@ == self.name_spec(),
    {
        match self {
            DataType::Integer => "Integer".to_string(),
            DataType::Float => "Float".to_string(),
            DataType::Boolean => "Boolean".to_string(),
            DataType::String => "String".to_string(),
        }
    }

    /// The variant name of each declared type.
    pub open spec fn name_spec(self) -> Seq<char> {
        match self {
            DataType::Integer => "Integer"@,
            DataType::Float => "Float"@,
            DataType::Boolean => "Boolean"@,
            DataType::String => "String"@,
        }
    }
}

} // verus!
