//! Values at run time and their types.
use vstd::prelude::*;
use vstd::string::*;

verus! {

/// A value at run time. A number is held as the bit pattern of an IEEE 754
/// double; arithmetic on it is the evaluator's business. A column stands for
/// a whole column of values of one type and holds one value of that type.
#[derive(Debug)]
pub enum Value {
    Number(u64),
    String(String),
    Boolean(bool),
    Array(Vec<Value>),
    Column(Box<Value>),
    Null,
}

/// The type of a value. A column carries the type of its elements.
#[derive(Debug)]
pub enum ValueType {
    Number,
    String,
    Boolean,
    Array,
    Column(Box<ValueType>),
    Null,
}

impl ValueType {
    /// The name of the type, as it stands in messages.
    pub open spec fn name_text(self) -> Seq<char>
        decreases self,
    {
        match self {
            ValueType::Number => "Number"@,
            ValueType::String => "String"@,
            ValueType::Boolean => "Boolean"@,
            ValueType::Array => "Array"@,
            ValueType::Column(element) => "Column("@ + element.name_text() + ")"@,
            ValueType::Null => "Null"@,
        }
    }

    /// The name of the type, as it stands in messages.
    pub fn name(&self) -> (s: String)
        ensures
            s@ == self.name_text(),
        decreases self,
    {
        match self {
            ValueType::Number => String::from_str("Number"),
            ValueType::String => String::from_str("String"),
            ValueType::Boolean => String::from_str("Boolean"),
            ValueType::Array => String::from_str("Array"),
            ValueType::Column(element) => {
                let mut s = String::from_str("Column(");
                let inner = element.name();
                s.append(inner.as_str());
                s.append(")");
                s
            },
            ValueType::Null => String::from_str("Null"),
        }
    }

    /// A copy of the type.
    pub fn duplicate(&self) -> (copy: ValueType)
        ensures
            copy == *self,
        decreases self,
    {
        match self {
            ValueType::Number => ValueType::Number,
            ValueType::String => ValueType::String,
            ValueType::Boolean => ValueType::Boolean,
            ValueType::Array => ValueType::Array,
            ValueType::Column(element) => ValueType::Column(Box::new(element.duplicate())),
            ValueType::Null => ValueType::Null,
        }
    }

    /// Whether this is the type of a plain number.
    pub fn is_number(&self) -> (b: bool)
        ensures
            b == (*self == ValueType::Number),
    {
        match self {
            ValueType::Number => true,
            _ => false,
        }
    }
}

impl Clone for ValueType {
    fn clone(&self) -> (copy: ValueType)
        ensures
            copy == *self,
    {
        self.duplicate()
    }
}

impl Value {
    /// The type of the value.
    pub open spec fn type_of(self) -> ValueType
        decreases self,
    {
        match self {
            Value::Number(_) => ValueType::Number,
            Value::String(_) => ValueType::String,
            Value::Boolean(_) => ValueType::Boolean,
            Value::Array(_) => ValueType::Array,
            Value::Column(element) => ValueType::Column(Box::new(element.type_of())),
            Value::Null => ValueType::Null,
        }
    }

    /// The type of the value.
    pub fn value_type(&self) -> (t: ValueType)
        ensures
            t == self.type_of(),
        decreases self,
    {
        match self {
            Value::Number(_) => ValueType::Number,
            Value::String(_) => ValueType::String,
            Value::Boolean(_) => ValueType::Boolean,
            Value::Array(_) => ValueType::Array,
            Value::Column(element) => ValueType::Column(Box::new(element.value_type())),
            Value::Null => ValueType::Null,
        }
    }
}

} // verus!
