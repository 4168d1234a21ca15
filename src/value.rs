use vstd::prelude::*;

verus! {

/// A value that a name can be bound to.
///
/// `Nil` stands for the absence of a value: assigning it to a name removes
/// the name's binding, so a fallback namespace shows through again.
#[derive(Debug, PartialEq)]
pub enum Value {
    Nil,
    Boolean(bool),
    Integer(i64),
    Str(String),
    /// A value that only the interpreter can represent (a function, a
    /// table), known here by the handle the interpreter gave it.
    Foreign(u64),
}

impl Value {
    /// An independent copy of this value.
    pub fn duplicate(&self) -> (r: Value)
        ensures
            r == *self,
    {
        match self {
            Value::Nil => Value::Nil,
            Value::Boolean(b) => Value::Boolean(*b),
            Value::Integer(i) => Value::Integer(*i),
            Value::Str(s) => Value::Str(s.clone()),
            Value::Foreign(h) => Value::Foreign(*h),
        }
    }
}

} // verus!
