//! Records as the checks see them: named fields whose values are texts or
//! numbers, some of them absent.

use vstd::prelude::*;
use vstd::string::*;
use crate::number::Double;
use crate::text::{text_eq, views};

verus! {

/// The value of a field that is present.
#[derive(Clone, Debug, PartialEq)]
pub enum Value {
    /// A text.
    Text(String),
    /// A primitive number, as the double that it casts to.
    Number(Double),
    /// A primitive floating-point value that is no number.
    NotANumber,
    /// A value of the decimal type, as the double that it converts to; `None`
    /// where it converts to none.
    Decimal(Option<Double>),
}

/// The mathematical form of a value. A number is its key in the numeric
/// order.
pub enum ValueView {
    Text(Seq<char>),
    Number(int),
    NotANumber,
    Decimal(Option<int>),
}

impl View for Value {
    type V = ValueView;

    open spec fn view(&self) -> ValueView {
        match self {
            Value::Text(text) => ValueView::Text(text@),
            Value::Number(number) => ValueView::Number(number@),
            Value::NotANumber => ValueView::NotANumber,
            Value::Decimal(Some(number)) => ValueView::Decimal(Some(number@)),
            Value::Decimal(None) => ValueView::Decimal(None),
        }
    }
}

/// Whether two values compare equal: two texts of the same characters, or two
/// numbers of one kind at the same place in the numeric order. What is no
/// number equals nothing, itself included.
pub open spec fn values_equal(a: ValueView, b: ValueView) -> bool {
    match (a, b) {
        (ValueView::Text(x), ValueView::Text(y)) => x == y,
        (ValueView::Number(x), ValueView::Number(y)) => x == y,
        (ValueView::Decimal(Some(x)), ValueView::Decimal(Some(y))) => x == y,
        _ => false,
    }
}

impl Value {
    /// Whether this value compares equal to the other.
    pub fn equals(&self, other: &Value) -> (same: bool)
        ensures
            same == values_equal(self@, other@),
    {
        match (self, other) {
            (Value::Text(x), Value::Text(y)) => text_eq(x.as_str(), y.as_str()),
            (Value::Number(x), Value::Number(y)) => x.le(*y) && y.le(*x),
            (Value::Decimal(Some(x)), Value::Decimal(Some(y))) => x.le(*y) && y.le(*x),
            _ => false,
        }
    }
}

/// One field of a record: its name, and its value where it has one. A field
/// of optional type that is absent has none.
#[derive(Clone, Debug, PartialEq)]
pub struct Entry {
    pub name: String,
    pub value: Option<Value>,
}

/// The mathematical form of a field.
pub struct EntryView {
    pub name: Seq<char>,
    pub value: Option<ValueView>,
}

impl View for Entry {
    type V = EntryView;

    open spec fn view(&self) -> EntryView {
        EntryView {
            name: self.name@,
            value: match self.value {
                Some(value) => Some(value@),
                None => None,
            },
        }
    }
}

/// An instance of a record: its fields in declaration order.
#[derive(Clone, Debug, PartialEq)]
pub struct Record {
    pub fields: Vec<Entry>,
}

impl View for Record {
    type V = Seq<EntryView>;

    open spec fn view(&self) -> Seq<EntryView> {
        views(self.fields@)
    }
}

/// The value of the first field of that name from position `from` on; `None`
/// where that field is absent or there is none of that name.
pub open spec fn lookup_from(record: Seq<EntryView>, name: Seq<char>, from: int) -> Option<
    ValueView,
>
    decreases record.len() - from,
{
    if from < 0 || from >= record.len() {
        None
    } else if record[from].name == name {
        record[from].value
    } else {
        lookup_from(record, name, from + 1)
    }
}

/// The value of the field of that name; `None` where the field is absent or
/// the record has none of that name.
pub open spec fn lookup(record: Seq<EntryView>, name: Seq<char>) -> Option<ValueView> {
    lookup_from(record, name, 0)
}

impl Record {
    /// The value of the named field, where it is present.
    pub fn get(&self, name: &str) -> (value: Option<&Value>)
        ensures
            match value {
                Some(found) => lookup(self@, name@) == Some(found@),
                None => lookup(self@, name@) is None,
            },
    {
        let mut i: usize = 0;
        while i < self.fields.len()
            invariant
                i <= self.fields.len(),
                lookup(self@, name@) == lookup_from(self@, name@, i as int),
            decreases self.fields.len() - i,
        {
            if text_eq(self.fields[i].name.as_str(), name) {
                return match &self.fields[i].value {
                    Some(value) => Some(value),
                    None => None,
                };
            }
            i = i + 1;
        }
        None
    }
}

} // verus!
