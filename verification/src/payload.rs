//! The untyped payload of a call: named values, read by name.

use crate::names::{first_of, first_of_is_least};
use vstd::prelude::*;

verus! {

/// One value of a payload. `Other` stands for every value that no tool reads:
/// a fraction, a whole number that no `i64` holds, a list or a nested object.
#[derive(Debug, Clone, PartialEq)]
pub enum Value {
    Null,
    Bool(bool),
    Integer(i64),
    Text(String),
    Other,
}

/// A named value.
#[derive(Debug, Clone, PartialEq)]
pub struct Field {
    pub name: String,
    pub value: Value,
}

/// The payload of one call: its fields in the order in which they were given.
/// A name that occurs more than once is read at its first occurrence.
#[derive(Debug, Clone, PartialEq)]
pub struct Payload {
    pub fields: Vec<Field>,
}

/// The mathematical value of a `Value`.
pub enum ValueView {
    Null,
    Bool(bool),
    Integer(int),
    Text(Seq<char>),
    Other,
}

/// The mathematical value of a payload: names and values, in order.
pub type Fields = Seq<(Seq<char>, ValueView)>;

impl View for Value {
    type V = ValueView;

    open spec fn view(&self) -> ValueView {
        match *self {
            Value::Null => ValueView::Null,
            Value::Bool(b) => ValueView::Bool(b),
            Value::Integer(i) => ValueView::Integer(i as int),
            Value::Text(s) => ValueView::Text(s@),
            Value::Other => ValueView::Other,
        }
    }
}

impl View for Field {
    type V = (Seq<char>, ValueView);

    open spec fn view(&self) -> (Seq<char>, ValueView) {
        (self.name@, self.value@)
    }
}

impl View for Payload {
    type V = Fields;

    open spec fn view(&self) -> Fields {
        Seq::new(self.fields@.len(), |i: int| self.fields@[i]@)
    }
}

/// The names of the fields, in order.
pub open spec fn field_names(fields: Fields) -> Seq<Seq<char>> {
    Seq::new(fields.len(), |i: int| fields[i].0)
}

/// The value read under `key`: that of the first field of that name.
pub open spec fn lookup(fields: Fields, key: Seq<char>) -> Option<ValueView> {
    match first_of(field_names(fields), key, 0) {
        Some(i) => Some(fields[i].1),
        None => None,
    }
}

/// The integer under `key`, where there is one and it fits in 32 bits.
pub open spec fn integer_at(fields: Fields, key: Seq<char>) -> Option<int> {
    match lookup(fields, key) {
        Some(ValueView::Integer(i)) => if i32::MIN <= i <= i32::MAX {
            Some(i)
        } else {
            None
        },
        _ => None,
    }
}

/// The text under `key`, where there is one.
pub open spec fn text_at(fields: Fields, key: Seq<char>) -> Option<Seq<char>> {
    match lookup(fields, key) {
        Some(ValueView::Text(s)) => Some(s),
        _ => None,
    }
}

/// A field of another name, added after the others, changes nothing of what
/// is read under `key`.
pub proof fn lookup_ignores_other_names(
    fields: Fields,
    extra: (Seq<char>, ValueView),
    key: Seq<char>,
)
    requires
        extra.0 != key,
    ensures
        lookup(fields.push(extra), key) == lookup(fields, key),
{
    let more = fields.push(extra);
    let a = field_names(fields);
    let b = field_names(more);
    first_of_is_least(a, key, 0);
    first_of_is_least(b, key, 0);
    match first_of(a, key, 0) {
        Some(i) => {
            assert(b[i] == key);
            let j = first_of(b, key, 0).unwrap();
            assert(a[j] == b[j]);
            assert(more[i] == fields[i]);
        },
        None => {
            if first_of(b, key, 0) is Some {
                let j = first_of(b, key, 0).unwrap();
                if j < fields.len() {
                    assert(a[j] == b[j]);
                } else {
                    assert(b[j] == extra.0);
                }
            }
        },
    }
}

impl Payload {
    /// A payload without fields.
    pub fn new() -> (p: Payload)
        ensures
            p@ == Seq::<(Seq<char>, ValueView)>::empty(),
    {
        let p = Payload { fields: Vec::new() };
        assert(p@ =~= Seq::<(Seq<char>, ValueView)>::empty());
        p
    }

    /// Adds a field after those already there.
    pub fn push(&mut self, name: String, value: Value)
        ensures
            final(self)@ == old(self)@.push((name@, value@)),
    {
        self.fields.push(Field { name, value });
        assert(self@ =~= old(self)@.push((name@, value@)));
    }

    /// Reads the value under `key`.
    pub fn get(&self, key: &str) -> (r: Option<&Value>)
        ensures
            match r {
                Some(v) => lookup(self@, key@) == Some(v@),
                None => lookup(self@, key@) is None,
            },
    {
        let wanted = String::from_str(key);
        let ghost names = field_names(self@);
        let mut i: usize = 0;
        while i < self.fields.len()
            invariant
                i <= self.fields@.len(),
                wanted@ == key@,
                names == field_names(self@),
                names.len() == self.fields@.len(),
                first_of(names, key@, 0) == first_of(names, key@, i as int),
            decreases self.fields.len() - i,
        {
            assert(names[i as int] == self.fields@[i as int].name@);
            if self.fields[i].name == wanted {
                assert(self@[i as int].1 == self.fields@[i as int].value@);
                return Some(&self.fields[i].value);
            }
            i += 1;
        }
        None
    }

    /// Reads the 32-bit integer under `key`.
    pub fn get_integer(&self, key: &str) -> (r: Option<i32>)
        ensures
            match r {
                Some(n) => integer_at(self@, key@) == Some(n as int),
                None => integer_at(self@, key@) is None,
            },
    {
        match self.get(key) {
            Some(Value::Integer(i)) => {
                if -2147483648 <= *i && *i <= 2147483647 {
                    Some(*i as i32)
                } else {
                    None
                }
            },
            _ => None,
        }
    }

    /// Reads the text under `key`.
    pub fn get_text(&self, key: &str) -> (r: Option<&String>)
        ensures
            match r {
                Some(s) => text_at(self@, key@) == Some(s@),
                None => text_at(self@, key@) is None,
            },
    {
        match self.get(key) {
            Some(Value::Text(s)) => Some(s),
            _ => None,
        }
    }
}

} // verus!
