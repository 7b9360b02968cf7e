//! Parameter schemas and the validation of payloads against them.

use crate::names::first_of_is_least;
use crate::payload::{field_names, lookup, Fields, Payload, Value, ValueView};
use vstd::prelude::*;

verus! {

/// The type that a parameter is declared with.
#[derive(Debug, Clone, Copy, PartialEq, Eq, Structural)]
pub enum ParamKind {
    /// A signed integer of 32 bits.
    Integer,
    /// A string.
    Text,
}

/// One required parameter of a tool.
#[derive(Debug, Clone, PartialEq)]
pub struct ParamSpec {
    pub name: String,
    pub kind: ParamKind,
}

/// The static metadata of a tool.
#[derive(Debug, Clone, PartialEq)]
pub struct ToolDescriptor {
    pub name: String,
    pub description: String,
    pub schema: Vec<ParamSpec>,
}

/// The mathematical value of a schema: each parameter's name and type.
pub type Shape = Seq<(Seq<char>, ParamKind)>;

/// The mathematical value of a descriptor.
pub struct DescriptorView {
    pub name: Seq<char>,
    pub description: Seq<char>,
    pub shape: Shape,
}

/// The shape that a list of parameters declares.
pub open spec fn shape(schema: Seq<ParamSpec>) -> Shape {
    Seq::new(schema.len(), |i: int| (schema[i].name@, schema[i].kind))
}

impl View for ToolDescriptor {
    type V = DescriptorView;

    open spec fn view(&self) -> DescriptorView {
        DescriptorView {
            name: self.name@,
            description: self.description@,
            shape: shape(self.schema@),
        }
    }
}

/// Whether `v` is of the declared type.
pub open spec fn has_kind(v: ValueView, kind: ParamKind) -> bool {
    match kind {
        ParamKind::Integer => v matches ValueView::Integer(i) && i32::MIN <= i <= i32::MAX,
        ParamKind::Text => v is Text,
    }
}

/// Whether the fields hold the parameter: a field of its name whose value is
/// of its type.
pub open spec fn holds(fields: Fields, param: (Seq<char>, ParamKind)) -> bool {
    match lookup(fields, param.0) {
        Some(v) => has_kind(v, param.1),
        None => false,
    }
}

/// Whether the fields hold every parameter of the shape. Fields that the
/// shape does not name are not looked at.
pub open spec fn conforms(fields: Fields, shape: Shape) -> bool {
    forall|i: int| 0 <= i < shape.len() ==> holds(fields, #[trigger] shape[i])
}

/// Fields without one of a parameter's name do not conform.
pub proof fn missing_field_does_not_conform(fields: Fields, shape: Shape, i: int)
    requires
        0 <= i < shape.len(),
        !field_names(fields).contains(shape[i].0),
    ensures
        !conforms(fields, shape),
{
    first_of_is_least(field_names(fields), shape[i].0, 0);
    assert(!holds(fields, shape[i]));
}

/// Fields beyond those that a shape names change nothing: what conforms
/// still conforms when a field is added at the end.
pub proof fn extra_field_is_ignored(fields: Fields, shape: Shape, extra: (Seq<char>, ValueView))
    requires
        conforms(fields, shape),
    ensures
        conforms(fields.push(extra), shape),
{
    let more = fields.push(extra);
    assert forall|i: int| 0 <= i < shape.len() implies holds(more, #[trigger] shape[i]) by {
        let key = shape[i].0;
        assert(holds(fields, shape[i]));
        first_of_is_least(field_names(fields), key, 0);
        first_of_is_least(field_names(more), key, 0);
        let at = crate::names::first_of(field_names(fields), key, 0).unwrap();
        assert(field_names(more)[at] == key);
        let found = crate::names::first_of(field_names(more), key, 0).unwrap();
        assert(found <= at);
        assert(field_names(fields)[found] == key);
        assert(found == at);
        assert(more[at] == fields[at]);
    }
}

/// Whether `v` is of the declared type.
pub fn value_has_kind(v: &Value, kind: ParamKind) -> (b: bool)
    ensures
        b == has_kind(v@, kind),
{
    match kind {
        ParamKind::Integer => match v {
            Value::Integer(i) => -2147483648 <= *i && *i <= 2147483647,
            _ => false,
        },
        ParamKind::Text => match v {
            Value::Text(_) => true,
            _ => false,
        },
    }
}

/// Validates a payload against a schema.
pub fn validate(payload: &Payload, schema: &Vec<ParamSpec>) -> (ok: bool)
    ensures
        ok == conforms(payload@, shape(schema@)),
{
    let mut i: usize = 0;
    while i < schema.len()
        invariant
            i <= schema@.len(),
            forall|j: int| 0 <= j < i ==> holds(payload@, #[trigger] shape(schema@)[j]),
        decreases schema.len() - i,
    {
        let found = match payload.get(schema[i].name.as_str()) {
            Some(v) => value_has_kind(v, schema[i].kind),
            None => false,
        };
        assert(found == holds(payload@, shape(schema@)[i as int]));
        if !found {
            return false;
        }
        i += 1;
    }
    true
}

} // verus!
