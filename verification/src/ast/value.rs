//! GraphQL input values.

use vstd::prelude::*;
use vstd::string::StringExecFns;

use super::base::{opt_str_view, HasPos, Ident, Pos};
use super::variable::Variable;

verus! {

/// A GraphQL Value.
#[derive(Debug)]
pub enum Value<'a> {
    Variable(Variable<'a>),
    IntValue(IntValue<'a>),
    FloatValue(FloatValue<'a>),
    StringValue(StringValue),
    BooleanValue(BooleanValue<'a>),
    NullValue(NullValue<'a>),
    EnumValue(EnumValue<'a>),
    ListValue(ListValue<'a>),
    ObjectValue(ObjectValue<'a>),
}

impl<'a> Value<'a> {
    /// Name carried by a value: the variable name or the enum member.
    pub open spec fn spec_name(self) -> Option<Seq<char>> {
        match self {
            Value::Variable(v) => Some(v.name@),
            Value::EnumValue(v) => Some(v.value@),
            _ => None,
        }
    }

    /// Start position of a value.
    pub open spec fn spec_position(self) -> Pos {
        match self {
            Value::Variable(v) => v.position,
            Value::BooleanValue(v) => v.position,
            Value::IntValue(v) => v.position,
            Value::FloatValue(v) => v.position,
            Value::StringValue(v) => v.position,
            Value::NullValue(v) => v.position,
            Value::EnumValue(v) => v.position,
            Value::ListValue(v) => v.position,
            Value::ObjectValue(v) => v.position,
        }
    }
}

impl HasPos for Value<'_> {
    fn name(&self) -> (r: Option<&str>)
        ensures
            opt_str_view(r) == self.spec_name(),
    {
        match self {
            Value::Variable(v) => Some(v.name),
            Value::EnumValue(v) => Some(v.value),
            _ => None,
        }
    }

    fn position(&self) -> (r: &Pos)
        ensures
            *r == self.spec_position(),
    {
        match self {
            Value::Variable(v) => &v.position,
            Value::BooleanValue(v) => &v.position,
            Value::IntValue(v) => &v.position,
            Value::FloatValue(v) => &v.position,
            Value::StringValue(v) => &v.position,
            Value::NullValue(v) => &v.position,
            Value::EnumValue(v) => &v.position,
            Value::ListValue(v) => &v.position,
            Value::ObjectValue(v) => &v.position,
        }
    }
}

/// The text of a value in GraphQL syntax: list items and object fields are separated by a
/// comma without space, and string contents are put between quotes as they are.
pub open spec fn value_text<'a>(v: Value<'a>) -> Seq<char>
    decreases v, 1nat, 0nat,
{
    match v {
        Value::BooleanValue(b) => if b.value {
            "true"@
        } else {
            "false"@
        },
        Value::IntValue(i) => i.value@,
        Value::FloatValue(f) => f.value@,
        Value::StringValue(s) => "\""@ + s.value@ + "\""@,
        Value::EnumValue(e) => e.value@,
        Value::NullValue(_) => "null"@,
        Value::Variable(x) => "$"@ + x.name@,
        Value::ListValue(l) => {
            proof {
                assert(decreases_to!(v => v->ListValue_0));
                assert(decreases_to!(l => l.values));
                assert(decreases_to!(l.values => l.values@));
            }
            "["@ + items_text(l.values@, l.values@.len()) + "]"@
        },
        Value::ObjectValue(o) => {
            proof {
                assert(decreases_to!(v => v->ObjectValue_0));
                assert(decreases_to!(o => o.fields));
                assert(decreases_to!(o.fields => o.fields@));
            }
            "{"@ + fields_text(o.fields@, o.fields@.len()) + "}"@
        },
    }
}

/// The texts of the first `n` items of a list value, separated by commas.
pub open spec fn items_text<'a>(values: Seq<Value<'a>>, n: nat) -> Seq<char>
    decreases values, 0nat, n,
{
    if n == 0 || n > values.len() {
        Seq::empty()
    } else {
        items_text(values, (n - 1) as nat) + (if n > 1 {
            ","@
        } else {
            Seq::empty()
        }) + value_text(values[n - 1])
    }
}

/// The texts of the first `n` fields of an object value, `name: value`, separated by commas.
pub open spec fn fields_text<'a>(fields: Seq<(Ident<'a>, Value<'a>)>, n: nat) -> Seq<char>
    decreases fields, 0nat, n,
{
    if n == 0 || n > fields.len() {
        Seq::empty()
    } else {
        proof {
            assert(decreases_to!(fields => fields[n - 1]));
            assert(decreases_to!(fields[n - 1] => fields[n - 1].1));
        }
        fields_text(fields, (n - 1) as nat) + (if n > 1 {
            ","@
        } else {
            Seq::empty()
        }) + fields[n - 1].0.name@ + ": "@ + value_text(fields[n - 1].1)
    }
}

impl<'a> Value<'a> {
    /// The text of this value in GraphQL syntax.
    pub fn to_string(&self) -> (r: String)
        ensures
            r@ == value_text(*self),
        decreases *self,
    {
        let mut out = String::new();
        match self {
            Value::BooleanValue(b) => {
                if b.value {
                    out.append("true");
                } else {
                    out.append("false");
                }
            },
            Value::IntValue(i) => {
                out.append(i.value);
            },
            Value::FloatValue(f) => {
                out.append(f.value);
            },
            Value::StringValue(s) => {
                // escaping is not done
                out.append("\"");
                out.append(s.value.as_str());
                out.append("\"");
            },
            Value::EnumValue(e) => {
                out.append(e.value);
            },
            Value::NullValue(_) => {
                out.append("null");
            },
            Value::Variable(x) => {
                out.append("$");
                out.append(x.name);
            },
            Value::ListValue(l) => {
                out.append("[");
                let ghost start = out@;
                let mut i: usize = 0;
                while i < l.values.len()
                    invariant
                        i <= l.values@.len(),
                        *self == Value::ListValue(*l),
                        start == "["@,
                        out@ == start + items_text(l.values@, i as nat),
                    decreases l.values@.len() - i,
                {
                    if i > 0 {
                        out.append(",");
                    }
                    proof {
                        assert(decreases_to!(*self => (*self)->ListValue_0));
                        assert(decreases_to!(*l => l.values));
                        assert(decreases_to!(l.values => l.values@));
                        assert(decreases_to!(l.values@ => l.values@[i as int]));
                    }
                    let item = l.values[i].to_string();
                    out.append(item.as_str());
                    assert(out@ =~= start + items_text(l.values@, (i + 1) as nat));
                    i += 1;
                }
                out.append("]");
            },
            Value::ObjectValue(o) => {
                out.append("{");
                let ghost start = out@;
                let mut i: usize = 0;
                while i < o.fields.len()
                    invariant
                        i <= o.fields@.len(),
                        *self == Value::ObjectValue(*o),
                        start == "{"@,
                        out@ == start + fields_text(o.fields@, i as nat),
                    decreases o.fields@.len() - i,
                {
                    if i > 0 {
                        out.append(",");
                    }
                    proof {
                        assert(decreases_to!(*self => (*self)->ObjectValue_0));
                        assert(decreases_to!(*o => o.fields));
                        assert(decreases_to!(o.fields => o.fields@));
                        assert(decreases_to!(o.fields@ => o.fields@[i as int]));
                        assert(decreases_to!(o.fields@[i as int] => o.fields@[i as int].1));
                    }
                    out.append(o.fields[i].0.name);
                    out.append(": ");
                    let item = o.fields[i].1.to_string();
                    out.append(item.as_str());
                    assert(out@ =~= start + fields_text(o.fields@, (i + 1) as nat));
                    i += 1;
                }
                out.append("}");
            },
        }
        out
    }
}

#[derive(Copy, Clone, Debug)]
pub struct IntValue<'a> {
    pub position: Pos,
    pub value: &'a str,
}

#[derive(Copy, Clone, Debug)]
pub struct FloatValue<'a> {
    pub position: Pos,
    pub value: &'a str,
}

#[derive(Clone, Debug)]
pub struct StringValue {
    pub position: Pos,
    /// Parsed value of string literal
    pub value: String,
}

impl StringValue {
    /// The parsed content of the string literal.
    pub fn as_str(&self) -> (r: &str)
        ensures
            r@ == self.value@,
    {
        self.value.as_str()
    }
}

#[derive(Copy, Clone, Debug)]
pub struct BooleanValue<'a> {
    pub position: Pos,
    pub keyword: &'a str,
    pub value: bool,
}

#[derive(Copy, Clone, Debug)]
pub struct NullValue<'a> {
    pub position: Pos,
    pub keyword: &'a str,
}

#[derive(Copy, Clone, Debug)]
pub struct EnumValue<'a> {
    pub position: Pos,
    pub value: &'a str,
}

#[derive(Debug)]
pub struct ListValue<'a> {
    pub position: Pos,
    pub values: Vec<Value<'a>>,
}

#[derive(Debug)]
pub struct ObjectValue<'a> {
    pub position: Pos,
    pub fields: Vec<(Ident<'a>, Value<'a>)>,
}

#[derive(Debug)]
pub struct Arguments<'a> {
    pub position: Pos,
    pub arguments: Vec<(Ident<'a>, Value<'a>)>,
}

} // verus!
