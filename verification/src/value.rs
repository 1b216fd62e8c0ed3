//! The structured values that tasks carry and that cross the runtime boundary.

use vstd::prelude::*;
use vstd::slice::slice_to_vec;

verus! {

/// The shape of a [`Value`]; an envelope names it in its type tag.
#[derive(Debug, Clone, Copy, PartialEq, Eq, Structural)]
pub enum ValueType {
    Null,
    Bool,
    Int,
    Text,
    Bytes,
    List,
}

impl ValueType {
    /// The type tag that stands for this type in an envelope.
    pub open spec fn spec_tag(self) -> Seq<char> {
        match self {
            ValueType::Null => "null"@,
            ValueType::Bool => "bool"@,
            ValueType::Int => "int"@,
            ValueType::Text => "text"@,
            ValueType::Bytes => "bytes"@,
            ValueType::List => "list"@,
        }
    }

    /// The type tag that stands for this type in an envelope.
    pub fn tag(&self) -> (r: &'static str)
        ensures
            r@ == self.spec_tag(),
    {
        match self {
            ValueType::Null => "null",
            ValueType::Bool => "bool",
            ValueType::Int => "int",
            ValueType::Text => "text",
            ValueType::Bytes => "bytes",
            ValueType::List => "list",
        }
    }
}

/// A value that can be exchanged between the two runtimes. Lists nest to
/// any depth.
#[derive(Debug, PartialEq, Eq)]
pub enum Value {
    Null,
    Bool(bool),
    Int(i64),
    Text(String),
    Bytes(Vec<u8>),
    List(Vec<Value>),
}

/// Mathematical model of a [`Value`].
pub enum ValueView {
    Null,
    Bool(bool),
    Int(i64),
    Text(Seq<char>),
    Bytes(Seq<u8>),
    List(Seq<ValueView>),
}

impl ValueView {
    pub open spec fn value_type(self) -> ValueType {
        match self {
            ValueView::Null => ValueType::Null,
            ValueView::Bool(_) => ValueType::Bool,
            ValueView::Int(_) => ValueType::Int,
            ValueView::Text(_) => ValueType::Text,
            ValueView::Bytes(_) => ValueType::Bytes,
            ValueView::List(_) => ValueType::List,
        }
    }
}

impl View for Value {
    type V = ValueView;

    open spec fn view(&self) -> ValueView {
        self.model()
    }
}

impl Value {
    /// The mathematical value that this value stands for.
    pub open spec fn model(&self) -> ValueView
        decreases self,
    {
        match self {
            Value::Null => ValueView::Null,
            Value::Bool(b) => ValueView::Bool(*b),
            Value::Int(i) => ValueView::Int(*i),
            Value::Text(s) => ValueView::Text(s@),
            Value::Bytes(b) => ValueView::Bytes(b@),
            Value::List(items) => ValueView::List(
                Seq::new(
                    items@.len(),
                    |k: int|
                        if 0 <= k < items@.len() {
                            items@[k].model()
                        } else {
                            ValueView::Null
                        },
                ),
            ),
        }
    }

    /// The shape of this value.
    pub fn value_type(&self) -> (t: ValueType)
        ensures
            t == self@.value_type(),
    {
        match self {
            Value::Null => ValueType::Null,
            Value::Bool(_) => ValueType::Bool,
            Value::Int(_) => ValueType::Int,
            Value::Text(_) => ValueType::Text,
            Value::Bytes(_) => ValueType::Bytes,
            Value::List(_) => ValueType::List,
        }
    }

    /// An independent copy of the value.
    pub fn duplicate(&self) -> (r: Value)
        ensures
            r@ == self@,
        decreases self, 0int,
    {
        match self {
            Value::Null => Value::Null,
            Value::Bool(b) => Value::Bool(*b),
            Value::Int(i) => Value::Int(*i),
            Value::Text(s) => Value::Text(s.clone()),
            Value::Bytes(b) => Value::Bytes(slice_to_vec(b.as_slice())),
            Value::List(items) => {
                let r = Value::List(Self::duplicate_all(items));
                assert(r@->List_0 =~= self@->List_0);
                r
            },
        }
    }

    /// Independent copies of a run of values, in order.
    pub fn duplicate_all(items: &Vec<Value>) -> (copies: Vec<Value>)
        ensures
            copies@.len() == items@.len(),
            forall|k: int| 0 <= k < items@.len() ==> (#[trigger] copies@[k])@ == items@[k]@,
        decreases items, 1int,
    {
        let mut copies: Vec<Value> = Vec::new();
        let mut i: usize = 0;
        while i < items.len()
            invariant
                i <= items.len(),
                copies@.len() == i,
                forall|k: int| 0 <= k < i ==> (#[trigger] copies@[k])@ == items@[k]@,
            decreases items.len() - i,
        {
            copies.push(items[i].duplicate());
            i += 1;
        }
        copies
    }
}

/// What a run of values holds, value by value.
pub open spec fn value_views(values: Seq<Value>) -> Seq<ValueView> {
    values.map_values(|value: Value| value@)
}

/// A list stands for the values that its items stand for.
pub proof fn lemma_list_view(items: Vec<Value>)
    ensures
        Value::List(items)@ == ValueView::List(value_views(items@)),
{
    assert(Value::List(items)@->List_0 =~= value_views(items@));
}

impl Clone for Value {
    fn clone(&self) -> Self {
        self.duplicate()
    }
}

} // verus!
