//! Raw values: what a call carries in and gives back, before a handler has
//! given its parameters a shape and after it has taken the shape off its
//! result.

use vstd::prelude::*;

verus! {

/// A raw value with no shape imposed on it.
#[derive(Debug, PartialEq, Eq)]
pub enum Value {
    Null,
    Bool(bool),
    Int(i64),
    /// A number that is no 64-bit integer, kept in its decimal spelling.
    Decimal(String),
    Text(String),
    List(Vec<Value>),
    Record(Vec<Field>),
}

/// One named member of a record.
#[derive(Debug, PartialEq, Eq)]
pub struct Field {
    pub name: String,
    pub value: Value,
}

/// The mathematical content of a [`Value`].
pub enum ValueView {
    Null,
    Bool(bool),
    Int(int),
    Decimal(Seq<char>),
    Text(Seq<char>),
    List(Seq<ValueView>),
    Record(Seq<FieldView>),
}

/// The mathematical content of a [`Field`].
pub struct FieldView {
    pub name: Seq<char>,
    pub value: ValueView,
}

impl View for Value {
    type V = ValueView;

    open spec fn view(&self) -> ValueView
        decreases self,
    {
        match self {
            Value::Null => ValueView::Null,
            Value::Bool(b) => ValueView::Bool(*b),
            Value::Int(i) => ValueView::Int(*i as int),
            Value::Decimal(s) => ValueView::Decimal(s@),
            Value::Text(s) => ValueView::Text(s@),
            Value::List(items) => ValueView::List(
                Seq::new(
                    items.len() as nat,
                    |i: int|
                        if 0 <= i < items.len() {
                            items[i].view()
                        } else {
                            ValueView::Null
                        },
                ),
            ),
            Value::Record(fields) => ValueView::Record(
                Seq::new(
                    fields.len() as nat,
                    |i: int|
                        if 0 <= i < fields.len() {
                            FieldView { name: fields[i].name@, value: fields[i].value.view() }
                        } else {
                            FieldView { name: Seq::empty(), value: ValueView::Null }
                        },
                ),
            ),
        }
    }
}

/// The contents of a list, member by member.
pub open spec fn contents<T: View>(items: Seq<T>) -> Seq<T::V> {
    Seq::new(items.len(), |i: int| items[i]@)
}

/// The members of a record, each with its name.
pub open spec fn fields_of(fields: Seq<Field>) -> Seq<FieldView> {
    Seq::new(fields.len(), |i: int| FieldView { name: fields[i].name@, value: fields[i].value@ })
}

/// The index of the first member called `name`, if there is one.
pub open spec fn position(fields: Seq<FieldView>, name: Seq<char>) -> Option<int>
    decreases fields.len(),
{
    if fields.len() == 0 {
        None
    } else if fields[0].name == name {
        Some(0)
    } else {
        match position(fields.drop_first(), name) {
            Some(i) => Some(i + 1),
            None => None,
        }
    }
}

/// The value of the first member called `name`: a later member of the same
/// name is shadowed.
pub open spec fn member(fields: Seq<FieldView>, name: Seq<char>) -> Option<ValueView> {
    match position(fields, name) {
        Some(i) => Some(fields[i].value),
        None => None,
    }
}

/// `position` names a member called `name` that no earlier member shadows.
pub proof fn position_is_first(fields: Seq<FieldView>, name: Seq<char>)
    ensures
        match position(fields, name) {
            Some(i) => 0 <= i < fields.len() && fields[i].name == name && forall|j: int|
                0 <= j < i ==> fields[j].name != name,
            None => forall|j: int| 0 <= j < fields.len() ==> fields[j].name != name,
        },
    decreases fields.len(),
{
    if fields.len() > 0 && fields[0].name != name {
        let rest = fields.drop_first();
        position_is_first(rest, name);
        match position(rest, name) {
            Some(i) => {
                assert forall|j: int| 0 <= j < i + 1 implies fields[j].name != name by {
                    if j > 0 {
                        assert(rest[j - 1] == fields[j]);
                    }
                }
            },
            None => {
                assert forall|j: int| 0 <= j < fields.len() implies fields[j].name != name by {
                    if j > 0 {
                        assert(rest[j - 1] == fields[j]);
                    }
                }
            },
        }
    }
}

impl ValueView {
    /// The member called `name` of a record. Anything else has no members.
    pub open spec fn field(self, name: Seq<char>) -> Option<ValueView> {
        match self {
            ValueView::Record(fields) => member(fields, name),
            _ => None,
        }
    }
}

impl Value {
    /// A text value holding `s`.
    pub fn text(s: &str) -> (v: Value)
        ensures
            v@ == ValueView::Text(s@),
    {
        Value::Text(s.to_string())
    }

    /// A list of the given values, in their order.
    pub fn list(items: Vec<Value>) -> (v: Value)
        ensures
            v == Value::List(items),
            v@ == ValueView::List(contents(items@)),
    {
        let v = Value::List(items);
        assert(v@->List_0 =~= contents(items@));
        v
    }

    /// A record of the given members, in their order.
    pub fn record(fields: Vec<Field>) -> (v: Value)
        ensures
            v == Value::Record(fields),
            v@ == ValueView::Record(fields_of(fields@)),
    {
        let v = Value::Record(fields);
        assert(v@->Record_0 =~= fields_of(fields@));
        v
    }

    /// The member called `name` if this is a record that has one.
    pub fn field(&self, name: &str) -> (r: Option<&Value>)
        ensures
            match r {
                Some(v) => self@.field(name@) == Some(v@),
                None => self@.field(name@) is None,
            },
    {
        match self {
            Value::Record(fields) => {
                assert(self@->Record_0 =~= fields_of(fields@));
                find(fields, name)
            },
            _ => None,
        }
    }
}

impl Field {
    /// A member called `name` that holds `value`.
    pub fn new(name: &str, value: Value) -> (f: Field)
        ensures
            f.name@ == name@,
            f.value == value,
    {
        Field { name: name.to_string(), value }
    }
}

/// Looks a member up by name, the first of that name winning.
pub fn find<'a>(fields: &'a Vec<Field>, name: &str) -> (r: Option<&'a Value>)
    ensures
        match r {
            Some(v) => member(fields_of(fields@), name@) == Some(v@),
            None => member(fields_of(fields@), name@) is None,
        },
{
    let wanted = name.to_string();
    let mut i: usize = 0;
    proof {
        position_is_first(fields_of(fields@), name@);
    }
    while i < fields.len()
        invariant
            i <= fields.len(),
            wanted@ == name@,
            forall|j: int| 0 <= j < i ==> fields_of(fields@)[j].name != name@,
            match position(fields_of(fields@), name@) {
                Some(k) => 0 <= k < fields.len() && fields_of(fields@)[k].name == name@
                    && forall|j: int| 0 <= j < k ==> fields_of(fields@)[j].name != name@,
                None => forall|j: int|
                    0 <= j < fields.len() ==> fields_of(fields@)[j].name != name@,
            },
        decreases fields.len() - i,
    {
        assert(fields_of(fields@)[i as int].name == fields@[i as int].name@);
        if fields[i].name == wanted {
            return Some(&fields[i].value);
        }
        i += 1;
    }
    None
}

} // verus!
