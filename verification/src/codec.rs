//! Giving raw values a shape and taking it off again: how a handler's
//! arguments are read out of the parameters of a call, and how its result
//! becomes a raw value.

use crate::value::{contents, FieldView, Value, ValueView};
use vstd::prelude::*;

verus! {

/// A type whose values can be read out of a raw value.
pub trait Decode: Sized + View {
    /// The value that `raw` stands for, if it has this type's shape.
    spec fn decoded(raw: ValueView) -> Option<Self::V>;

    fn decode(raw: &Value) -> (r: Option<Self>)
        ensures
            match r {
                Some(x) => Self::decoded(raw@) == Some(x@),
                None => Self::decoded(raw@) is None,
            },
    ;
}

/// A type whose values can be written as a raw value.
pub trait Encode: View {
    /// The raw value that stands for `x`.
    spec fn encoded(x: Self::V) -> ValueView;

    fn encode(&self) -> (raw: Value)
        ensures
            raw@ == Self::encoded(self@),
    ;
}

impl Decode for String {
    open spec fn decoded(raw: ValueView) -> Option<Seq<char>> {
        match raw {
            ValueView::Text(s) => Some(s),
            _ => None,
        }
    }

    fn decode(raw: &Value) -> (r: Option<String>) {
        match raw {
            Value::Text(s) => Some(s.clone()),
            _ => None,
        }
    }
}

impl Encode for String {
    open spec fn encoded(x: Seq<char>) -> ValueView {
        ValueView::Text(x)
    }

    fn encode(&self) -> (raw: Value) {
        Value::Text(self.clone())
    }
}

/// The contents of a list of texts.
pub open spec fn texts_of(items: Seq<String>) -> Seq<Seq<char>> {
    Seq::new(items.len(), |i: int| items[i]@)
}

/// The content of a text that may be absent.
pub open spec fn text_of(item: Option<String>) -> Option<Seq<char>> {
    match item {
        Some(s) => Some(s@),
        None => None,
    }
}

/// The texts that a list of raw values stands for, if each of them is a text.
pub open spec fn decoded_texts(raw: ValueView) -> Option<Seq<Seq<char>>> {
    match raw {
        ValueView::List(items) => if forall|i: int| 0 <= i < items.len() ==> items[i] is Text {
            Some(Seq::new(items.len(), |i: int| items[i]->Text_0))
        } else {
            None
        },
        _ => None,
    }
}

/// Reads a list of texts.
pub fn decode_texts(raw: &Value) -> (r: Option<Vec<String>>)
    ensures
        match r {
            Some(texts) => decoded_texts(raw@) == Some(texts_of(texts@)),
            None => decoded_texts(raw@) is None,
        },
{
    match raw {
        Value::List(items) => {
            let mut texts: Vec<String> = Vec::new();
            let mut i: usize = 0;
            while i < items.len()
                invariant
                    i <= items.len(),
                    raw@ is List,
                    raw@->List_0.len() == items.len(),
                    forall|j: int| 0 <= j < items.len() ==> raw@->List_0[j] == items@[j]@,
                    texts.len() == i,
                    forall|j: int|
                        0 <= j < i ==> #[trigger] raw@->List_0[j] == ValueView::Text(texts@[j]@),
                decreases items.len() - i,
            {
                match &items[i] {
                    Value::Text(s) => {
                        texts.push(s.clone());
                    },
                    _ => {
                        assert(!(raw@->List_0[i as int] is Text));
                        return None;
                    },
                }
                i += 1;
            }
            assert(decoded_texts(raw@) is Some);
            assert(decoded_texts(raw@)->Some_0 =~= texts_of(texts@));
            Some(texts)
        },
        _ => None,
    }
}

/// The raw value that stands for a list of texts.
pub open spec fn encoded_texts(texts: Seq<Seq<char>>) -> ValueView {
    ValueView::List(Seq::new(texts.len(), |i: int| ValueView::Text(texts[i])))
}

/// Writes a list of texts.
pub fn encode_texts(texts: &Vec<String>) -> (raw: Value)
    ensures
        raw@ == encoded_texts(texts_of(texts@)),
{
    let mut items: Vec<Value> = Vec::new();
    let mut i: usize = 0;
    while i < texts.len()
        invariant
            i <= texts.len(),
            items.len() == i,
            forall|j: int| 0 <= j < i ==> items@[j]@ == ValueView::Text(texts@[j]@),
        decreases texts.len() - i,
    {
        items.push(Value::Text(texts[i].clone()));
        i += 1;
    }
    let raw = Value::list(items);
    assert(raw@->List_0 =~= encoded_texts(texts_of(texts@))->List_0);
    raw
}

/// The raw value that stands for a text that may be absent.
pub open spec fn encoded_optional_text(text: Option<Seq<char>>) -> ValueView {
    match text {
        Some(s) => ValueView::Text(s),
        None => ValueView::Null,
    }
}

/// Writes a text that may be absent: `Null` stands for none.
pub fn encode_optional_text(text: &Option<String>) -> (raw: Value)
    ensures
        raw@ == encoded_optional_text(text_of(*text)),
{
    match text {
        Some(s) => Value::Text(s.clone()),
        None => Value::Null,
    }
}

/// Parameters of a handler that takes none.
pub open spec fn no_arguments(params: Seq<ValueView>) -> bool {
    params.len() == 0
}

/// The argument of a handler that takes exactly one.
pub open spec fn one_argument<A: Decode>(params: Seq<ValueView>) -> Option<A::V> {
    if params.len() == 1 {
        A::decoded(params[0])
    } else {
        None
    }
}

/// The arguments of a handler that takes exactly two.
pub open spec fn two_arguments<A: Decode, B: Decode>(params: Seq<ValueView>) -> Option<
    (A::V, B::V),
> {
    if params.len() == 2 && A::decoded(params[0]) is Some && B::decoded(params[1]) is Some {
        Some((A::decoded(params[0])->Some_0, B::decoded(params[1])->Some_0))
    } else {
        None
    }
}

/// Checks the parameters of a handler that takes none.
pub fn decode_none(params: &Vec<Value>) -> (ok: bool)
    ensures
        ok == no_arguments(contents(params@)),
{
    params.len() == 0
}

/// Reads the argument of a handler that takes exactly one.
pub fn decode_one<A: Decode>(params: &Vec<Value>) -> (r: Option<A>)
    ensures
        match r {
            Some(a) => one_argument::<A>(contents(params@)) == Some(a@),
            None => one_argument::<A>(contents(params@)) is None,
        },
{
    if params.len() != 1 {
        return None;
    }
    A::decode(&params[0])
}

/// Reads the arguments of a handler that takes exactly two.
pub fn decode_two<A: Decode, B: Decode>(params: &Vec<Value>) -> (r: Option<(A, B)>)
    ensures
        match r {
            Some((a, b)) => two_arguments::<A, B>(contents(params@)) == Some((a@, b@)),
            None => two_arguments::<A, B>(contents(params@)) is None,
        },
{
    if params.len() != 2 {
        return None;
    }
    let first = match A::decode(&params[0]) {
        Some(a) => a,
        None => {
            return None;
        },
    };
    match B::decode(&params[1]) {
        Some(b) => Some((first, b)),
        None => None,
    }
}

/// A record member called `name` that holds `value`.
pub open spec fn named(name: Seq<char>, value: ValueView) -> FieldView {
    FieldView { name, value }
}

} // verus!
