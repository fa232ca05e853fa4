//! The value converter: from documents to the typed value tree.
//!
//! The conversion never fails. Integers are narrowed to 32 signed bits by
//! clamping; everything else is carried over unchanged.

use crate::json::{
    element_views, lemma_array_view, lemma_object_view, JsonMap, JsonNumber, JsonValue,
    JsonValueView,
};
use crate::value::{
    item_views, lemma_list_view, lemma_object_value_view, Object, ScalarValue, ScalarView, Value,
    ValueView,
};
use vstd::prelude::*;

verus! {

/// The nearest 32-bit signed integer to `n`.
pub open spec fn clamp_to_i32(n: int) -> i32 {
    if n > i32::MAX {
        i32::MAX
    } else if n < i32::MIN {
        i32::MIN
    } else {
        n as i32
    }
}

/// The scalar that stands for a number of a document: integers are
/// clamped, other numbers keep their bits.
pub open spec fn number_scalar(n: JsonNumber) -> ScalarView {
    match n {
        JsonNumber::Int(v) => ScalarView::Int(clamp_to_i32(v as int)),
        JsonNumber::UInt(v) => ScalarView::Int(clamp_to_i32(v as int)),
        JsonNumber::Float(bits) => ScalarView::Float(bits),
    }
}

/// The value that stands for a document.
pub open spec fn converted(doc: JsonValueView) -> ValueView
    decreases doc,
{
    match doc {
        JsonValueView::Null => ValueView::Null,
        JsonValueView::Bool(b) => ValueView::Scalar(ScalarView::Boolean(b)),
        JsonValueView::Number(n) => ValueView::Scalar(number_scalar(n)),
        JsonValueView::String(s) => ValueView::Scalar(ScalarView::String(s)),
        JsonValueView::Array(items) => ValueView::List(
            Seq::new(
                items.len(),
                |i: int|
                    if 0 <= i < items.len() {
                        converted(items[i])
                    } else {
                        ValueView::Null
                    },
            ),
        ),
        JsonValueView::Object(entries) => ValueView::Object(
            Seq::new(
                entries.len(),
                |i: int|
                    if 0 <= i < entries.len() {
                        (entries[i].0, converted(entries[i].1))
                    } else {
                        (Seq::empty(), ValueView::Null)
                    },
            ),
        ),
    }
}

/// The values that stand for the elements of an array, in order.
pub open spec fn converted_items(items: Seq<JsonValueView>) -> Seq<ValueView> {
    Seq::new(items.len(), |i: int| converted(items[i]))
}

/// The fields that stand for the fields of an object: the same names in
/// the same order, each value converted.
pub open spec fn converted_fields(entries: Seq<(Seq<char>, JsonValueView)>) -> Seq<
    (Seq<char>, ValueView),
> {
    Seq::new(entries.len(), |i: int| (entries[i].0, converted(entries[i].1)))
}

/// An array becomes the list of its converted elements.
pub proof fn lemma_converted_array(items: Seq<JsonValueView>)
    ensures
        converted(JsonValueView::Array(items)) == ValueView::List(converted_items(items)),
{
    assert(converted(JsonValueView::Array(items))->List_0 =~= converted_items(items));
}

/// An object becomes the object of its converted fields.
pub proof fn lemma_converted_object(entries: Seq<(Seq<char>, JsonValueView)>)
    ensures
        converted(JsonValueView::Object(entries)) == ValueView::Object(converted_fields(entries)),
{
    assert(converted(JsonValueView::Object(entries))->Object_0 =~= converted_fields(entries));
}

/// Conversion keeps the shape of an object: as many fields, under the same
/// names, in the same order. Names that were distinct stay distinct.
pub proof fn lemma_converted_fields_keep_names(entries: Seq<(Seq<char>, JsonValueView)>)
    ensures
        converted_fields(entries).len() == entries.len(),
        forall|i: int|
            0 <= i < entries.len() ==> (#[trigger] converted_fields(entries)[i]).0 == entries[i].0,
        forall|i: int|
            0 <= i < entries.len() ==> (#[trigger] converted_fields(entries)[i]).1 == converted(
                entries[i].1,
            ),
{
}

/// Clamping keeps what fits and replaces what does not by the bound it
/// lies beyond.
pub proof fn lemma_clamp_to_i32(n: int)
    ensures
        i32::MIN <= n <= i32::MAX ==> clamp_to_i32(n) == n,
        n > i32::MAX ==> clamp_to_i32(n) == i32::MAX,
        n < i32::MIN ==> clamp_to_i32(n) == i32::MIN,
{
}

/// Converts a number. An integer outside the 32-bit signed range becomes
/// the bound it lies beyond.
pub fn convert_number(n: &JsonNumber) -> (value: Value)
    ensures
        value@ == ValueView::Scalar(number_scalar(*n)),
{
    match n {
        JsonNumber::Int(v) => {
            let res: i32 = if *v > i32::MAX as i64 {
                i32::MAX
            } else if *v < i32::MIN as i64 {
                i32::MIN
            } else {
                *v as i32
            };
            Value::Scalar(ScalarValue::Int(res))
        },
        JsonNumber::UInt(v) => {
            let res: i32 = if *v > i32::MAX as u64 {
                i32::MAX
            } else {
                *v as i32
            };
            Value::Scalar(ScalarValue::Int(res))
        },
        JsonNumber::Float(bits) => Value::Scalar(ScalarValue::Float(*bits)),
    }
}

/// Converts one document, whatever its kind.
pub fn convert(val: &JsonValue) -> (value: Value)
    ensures
        value@ == converted(val@),
    decreases val,
{
    match val {
        JsonValue::Null => Value::Null,
        JsonValue::Bool(v) => Value::Scalar(ScalarValue::Boolean(*v)),
        JsonValue::Number(n) => convert_number(n),
        JsonValue::String(s) => Value::Scalar(ScalarValue::String(s.clone())),
        JsonValue::Array(a) => {
            let items = convert_items(a);
            proof {
                lemma_array_view(*a);
                lemma_converted_array(element_views(a@));
                lemma_list_view(items);
            }
            Value::List(items)
        },
        JsonValue::Object(o) => {
            proof {
                lemma_object_view(*o);
                lemma_converted_object(o@);
            }
            convert_json_to_juniper_value(o)
        },
    }
}

/// Converts the elements of an array, in order.
fn convert_items(a: &Vec<JsonValue>) -> (items: Vec<Value>)
    ensures
        item_views(items@) == converted_items(element_views(a@)),
    decreases a,
{
    let mut items: Vec<Value> = Vec::with_capacity(a.len());
    let mut i: usize = 0;
    while i < a.len()
        invariant
            i <= a.len(),
            items@.len() == i,
            forall|j: int| 0 <= j < i ==> (#[trigger] items@[j])@ == converted(a@[j]@),
        decreases a.len() - i,
    {
        let item = convert(&a[i]);
        items.push(item);
        i += 1;
    }
    assert(item_views(items@) =~= converted_items(element_views(a@)));
    items
}

/// Converts an object: one field per field of the document, under the
/// same name, holding the converted value.
pub fn convert_json_to_juniper_value(data: &JsonMap) -> (value: Value)
    ensures
        value@ == ValueView::Object(converted_fields(data@)),
    decreases data,
{
    let mut fields: Vec<(String, Value)> = Vec::with_capacity(data.entries.len());
    let mut i: usize = 0;
    while i < data.entries.len()
        invariant
            i <= data.entries.len(),
            fields@.len() == i,
            forall|j: int|
                0 <= j < i ==> (#[trigger] fields@[j]).0@ == data.entries@[j].0@ && fields@[j].1@
                    == converted(data.entries@[j].1@),
        decreases data.entries.len() - i,
    {
        let key = data.entries[i].0.clone();
        let child = convert(&data.entries[i].1);
        fields.push((key, child));
        i += 1;
    }
    let object = Object { fields };
    proof {
        lemma_object_value_view(object);
        assert(object@ =~= converted_fields(data@));
    }
    Value::Object(object)
}

} // verus!
