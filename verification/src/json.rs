//! Semi-structured documents, as the store returns them.

use vstd::prelude::*;

verus! {

/// A number of a document.
#[derive(Clone, Copy, Debug, PartialEq, Eq)]
pub enum JsonNumber {
    /// An integer that fits in 64 signed bits.
    Int(i64),
    /// An integer held in 64 unsigned bits.
    UInt(u64),
    /// A number that is not integral, as the bit pattern of an IEEE 754
    /// double.
    Float(u64),
}

/// A document, or a part of one.
#[derive(Debug, PartialEq)]
pub enum JsonValue {
    Null,
    Bool(bool),
    Number(JsonNumber),
    String(String),
    Array(Vec<JsonValue>),
    Object(JsonMap),
}

/// The fields of an object, in the order in which they were read.
#[derive(Debug, PartialEq)]
pub struct JsonMap {
    pub entries: Vec<(String, JsonValue)>,
}

/// What a `JsonValue` holds.
#[verifier::ext_equal]
pub enum JsonValueView {
    Null,
    Bool(bool),
    Number(JsonNumber),
    String(Seq<char>),
    Array(Seq<JsonValueView>),
    Object(Seq<(Seq<char>, JsonValueView)>),
}

impl JsonValue {
    /// What the document holds, level by level.
    pub open spec fn model(&self) -> JsonValueView
        decreases self,
    {
        match self {
            JsonValue::Null => JsonValueView::Null,
            JsonValue::Bool(b) => JsonValueView::Bool(*b),
            JsonValue::Number(n) => JsonValueView::Number(*n),
            JsonValue::String(s) => JsonValueView::String(s@),
            JsonValue::Array(items) => JsonValueView::Array(
                Seq::new(
                    items@.len(),
                    |i: int|
                        if 0 <= i < items@.len() {
                            items@[i].model()
                        } else {
                            JsonValueView::Null
                        },
                ),
            ),
            JsonValue::Object(map) => JsonValueView::Object(
                Seq::new(
                    map.entries@.len(),
                    |i: int|
                        if 0 <= i < map.entries@.len() {
                            (map.entries@[i].0@, map.entries@[i].1.model())
                        } else {
                            (Seq::empty(), JsonValueView::Null)
                        },
                ),
            ),
        }
    }
}

impl View for JsonValue {
    type V = JsonValueView;

    open spec fn view(&self) -> JsonValueView {
        self.model()
    }
}

impl View for JsonMap {
    type V = Seq<(Seq<char>, JsonValueView)>;

    open spec fn view(&self) -> Seq<(Seq<char>, JsonValueView)> {
        Seq::new(self.entries@.len(), |i: int| (self.entries@[i].0@, self.entries@[i].1@))
    }
}

/// The views of the elements of an array, in order.
pub open spec fn element_views(items: Seq<JsonValue>) -> Seq<JsonValueView> {
    Seq::new(items.len(), |i: int| items[i]@)
}

/// The view of an array is made of the views of its elements.
pub proof fn lemma_array_view(items: Vec<JsonValue>)
    ensures
        JsonValue::Array(items)@ == JsonValueView::Array(element_views(items@)),
{
    assert(JsonValue::Array(items)@->Array_0 =~= element_views(items@));
}

/// The view of an object is the view of its fields.
pub proof fn lemma_object_view(map: JsonMap)
    ensures
        JsonValue::Object(map)@ == JsonValueView::Object(map@),
{
    assert(JsonValue::Object(map)@->Object_0 =~= map@);
}

} // verus!
