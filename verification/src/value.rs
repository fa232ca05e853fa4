//! The typed value tree that a call hands back.
//!
//! Its shape is that of the values of a graph-query response: null, a
//! scalar, an ordered list, or an object of named fields.

use vstd::prelude::*;

verus! {

/// A leaf of the value tree.
#[derive(Debug, PartialEq)]
pub enum ScalarValue {
    Int(i32),
    /// The bit pattern of an IEEE 754 double.
    Float(u64),
    String(String),
    Boolean(bool),
}

/// A value of the tree.
#[derive(Debug, PartialEq)]
pub enum Value {
    Null,
    Scalar(ScalarValue),
    List(Vec<Value>),
    Object(Object),
}

/// The named fields of an object, in order.
#[derive(Debug, PartialEq)]
pub struct Object {
    pub fields: Vec<(String, Value)>,
}

/// What a `ScalarValue` holds.
#[verifier::ext_equal]
pub enum ScalarView {
    Int(i32),
    Float(u64),
    String(Seq<char>),
    Boolean(bool),
}

/// What a `Value` holds.
#[verifier::ext_equal]
pub enum ValueView {
    Null,
    Scalar(ScalarView),
    List(Seq<ValueView>),
    Object(Seq<(Seq<char>, ValueView)>),
}

impl View for ScalarValue {
    type V = ScalarView;

    open spec fn view(&self) -> ScalarView {
        match self {
            ScalarValue::Int(n) => ScalarView::Int(*n),
            ScalarValue::Float(bits) => ScalarView::Float(*bits),
            ScalarValue::String(s) => ScalarView::String(s@),
            ScalarValue::Boolean(b) => ScalarView::Boolean(*b),
        }
    }
}

impl Value {
    /// What the value holds, level by level.
    pub open spec fn model(&self) -> ValueView
        decreases self,
    {
        match self {
            Value::Null => ValueView::Null,
            Value::Scalar(s) => ValueView::Scalar(s@),
            Value::List(items) => ValueView::List(
                Seq::new(
                    items@.len(),
                    |i: int|
                        if 0 <= i < items@.len() {
                            items@[i].model()
                        } else {
                            ValueView::Null
                        },
                ),
            ),
            Value::Object(object) => ValueView::Object(
                Seq::new(
                    object.fields@.len(),
                    |i: int|
                        if 0 <= i < object.fields@.len() {
                            (object.fields@[i].0@, object.fields@[i].1.model())
                        } else {
                            (Seq::empty(), ValueView::Null)
                        },
                ),
            ),
        }
    }
}

impl View for Value {
    type V = ValueView;

    open spec fn view(&self) -> ValueView {
        self.model()
    }
}

impl View for Object {
    type V = Seq<(Seq<char>, ValueView)>;

    open spec fn view(&self) -> Seq<(Seq<char>, ValueView)> {
        Seq::new(self.fields@.len(), |i: int| (self.fields@[i].0@, self.fields@[i].1@))
    }
}

/// The views of the items of a list, in order.
pub open spec fn item_views(items: Seq<Value>) -> Seq<ValueView> {
    Seq::new(items.len(), |i: int| items[i]@)
}

/// The view of a list is made of the views of its items.
pub proof fn lemma_list_view(items: Vec<Value>)
    ensures
        Value::List(items)@ == ValueView::List(item_views(items@)),
{
    assert(Value::List(items)@->List_0 =~= item_views(items@));
}

/// The view of an object value is the view of its fields.
pub proof fn lemma_object_value_view(object: Object)
    ensures
        Value::Object(object)@ == ValueView::Object(object@),
{
    assert(Value::Object(object)@->Object_0 =~= object@);
}

/// The value of the first field named `name`, if there is one.
pub open spec fn field_value(fields: Seq<(Seq<char>, ValueView)>, name: Seq<char>) -> Option<
    ValueView,
>
    decreases fields.len(),
{
    if fields.len() == 0 {
        None
    } else if fields[0].0 == name {
        Some(fields[0].1)
    } else {
        field_value(fields.subrange(1, fields.len() as int), name)
    }
}

impl Object {
    /// Looks a field up by its name.
    pub fn get_field_value(&self, name: &str) -> (found: Option<&Value>)
        ensures
            match found {
                Some(v) => field_value(self@, name@) == Some(v@),
                None => field_value(self@, name@).is_none(),
            },
    {
        let wanted = String::from_str(name);
        let mut i: usize = 0;
        assert(self@.subrange(0, self@.len() as int) =~= self@);
        while i < self.fields.len()
            invariant
                i <= self.fields.len(),
                wanted@ == name@,
                field_value(self@, name@) == field_value(
                    self@.subrange(i as int, self@.len() as int),
                    name@,
                ),
            decreases self.fields.len() - i,
        {
            let ghost rest = self@.subrange(i as int, self@.len() as int);
            assert(rest[0] == self@[i as int]);
            assert(rest.subrange(1, rest.len() as int) =~= self@.subrange(
                i as int + 1,
                self@.len() as int,
            ));
            if self.fields[i].0 == wanted {
                return Some(&self.fields[i].1);
            }
            i += 1;
        }
        None
    }
}

} // verus!
