use alchemy_engine::convert::{convert, convert_json_to_juniper_value, convert_number};
use alchemy_engine::json::{JsonMap, JsonNumber, JsonValue};
use alchemy_engine::value::{Object, ScalarValue, Value};

fn integer(n: i32) -> Value {
    Value::Scalar(ScalarValue::Int(n))
}

fn string_value(s: &str) -> Value {
    Value::Scalar(ScalarValue::String(String::from(s)))
}

#[test]
fn integer_that_fits_passes_through() {
    assert_eq!(convert_number(&JsonNumber::Int(5)), integer(5));
    assert_eq!(convert_number(&JsonNumber::Int(0)), integer(0));
    assert_eq!(convert_number(&JsonNumber::Int(-17)), integer(-17));
    assert_eq!(convert_number(&JsonNumber::UInt(5)), integer(5));
}

#[test]
fn integer_above_the_maximum_is_clamped() {
    assert_eq!(convert_number(&JsonNumber::Int(3000000000)), integer(i32::MAX));
    assert_eq!(convert_number(&JsonNumber::Int(i64::MAX)), integer(2147483647));
    assert_eq!(convert_number(&JsonNumber::UInt(3000000000)), integer(i32::MAX));
    assert_eq!(convert_number(&JsonNumber::UInt(u64::MAX)), integer(i32::MAX));
}

#[test]
fn integer_below_the_minimum_is_clamped() {
    assert_eq!(convert_number(&JsonNumber::Int(-3000000000)), integer(i32::MIN));
    assert_eq!(convert_number(&JsonNumber::Int(i64::MIN)), integer(-2147483648));
}

#[test]
fn integers_at_the_bounds_are_kept() {
    assert_eq!(convert_number(&JsonNumber::Int(2147483647)), integer(i32::MAX));
    assert_eq!(convert_number(&JsonNumber::Int(2147483648)), integer(i32::MAX));
    assert_eq!(convert_number(&JsonNumber::Int(2147483646)), integer(2147483646));
    assert_eq!(convert_number(&JsonNumber::Int(-2147483648)), integer(i32::MIN));
    assert_eq!(convert_number(&JsonNumber::Int(-2147483649)), integer(i32::MIN));
    assert_eq!(convert_number(&JsonNumber::Int(-2147483647)), integer(-2147483647));
    assert_eq!(convert_number(&JsonNumber::UInt(2147483647)), integer(i32::MAX));
    assert_eq!(convert_number(&JsonNumber::UInt(2147483648)), integer(i32::MAX));
}

#[test]
fn float_passes_through_unchanged() {
    let converted = convert_number(&JsonNumber::Float(1.5f64.to_bits()));
    match converted {
        Value::Scalar(ScalarValue::Float(bits)) => assert_eq!(f64::from_bits(bits), 1.5),
        other => panic!("not a float: {:?}", other),
    }
    let huge = convert_number(&JsonNumber::Float(1.0e300f64.to_bits()));
    assert_eq!(huge, Value::Scalar(ScalarValue::Float(1.0e300f64.to_bits())));
}

#[test]
fn null_becomes_null() {
    assert_eq!(convert(&JsonValue::Null), Value::Null);
}

#[test]
fn boolean_and_string_are_unchanged() {
    assert_eq!(convert(&JsonValue::Bool(true)), Value::Scalar(ScalarValue::Boolean(true)));
    assert_eq!(convert(&JsonValue::Bool(false)), Value::Scalar(ScalarValue::Boolean(false)));
    assert_eq!(convert(&JsonValue::String(String::from("A"))), string_value("A"));
    assert_eq!(convert(&JsonValue::String(String::new())), string_value(""));
}

#[test]
fn number_inside_a_document_is_converted() {
    assert_eq!(convert(&JsonValue::Number(JsonNumber::Int(3000000000))), integer(i32::MAX));
    assert_eq!(convert(&JsonValue::Number(JsonNumber::Int(5))), integer(5));
}

#[test]
fn array_becomes_a_list_in_order() {
    let array = JsonValue::Array(vec![
        JsonValue::Number(JsonNumber::Int(1)),
        JsonValue::Null,
        JsonValue::String(String::from("x")),
        JsonValue::Array(vec![JsonValue::Bool(true)]),
    ]);
    let expected = Value::List(vec![
        integer(1),
        Value::Null,
        string_value("x"),
        Value::List(vec![Value::Scalar(ScalarValue::Boolean(true))]),
    ]);
    assert_eq!(convert(&array), expected);
    assert_eq!(convert(&JsonValue::Array(Vec::new())), Value::List(Vec::new()));
}

#[test]
fn object_becomes_an_object_with_the_same_names() {
    let document = JsonMap {
        entries: vec![
            (String::from("_key"), JsonValue::String(String::from("123"))),
            (String::from("firstName"), JsonValue::String(String::from("A"))),
            (String::from("age"), JsonValue::Number(JsonNumber::Int(-3000000000))),
        ],
    };
    let expected = Value::Object(Object {
        fields: vec![
            (String::from("_key"), string_value("123")),
            (String::from("firstName"), string_value("A")),
            (String::from("age"), integer(i32::MIN)),
        ],
    });
    assert_eq!(convert_json_to_juniper_value(&document), expected);
}

#[test]
fn empty_object_becomes_an_empty_object() {
    let document = JsonMap { entries: Vec::new() };
    assert_eq!(
        convert_json_to_juniper_value(&document),
        Value::Object(Object { fields: Vec::new() })
    );
}

#[test]
fn nested_objects_are_converted_at_every_level() {
    let inner = JsonMap {
        entries: vec![(
            String::from("tags"),
            JsonValue::Array(vec![
                JsonValue::Number(JsonNumber::UInt(u64::MAX)),
                JsonValue::Object(JsonMap { entries: Vec::new() }),
            ]),
        )],
    };
    let document = JsonMap { entries: vec![(String::from("inner"), JsonValue::Object(inner))] };
    let expected = Value::Object(Object {
        fields: vec![(
            String::from("inner"),
            Value::Object(Object {
                fields: vec![(
                    String::from("tags"),
                    Value::List(vec![integer(i32::MAX), Value::Object(Object { fields: Vec::new() })]),
                )],
            }),
        )],
    });
    assert_eq!(convert_json_to_juniper_value(&document), expected);
    assert_eq!(
        convert(&JsonValue::Object(JsonMap { entries: Vec::new() })),
        Value::Object(Object { fields: Vec::new() })
    );
}

#[test]
fn field_lookup_finds_the_first_field_of_a_name() {
    let object = Object {
        fields: vec![
            (String::from("a"), integer(1)),
            (String::from("b"), integer(2)),
            (String::from("a"), integer(3)),
        ],
    };
    assert_eq!(object.get_field_value("a"), Some(&integer(1)));
    assert_eq!(object.get_field_value("b"), Some(&integer(2)));
    assert_eq!(object.get_field_value("c"), None);
    assert_eq!(Object { fields: Vec::new() }.get_field_value("a"), None);
}
