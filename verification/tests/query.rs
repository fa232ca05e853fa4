use alchemy_engine::aql::{
    AQLFilter, AQLNode, AQLOperation, AQLQuery, AQLQueryBind, AQLQueryParameter,
};
use alchemy_engine::decimal::push_decimal;

fn decimal_of(n: i32) -> String {
    let mut out = String::new();
    push_decimal(&mut out, n);
    out
}

#[test]
fn decimal_of_small_numbers() {
    assert_eq!(decimal_of(0), "0");
    assert_eq!(decimal_of(5), "5");
    assert_eq!(decimal_of(9), "9");
    assert_eq!(decimal_of(10), "10");
    assert_eq!(decimal_of(1234567890), "1234567890");
}

#[test]
fn decimal_of_negative_numbers() {
    assert_eq!(decimal_of(-1), "-1");
    assert_eq!(decimal_of(-10), "-10");
    assert_eq!(decimal_of(-905), "-905");
}

#[test]
fn decimal_of_the_bounds() {
    assert_eq!(decimal_of(i32::MAX), "2147483647");
    assert_eq!(decimal_of(i32::MIN), "-2147483648");
}

#[test]
fn decimal_agrees_with_the_standard_library() {
    for n in [0, 1, 7, 42, 100, 101, 999, 1000, 65535, -3, -99, -100, -2147483647] {
        assert_eq!(decimal_of(n), format!("{}", n));
    }
}

#[test]
fn push_decimal_appends() {
    let mut out = String::from("LIMIT ");
    push_decimal(&mut out, 25);
    assert_eq!(out, "LIMIT 25");
}

#[test]
fn new_query_has_no_filter_and_no_limit() {
    let query = AQLQuery::new("arg");
    assert_eq!(query.collection, "collection");
    assert_eq!(query.bind_namespace, "arg");
    assert!(query.filter.is_none());
    assert!(query.limit.is_none());
    assert_eq!(query.to_aql(), "FOR a IN @@collection RETURN a");
}

#[test]
fn limit_clause_holds_the_limit() {
    let mut query = AQLQuery::new("arg");
    query.limit = Some(5);
    assert_eq!(query.to_aql(), "FOR a IN @@collection LIMIT 5 RETURN a");
    query.limit = Some(0);
    assert_eq!(query.to_aql(), "FOR a IN @@collection LIMIT 0 RETURN a");
    query.limit = Some(-7);
    assert_eq!(query.to_aql(), "FOR a IN @@collection LIMIT -7 RETURN a");
}

#[test]
fn filter_clause_names_field_and_bind_parameter() {
    let mut query = AQLQuery::new("arg");
    query.filter = Some(AQLFilter {
        left_node: AQLNode::Parameter(AQLQueryParameter(String::from("_key"))),
        operation: AQLOperation::EQUAL,
        right_node: AQLNode::Bind(AQLQueryBind(String::from("id"))),
    });
    assert_eq!(query.to_aql(), "FOR a IN @@collection FILTER a._key == @arg_id RETURN a");
    query.limit = Some(1);
    assert_eq!(
        query.to_aql(),
        "FOR a IN @@collection FILTER a._key == @arg_id LIMIT 1 RETURN a"
    );
}

#[test]
fn filter_sides_can_be_swapped() {
    let mut query = AQLQuery::new("q");
    query.filter = Some(AQLFilter {
        left_node: AQLNode::Bind(AQLQueryBind(String::from("name"))),
        operation: AQLOperation::EQUAL,
        right_node: AQLNode::Parameter(AQLQueryParameter(String::from("firstName"))),
    });
    assert_eq!(query.to_aql(), "FOR a IN @@collection FILTER @q_name == a.firstName RETURN a");
}

#[test]
fn collection_parameter_can_be_renamed() {
    let mut query = AQLQuery::new("arg");
    query.collection = String::from("col");
    assert_eq!(query.get_collection_key(), "@col");
    assert_eq!(query.to_aql(), "FOR a IN @@col RETURN a");
}

#[test]
fn argument_keys_depend_on_namespace_and_name() {
    let query = AQLQuery::new("arg");
    assert_eq!(query.get_argument_key("id"), "arg_id");
    assert_eq!(query.get_argument_key("id"), query.get_argument_key("id"));
    assert_eq!(query.get_argument_key(""), "arg_");
    let other = AQLQuery::new("");
    assert_eq!(other.get_argument_key("id"), "_id");
    assert_eq!(query.get_collection_key(), "@collection");
}

#[test]
fn serializing_twice_gives_the_same_text() {
    let mut query = AQLQuery::new("arg");
    query.filter = Some(AQLFilter {
        left_node: AQLNode::Parameter(AQLQueryParameter(String::from("_key"))),
        operation: AQLOperation::EQUAL,
        right_node: AQLNode::Bind(AQLQueryBind(String::from("id"))),
    });
    query.limit = Some(1);
    assert_eq!(query.to_aql(), query.to_aql());
}

#[test]
fn operator_text() {
    assert_eq!(AQLOperation::EQUAL.to_aql(), "==");
}
