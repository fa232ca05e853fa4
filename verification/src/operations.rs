//! The operations that every entity gets: `Get`, which fetches one document
//! by its key, and `GetAll`, which lists documents.
//!
//! A call runs in two steps around the store. `call` plans it: it settles
//! the query and what is bound to its parameters. The caller executes the
//! request. `resolve` turns the store's answer into the result.

use crate::aql::{
    aql_text, argument_key, collection_key, AQLFilter, AQLFilterView, AQLNode, AQLNodeView,
    AQLOperation, AQLQuery, AQLQueryBind, AQLQueryParameter, AQLQueryView,
};
use crate::arguments::{
    int_argument, string_argument, Argument, ArgumentType, ArgumentValueView, Arguments, Field,
    FieldType,
};
use crate::convert::{convert_json_to_juniper_value, converted_fields};
use crate::json::JsonValueView;
use crate::metadata::{DbEntity, DbEntityView, DbRelationship, DbRelationshipView};
use crate::naming::{
    compose_edge_name, compose_operation_name, edge_name, edge_owner, entity_noun, operation_name,
};
use crate::store::{BindTable, StoreRequest, StoreResponse};
use crate::value::{item_views, lemma_list_view, Value, ValueView};
use std::sync::Arc;
use vstd::prelude::*;

verus! {

/// The two kinds of operation.
#[derive(Clone, Copy, Debug, PartialEq, Eq)]
pub enum OperationKind {
    Get,
    GetAll,
}

/// What the operations of one entity share: the entity and its
/// relationships.
#[derive(Debug, PartialEq)]
pub struct OperationData {
    pub entity: Arc<DbEntity>,
    pub relationships: Arc<Vec<DbRelationship>>,
}

/// What an `OperationData` holds.
pub struct OperationDataView {
    pub entity: DbEntityView,
    pub relationships: Seq<DbRelationshipView>,
}

impl View for OperationData {
    type V = OperationDataView;

    open spec fn view(&self) -> OperationDataView {
        OperationDataView {
            entity: self.entity@,
            relationships: Seq::new(
                self.relationships@.len(),
                |i: int| self.relationships@[i]@,
            ),
        }
    }
}

/// The one error of a call: no document of the entity was found.
#[derive(Debug, PartialEq)]
pub struct NotFoundError {
    pub entity: String,
}

/// What the error says of an entity.
pub open spec fn not_found_message(entity: Seq<char>) -> Seq<char> {
    entity + " not found"@
}

impl NotFoundError {
    pub fn new(entity: String) -> (error: NotFoundError)
        ensures
            error.entity == entity,
    {
        NotFoundError { entity }
    }

    /// The error in words.
    pub fn message(&self) -> (text: String)
        ensures
            text@ == not_found_message(self.entity@),
    {
        let mut text = self.entity.clone();
        text.append(" not found");
        text
    }
}

/// How a call ends: with a value, or with the error.
pub type ExecutionResult = Result<Value, NotFoundError>;

/// What an `ExecutionResult` holds: the value, or the name of the entity
/// that was not found.
pub open spec fn execution_view(result: ExecutionResult) -> Result<ValueView, Seq<char>> {
    match result {
        Ok(value) => Ok(value@),
        Err(error) => Err(error.entity@),
    }
}

/// The documents of a store's answer, or `None` where the store failed.
pub open spec fn response_rows(response: StoreResponse) -> Option<
    Seq<Seq<(Seq<char>, JsonValueView)>>,
> {
    match response {
        Ok(rows) => Some(Seq::new(rows@.len(), |i: int| rows@[i]@)),
        Err(_) => None,
    }
}

/// A call that was planned and waits for the store's answer.
#[derive(Debug, PartialEq)]
pub struct PendingCall {
    pub kind: OperationKind,
    /// The name of the entity that the call is about.
    pub entity: String,
    pub request: StoreRequest,
}

/// What a `PendingCall` holds.
pub struct PendingCallView {
    pub kind: OperationKind,
    pub entity: Seq<char>,
    pub query: Seq<char>,
    pub bind_vars: Seq<(Seq<char>, Seq<char>)>,
}

impl View for PendingCall {
    type V = PendingCallView;

    open spec fn view(&self) -> PendingCallView {
        PendingCallView {
            kind: self.kind,
            entity: self.entity@,
            query: self.request.query@,
            bind_vars: self.request.bind_vars@,
        }
    }
}

/// The filter of `Get`: the document's `_key` equals what is bound for the
/// argument `id`.
pub open spec fn key_filter() -> AQLFilterView {
    AQLFilterView {
        left_node: AQLNodeView::Parameter("_key"@),
        operation: AQLOperation::EQUAL,
        right_node: AQLNodeView::Bind("id"@),
    }
}

/// The query of `Get`: the base query, filtered by key, limited to one
/// document.
pub open spec fn get_query(base: AQLQueryView) -> AQLQueryView {
    AQLQueryView { filter: Some(key_filter()), limit: Some(1i32), ..base }
}

/// The query of `GetAll`: the base query with the limit that was asked for,
/// or with none.
pub open spec fn get_all_query(base: AQLQueryView, limit: Option<i32>) -> AQLQueryView {
    AQLQueryView { limit, ..base }
}

/// The value that `Get` yields for a document.
pub open spec fn entity_value(row: Seq<(Seq<char>, JsonValueView)>) -> ValueView {
    ValueView::Object(converted_fields(row))
}

/// The values that `GetAll` yields for the documents of an answer.
pub open spec fn entity_values(rows: Seq<Seq<(Seq<char>, JsonValueView)>>) -> Seq<ValueView> {
    Seq::new(rows.len(), |i: int| entity_value(rows[i]))
}

/// An operation of an entity.
pub trait Operation {
    /// The kind of the operation.
    spec fn kind() -> OperationKind;

    /// What the operation's names start with.
    spec fn name_prefix() -> Seq<char>;

    /// Whether `arguments` holds what the operation requires.
    spec fn accepts(arguments: Seq<(Seq<char>, ArgumentValueView)>) -> bool;

    /// The query that a call executes.
    spec fn planned_query(
        arguments: Seq<(Seq<char>, ArgumentValueView)>,
        base: AQLQueryView,
    ) -> AQLQueryView;

    /// What a call binds to the parameters of its query.
    spec fn planned_binds(
        collection_name: Seq<char>,
        arguments: Seq<(Seq<char>, ArgumentValueView)>,
        base: AQLQueryView,
    ) -> Seq<(Seq<char>, Seq<char>)>;

    /// How a call about `entity` ends once the store has answered with
    /// `rows`, or has failed.
    spec fn outcome(entity: Seq<char>, rows: Option<Seq<Seq<(Seq<char>, JsonValueView)>>>) -> Result<
        ValueView,
        Seq<char>,
    >;

    /// The arguments that the operation takes.
    spec fn argument_contract() -> Seq<(Seq<char>, ArgumentType, bool)>;

    /// What the operation's field yields.
    spec fn field_type() -> FieldType;

    /// The kind of the operation.
    fn operation_kind() -> (kind: OperationKind)
        ensures
            kind == Self::kind(),
    ;

    /// Tests whether `arguments` holds what the operation requires.
    fn accepts_arguments(arguments: &Arguments) -> (accepted: bool)
        ensures
            accepted == Self::accepts(arguments@),
    ;

    /// Plans a call: fills in the base query and binds the values.
    fn call(data: &OperationData, arguments: &Arguments, query: AQLQuery) -> (pending: PendingCall)
        requires
            Self::accepts(arguments@),
        ensures
            pending@ == (PendingCallView {
                kind: Self::kind(),
                entity: data.entity.name@,
                query: aql_text(Self::planned_query(arguments@, query@)),
                bind_vars: Self::planned_binds(data.entity.collection_name@, arguments@, query@),
            }),
    ;

    /// Ends a call about `entity` with the store's answer.
    fn resolve(entity: String, response: StoreResponse) -> (result: ExecutionResult)
        ensures
            execution_view(result) == Self::outcome(entity@, response_rows(response)),
    ;

    /// The name of the operation for the noun `noun`.
    fn operation_name_for(noun: &str) -> (name: String)
        ensures
            name@ == operation_name(Self::name_prefix(), noun@),
    ;

    /// The name under which the operation of an entity is exposed: the
    /// prefix, then the entity's noun as the inflection gave it.
    fn get_operation_name(data: &OperationData) -> (name: String)
        ensures
            Self::name_prefix().is_prefix_of(name@),
    ;

    /// The arguments that the operation takes.
    fn get_arguments() -> (arguments: Vec<Argument>)
        ensures
            arguments@.len() == Self::argument_contract().len(),
            forall|i: int|
                0 <= i < arguments@.len() ==> (
                #[trigger] arguments@[i].name@,
                arguments@[i].arg_type,
                arguments@[i].required,
            ) == Self::argument_contract()[i],
    ;

    /// The field under which the operation is exposed as `name`.
    fn build_field(name: &str, data: &OperationData) -> (field: Field)
        ensures
            field.name@ == name@,
            field.field_type == Self::field_type(),
            field.entity@ == data.entity.name@,
    ;

    /// The name under which a relationship's edge is exposed: the plural
    /// of the entity it starts at, in snake case, then an underscore and
    /// the relationship's own name.
    fn get_relationship_edge_name(relationship: &DbRelationship) -> (name: String)
        ensures
            exists|owner: Seq<char>| name@ == #[trigger] edge_name(owner, relationship.name@),
    {
        let owner = edge_owner(relationship.from.name.as_str());
        compose_edge_name(owner.as_str(), relationship.name.as_str())
    }
}

/// Fetches the document of an entity with a given key.
pub struct Get;

/// Lists the documents of an entity.
pub struct GetAll;

impl Operation for Get {
    open spec fn kind() -> OperationKind {
        OperationKind::Get
    }

    open spec fn name_prefix() -> Seq<char> {
        "get"@
    }

    open spec fn accepts(arguments: Seq<(Seq<char>, ArgumentValueView)>) -> bool {
        string_argument(arguments, "id"@).is_some()
    }

    open spec fn planned_query(
        arguments: Seq<(Seq<char>, ArgumentValueView)>,
        base: AQLQueryView,
    ) -> AQLQueryView {
        get_query(base)
    }

    open spec fn planned_binds(
        collection_name: Seq<char>,
        arguments: Seq<(Seq<char>, ArgumentValueView)>,
        base: AQLQueryView,
    ) -> Seq<(Seq<char>, Seq<char>)> {
        seq![
            (collection_key(base.collection), collection_name),
            (argument_key(base.bind_namespace, "id"@), string_argument(arguments, "id"@).unwrap()),
        ]
    }

    open spec fn outcome(
        entity: Seq<char>,
        rows: Option<Seq<Seq<(Seq<char>, JsonValueView)>>>,
    ) -> Result<ValueView, Seq<char>> {
        match rows {
            Some(found) if found.len() > 0 => Ok(entity_value(found[0])),
            _ => Err(entity),
        }
    }

    open spec fn argument_contract() -> Seq<(Seq<char>, ArgumentType, bool)> {
        seq![("id"@, ArgumentType::Id, true)]
    }

    open spec fn field_type() -> FieldType {
        FieldType::NullableEntity
    }

    fn operation_kind() -> (kind: OperationKind) {
        OperationKind::Get
    }

    fn accepts_arguments(arguments: &Arguments) -> (accepted: bool) {
        arguments.get_string("id").is_some()
    }

    fn call(data: &OperationData, arguments: &Arguments, query: AQLQuery) -> (pending:
        PendingCall) {
        let ghost base = query@;
        let mut query = query;
        query.filter = Some(
            AQLFilter {
                left_node: AQLNode::Parameter(AQLQueryParameter(String::from_str("_key"))),
                operation: AQLOperation::EQUAL,
                right_node: AQLNode::Bind(AQLQueryBind(String::from_str("id"))),
            },
        );
        query.limit = Some(1);
        assert(query@ == get_query(base));
        let query_str = query.to_aql();
        let id = arguments.get_string("id").unwrap();
        let mut bind_vars = BindTable::new();
        bind_vars.bind_var(query.get_collection_key(), data.entity.collection_name.clone());
        bind_vars.bind_var(query.get_argument_key("id"), id);
        assert(bind_vars@ =~= Self::planned_binds(data.entity.collection_name@, arguments@, base));
        PendingCall {
            kind: OperationKind::Get,
            entity: data.entity.name.clone(),
            request: StoreRequest { query: query_str, bind_vars },
        }
    }

    fn resolve(entity: String, response: StoreResponse) -> (result: ExecutionResult) {
        match response {
            Ok(rows) => {
                if rows.len() > 0 {
                    Ok(convert_json_to_juniper_value(&rows[0]))
                } else {
                    Err(NotFoundError::new(entity))
                }
            },
            Err(_) => Err(NotFoundError::new(entity)),
        }
    }

    fn operation_name_for(noun: &str) -> (name: String) {
        compose_operation_name("get", noun)
    }

    fn get_operation_name(data: &OperationData) -> (name: String) {
        let noun = entity_noun(data.entity.name.as_str(), 1);
        Self::operation_name_for(noun.as_str())
    }

    fn get_arguments() -> (arguments: Vec<Argument>) {
        let mut arguments: Vec<Argument> = Vec::new();
        arguments.push(
            Argument { name: String::from_str("id"), arg_type: ArgumentType::Id, required: true },
        );
        arguments
    }

    fn build_field(name: &str, data: &OperationData) -> (field: Field) {
        Field {
            name: String::from_str(name),
            field_type: FieldType::NullableEntity,
            entity: data.entity.name.clone(),
        }
    }
}

impl Operation for GetAll {
    open spec fn kind() -> OperationKind {
        OperationKind::GetAll
    }

    open spec fn name_prefix() -> Seq<char> {
        "getAll"@
    }

    open spec fn accepts(arguments: Seq<(Seq<char>, ArgumentValueView)>) -> bool {
        true
    }

    open spec fn planned_query(
        arguments: Seq<(Seq<char>, ArgumentValueView)>,
        base: AQLQueryView,
    ) -> AQLQueryView {
        get_all_query(base, int_argument(arguments, "limit"@))
    }

    open spec fn planned_binds(
        collection_name: Seq<char>,
        arguments: Seq<(Seq<char>, ArgumentValueView)>,
        base: AQLQueryView,
    ) -> Seq<(Seq<char>, Seq<char>)> {
        seq![(collection_key(base.collection), collection_name)]
    }

    open spec fn outcome(
        entity: Seq<char>,
        rows: Option<Seq<Seq<(Seq<char>, JsonValueView)>>>,
    ) -> Result<ValueView, Seq<char>> {
        match rows {
            Some(found) => Ok(ValueView::List(entity_values(found))),
            None => Ok(ValueView::List(Seq::empty())),
        }
    }

    open spec fn argument_contract() -> Seq<(Seq<char>, ArgumentType, bool)> {
        seq![("limit"@, ArgumentType::Int, false)]
    }

    open spec fn field_type() -> FieldType {
        FieldType::EntityList
    }

    fn operation_kind() -> (kind: OperationKind) {
        OperationKind::GetAll
    }

    fn accepts_arguments(arguments: &Arguments) -> (accepted: bool) {
        true
    }

    fn call(data: &OperationData, arguments: &Arguments, query: AQLQuery) -> (pending:
        PendingCall) {
        let mut query = query;
        query.limit = arguments.get_int("limit");
        let query_str = query.to_aql();
        let mut bind_vars = BindTable::new();
        bind_vars.bind_var(query.get_collection_key(), data.entity.collection_name.clone());
        PendingCall {
            kind: OperationKind::GetAll,
            entity: data.entity.name.clone(),
            request: StoreRequest { query: query_str, bind_vars },
        }
    }

    fn resolve(entity: String, response: StoreResponse) -> (result: ExecutionResult) {
        let mut output: Vec<Value> = Vec::new();
        match response {
            Ok(rows) => {
                let mut i: usize = 0;
                while i < rows.len()
                    invariant
                        i <= rows.len(),
                        output@.len() == i,
                        forall|j: int|
                            0 <= j < i ==> (#[trigger] output@[j])@ == entity_value(rows@[j]@),
                    decreases rows.len() - i,
                {
                    output.push(convert_json_to_juniper_value(&rows[i]));
                    i += 1;
                }
                proof {
                    lemma_list_view(output);
                    assert(item_views(output@) =~= entity_values(
                        response_rows(response).unwrap(),
                    ));
                }
            },
            Err(_) => {
                proof {
                    lemma_list_view(output);
                    assert(item_views(output@) =~= Seq::<ValueView>::empty());
                }
            },
        }
        Ok(Value::List(output))
    }

    fn operation_name_for(noun: &str) -> (name: String) {
        compose_operation_name("getAll", noun)
    }

    fn get_operation_name(data: &OperationData) -> (name: String) {
        let noun = entity_noun(data.entity.name.as_str(), 2);
        Self::operation_name_for(noun.as_str())
    }

    fn get_arguments() -> (arguments: Vec<Argument>) {
        let mut arguments: Vec<Argument> = Vec::new();
        arguments.push(
            Argument {
                name: String::from_str("limit"),
                arg_type: ArgumentType::Int,
                required: false,
            },
        );
        arguments
    }

    fn build_field(name: &str, data: &OperationData) -> (field: Field) {
        Field {
            name: String::from_str(name),
            field_type: FieldType::EntityList,
            entity: data.entity.name.clone(),
        }
    }
}

/// Whether `arguments` holds what an operation of the given kind requires.
pub open spec fn kind_accepts(
    kind: OperationKind,
    arguments: Seq<(Seq<char>, ArgumentValueView)>,
) -> bool {
    match kind {
        OperationKind::Get => Get::accepts(arguments),
        OperationKind::GetAll => GetAll::accepts(arguments),
    }
}

/// What an operation of the given kind plans for a call.
pub open spec fn planned_call(
    kind: OperationKind,
    entity: DbEntityView,
    arguments: Seq<(Seq<char>, ArgumentValueView)>,
    base: AQLQueryView,
) -> PendingCallView {
    match kind {
        OperationKind::Get => PendingCallView {
            kind,
            entity: entity.name,
            query: aql_text(Get::planned_query(arguments, base)),
            bind_vars: Get::planned_binds(entity.collection_name, arguments, base),
        },
        OperationKind::GetAll => PendingCallView {
            kind,
            entity: entity.name,
            query: aql_text(GetAll::planned_query(arguments, base)),
            bind_vars: GetAll::planned_binds(entity.collection_name, arguments, base),
        },
    }
}

/// The arguments that an operation of the given kind takes.
pub open spec fn kind_argument_contract(kind: OperationKind) -> Seq<(Seq<char>, ArgumentType, bool)> {
    match kind {
        OperationKind::Get => Get::argument_contract(),
        OperationKind::GetAll => GetAll::argument_contract(),
    }
}

/// What the field of an operation of the given kind yields.
pub open spec fn kind_field_type(kind: OperationKind) -> FieldType {
    match kind {
        OperationKind::Get => Get::field_type(),
        OperationKind::GetAll => GetAll::field_type(),
    }
}

/// How a call of the given kind ends.
pub open spec fn call_outcome(
    kind: OperationKind,
    entity: Seq<char>,
    rows: Option<Seq<Seq<(Seq<char>, JsonValueView)>>>,
) -> Result<ValueView, Seq<char>> {
    match kind {
        OperationKind::Get => Get::outcome(entity, rows),
        OperationKind::GetAll => GetAll::outcome(entity, rows),
    }
}

/// Whatever the arguments and the base query, `Get` filters on the
/// document's `_key`, compares for equality, and compares against a bind
/// parameter, never against a value written into the query.
pub proof fn lemma_get_filters_on_bound_key(
    arguments: Seq<(Seq<char>, ArgumentValueView)>,
    base: AQLQueryView,
)
    ensures
        Get::planned_query(arguments, base).filter == Some(key_filter()),
        key_filter().left_node == AQLNodeView::Parameter("_key"@),
        key_filter().operation == AQLOperation::EQUAL,
        key_filter().right_node is Bind,
        Get::planned_query(arguments, base).limit == Some(1i32),
{
}

/// On a query made by `AQLQuery::new`, the two values that `Get` binds
/// travel under different keys, whatever the namespace.
pub proof fn lemma_get_bind_keys_differ(namespace: Seq<char>)
    ensures
        collection_key("collection"@) != argument_key(namespace, "id"@),
{
    reveal_strlit("collection");
    reveal_strlit("@");
    reveal_strlit("_");
    reveal_strlit("id");
    let collection = collection_key("collection"@);
    let argument = argument_key(namespace, "id"@);
    assert(collection.len() == 11);
    assert(collection[10] == 'n');
    assert(argument.len() == namespace.len() + 3);
    assert(argument[argument.len() - 1] == 'd');
}

/// The text of a `Get` query does not depend on the arguments: two calls
/// on one base query execute the same text, whatever `id` each was given.
pub proof fn lemma_get_text_ignores_arguments(
    first: Seq<(Seq<char>, ArgumentValueView)>,
    second: Seq<(Seq<char>, ArgumentValueView)>,
    base: AQLQueryView,
)
    ensures
        aql_text(Get::planned_query(first, base)) == aql_text(Get::planned_query(second, base)),
{
}

/// A `GetAll` query carries the limit that was asked for, and no limit
/// where none was asked for; filter, collection and namespace are those of
/// the base query.
pub proof fn lemma_get_all_limit(arguments: Seq<(Seq<char>, ArgumentValueView)>, base: AQLQueryView)
    ensures
        GetAll::planned_query(arguments, base).limit == int_argument(arguments, "limit"@),
        GetAll::planned_query(arguments, base).filter == base.filter,
        GetAll::planned_query(arguments, base).collection == base.collection,
        GetAll::planned_query(arguments, base).bind_namespace == base.bind_namespace,
{
}

/// `Get` ends with the error exactly where the store failed or found no
/// document, and the error names the entity. Otherwise it ends with the
/// first document, converted.
pub proof fn lemma_get_outcome(entity: Seq<char>, rows: Option<Seq<Seq<(Seq<char>, JsonValueView)>>>)
    ensures
        (rows.is_none() || rows.unwrap().len() == 0) <==> Get::outcome(entity, rows) is Err,
        Get::outcome(entity, rows) is Err ==> Get::outcome(entity, rows) == Err::<
            ValueView,
            Seq<char>,
        >(entity),
        Get::outcome(entity, rows) is Ok ==> Get::outcome(entity, rows) == Ok::<
            ValueView,
            Seq<char>,
        >(entity_value(rows.unwrap()[0])),
{
}

/// `GetAll` never ends with the error. It yields one value for each
/// document, in the store's order, and the empty list where the store
/// found nothing or failed.
pub proof fn lemma_get_all_outcome(
    entity: Seq<char>,
    rows: Option<Seq<Seq<(Seq<char>, JsonValueView)>>>,
)
    ensures
        GetAll::outcome(entity, rows) is Ok,
        GetAll::outcome(entity, rows)->Ok_0 is List,
        rows.is_some() ==> GetAll::outcome(entity, rows)->Ok_0->List_0.len() == rows.unwrap().len(),
        rows.is_some() ==> forall|i: int|
            0 <= i < rows.unwrap().len() ==> #[trigger] GetAll::outcome(entity, rows)->Ok_0->List_0[i]
                == entity_value(rows.unwrap()[i]),
        rows.is_none() ==> GetAll::outcome(entity, rows)->Ok_0->List_0.len() == 0,
{
}

impl PendingCall {
    /// Ends the call with the store's answer to its request.
    pub fn resolve(self, response: StoreResponse) -> (result: ExecutionResult)
        ensures
            execution_view(result) == call_outcome(
                self.kind,
                self.entity@,
                response_rows(response),
            ),
    {
        match self.kind {
            OperationKind::Get => Get::resolve(self.entity, response),
            OperationKind::GetAll => GetAll::resolve(self.entity, response),
        }
    }
}

} // verus!
