//! The query builder: a parameterised query and its text.
//!
//! A query names its collection and every value through bind parameters, so
//! the text never holds a value. The values travel beside the text, in a
//! bind table.

use crate::decimal::{decimal, push_decimal};
use vstd::prelude::*;

verus! {

/// The comparisons a filter can make.
#[allow(non_camel_case_types)]
#[derive(Clone, Copy, Debug, PartialEq, Eq)]
pub enum AQLOperation {
    EQUAL,
}

/// A field of the document that the query walks over.
#[derive(Debug, PartialEq)]
pub struct AQLQueryParameter(pub String);

/// A value bound at execution time, by the logical name of its argument.
#[derive(Debug, PartialEq)]
pub struct AQLQueryBind(pub String);

/// One side of a comparison.
#[derive(Debug, PartialEq)]
pub enum AQLNode {
    Parameter(AQLQueryParameter),
    Bind(AQLQueryBind),
}

/// A comparison of two nodes.
#[derive(Debug, PartialEq)]
pub struct AQLFilter {
    pub left_node: AQLNode,
    pub operation: AQLOperation,
    pub right_node: AQLNode,
}

/// A query over one collection.
#[derive(Debug, PartialEq)]
pub struct AQLQuery {
    /// The name of the bind parameter that stands for the collection.
    pub collection: String,
    /// The prefix of the bind keys handed out for arguments.
    pub bind_namespace: String,
    pub filter: Option<AQLFilter>,
    pub limit: Option<i32>,
}

/// What an `AQLNode` holds.
pub enum AQLNodeView {
    Parameter(Seq<char>),
    Bind(Seq<char>),
}

/// What an `AQLFilter` holds.
pub struct AQLFilterView {
    pub left_node: AQLNodeView,
    pub operation: AQLOperation,
    pub right_node: AQLNodeView,
}

/// What an `AQLQuery` holds.
pub struct AQLQueryView {
    pub collection: Seq<char>,
    pub bind_namespace: Seq<char>,
    pub filter: Option<AQLFilterView>,
    pub limit: Option<i32>,
}

impl View for AQLNode {
    type V = AQLNodeView;

    open spec fn view(&self) -> AQLNodeView {
        match self {
            AQLNode::Parameter(p) => AQLNodeView::Parameter(p.0@),
            AQLNode::Bind(b) => AQLNodeView::Bind(b.0@),
        }
    }
}

impl View for AQLFilter {
    type V = AQLFilterView;

    open spec fn view(&self) -> AQLFilterView {
        AQLFilterView {
            left_node: self.left_node@,
            operation: self.operation,
            right_node: self.right_node@,
        }
    }
}

impl View for AQLQuery {
    type V = AQLQueryView;

    open spec fn view(&self) -> AQLQueryView {
        AQLQueryView {
            collection: self.collection@,
            bind_namespace: self.bind_namespace@,
            filter: match self.filter {
                Some(f) => Some(f@),
                None => None,
            },
            limit: self.limit,
        }
    }
}

/// The bind key of the argument `name` in the namespace `namespace`.
pub open spec fn argument_key(namespace: Seq<char>, name: Seq<char>) -> Seq<char> {
    namespace + "_"@ + name
}

/// The bind key under which a collection's name travels: the parameter's
/// name behind an `@`.
pub open spec fn collection_key(collection: Seq<char>) -> Seq<char> {
    "@"@ + collection
}

/// The text of a comparison operator.
pub open spec fn operation_text(operation: AQLOperation) -> Seq<char> {
    match operation {
        AQLOperation::EQUAL => "=="@,
    }
}

/// The text of a node: a field of the walked document, or a bind parameter.
pub open spec fn node_text(node: AQLNodeView, namespace: Seq<char>) -> Seq<char> {
    match node {
        AQLNodeView::Parameter(field) => "a."@ + field,
        AQLNodeView::Bind(name) => "@"@ + argument_key(namespace, name),
    }
}

/// The filter clause, empty where the query has no filter.
pub open spec fn filter_text(filter: Option<AQLFilterView>, namespace: Seq<char>) -> Seq<char> {
    match filter {
        Some(f) => " FILTER "@ + node_text(f.left_node, namespace) + " "@ + operation_text(
            f.operation,
        ) + " "@ + node_text(f.right_node, namespace),
        None => Seq::empty(),
    }
}

/// The limit clause, empty where the query has no limit.
pub open spec fn limit_text(limit: Option<i32>) -> Seq<char> {
    match limit {
        Some(n) => " LIMIT "@ + decimal(n as int),
        None => Seq::empty(),
    }
}

/// The text of a query.
pub open spec fn aql_text(query: AQLQueryView) -> Seq<char> {
    "FOR a IN @"@ + collection_key(query.collection) + filter_text(
        query.filter,
        query.bind_namespace,
    ) + limit_text(query.limit) + " RETURN a"@
}

/// Within one namespace, different arguments get different bind keys.
pub proof fn lemma_argument_keys_differ(namespace: Seq<char>, first: Seq<char>, second: Seq<char>)
    requires
        argument_key(namespace, first) == argument_key(namespace, second),
    ensures
        first == second,
{
    let head = namespace + "_"@;
    let one = argument_key(namespace, first);
    let other = argument_key(namespace, second);
    assert(one.subrange(head.len() as int, one.len() as int) =~= first);
    assert(other.subrange(head.len() as int, other.len() as int) =~= second);
}

/// Queries that hold the same have the same text.
pub proof fn lemma_text_is_determined(first: AQLQuery, second: AQLQuery)
    requires
        first@ == second@,
    ensures
        aql_text(first@) == aql_text(second@),
{
}

/// The text of a query starts by walking the collection's bind parameter
/// and ends by returning the walked document, whatever filter and limit
/// stand between.
pub proof fn lemma_text_frame(query: AQLQueryView)
    ensures
        ("FOR a IN @"@ + collection_key(query.collection)).is_prefix_of(aql_text(query)),
        " RETURN a"@.is_suffix_of(aql_text(query)),
        query.filter.is_none() && query.limit.is_none() ==> aql_text(query) == "FOR a IN @"@
            + collection_key(query.collection) + " RETURN a"@,
{
    let head = "FOR a IN @"@ + collection_key(query.collection);
    let middle = filter_text(query.filter, query.bind_namespace) + limit_text(query.limit);
    let tail = " RETURN a"@;
    let text = aql_text(query);
    assert(text =~= head + middle + tail);
    assert(text.subrange(0, head.len() as int) =~= head);
    assert(text.subrange(text.len() - tail.len(), text.len() as int) =~= tail);
    if query.filter.is_none() && query.limit.is_none() {
        assert(middle =~= Seq::<char>::empty());
        assert(text =~= head + tail);
    }
}

impl AQLOperation {
    /// The operator as the query text writes it.
    pub fn to_aql(&self) -> (text: &'static str)
        ensures
            text@ == operation_text(*self),
    {
        match self {
            AQLOperation::EQUAL => "==",
        }
    }
}

impl AQLQuery {
    /// A query without filter or limit, over the collection parameter
    /// `collection`.
    pub fn new(bind_namespace: &str) -> (query: AQLQuery)
        ensures
            query@ == (AQLQueryView {
                collection: "collection"@,
                bind_namespace: bind_namespace@,
                filter: None,
                limit: None,
            }),
    {
        AQLQuery {
            collection: String::from_str("collection"),
            bind_namespace: String::from_str(bind_namespace),
            filter: None,
            limit: None,
        }
    }

    /// The bind key of the argument `name`. The key depends on the
    /// namespace and the name alone.
    pub fn get_argument_key(&self, name: &str) -> (key: String)
        ensures
            key@ == argument_key(self.bind_namespace@, name@),
    {
        let mut key = self.bind_namespace.clone();
        key.append("_");
        key.append(name);
        key
    }

    /// The bind key of the collection.
    pub fn get_collection_key(&self) -> (key: String)
        ensures
            key@ == collection_key(self.collection@),
    {
        let mut key = String::from_str("@");
        key.append(self.collection.as_str());
        key
    }

    /// Appends the text of a node.
    fn push_node(&self, out: &mut String, node: &AQLNode)
        ensures
            final(out)@ == old(out)@ + node_text(node@, self.bind_namespace@),
    {
        match node {
            AQLNode::Parameter(p) => {
                out.append("a.");
                out.append(p.0.as_str());
                assert(out@ == old(out)@ + ("a."@ + p.0@));
            },
            AQLNode::Bind(b) => {
                let key = self.get_argument_key(b.0.as_str());
                out.append("@");
                out.append(key.as_str());
                assert(out@ == old(out)@ + ("@"@ + key@));
            },
        }
    }

    /// Appends the filter clause.
    fn push_filter(&self, out: &mut String)
        ensures
            final(out)@ == old(out)@ + filter_text(self@.filter, self.bind_namespace@),
    {
        match &self.filter {
            Some(f) => {
                out.append(" FILTER ");
                self.push_node(out, &f.left_node);
                out.append(" ");
                out.append(f.operation.to_aql());
                out.append(" ");
                self.push_node(out, &f.right_node);
                assert(out@ == old(out)@ + filter_text(Some(f@), self.bind_namespace@));
            },
            None => {
                assert(out@ == old(out)@ + Seq::<char>::empty());
            },
        }
    }

    /// Appends the limit clause.
    fn push_limit(&self, out: &mut String)
        ensures
            final(out)@ == old(out)@ + limit_text(self.limit),
    {
        match self.limit {
            Some(n) => {
                out.append(" LIMIT ");
                push_decimal(out, n);
                assert(out@ == old(out)@ + (" LIMIT "@ + decimal(n as int)));
            },
            None => {
                assert(out@ == old(out)@ + Seq::<char>::empty());
            },
        }
    }

    /// Writes the query out. The text names the collection and the values
    /// by their bind parameters only.
    pub fn to_aql(&self) -> (text: String)
        ensures
            text@ == aql_text(self@),
    {
        let mut text = String::from_str("FOR a IN @");
        let key = self.get_collection_key();
        text.append(key.as_str());
        self.push_filter(&mut text);
        self.push_limit(&mut text);
        text.append(" RETURN a");
        text
    }
}

} // verus!
