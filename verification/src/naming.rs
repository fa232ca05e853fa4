//! The names under which operations and relationship edges are exposed.
//!
//! A name is put together from fixed text and an inflected noun. Changing
//! the case of a word and inflecting it are left to the `convert_case` and
//! `pluralizer` crates.

use vstd::prelude::*;

verus! {

/// The case styles that names are written in.
#[derive(Clone, Copy, Debug, PartialEq, Eq)]
pub enum CaseStyle {
    Pascal,
    Snake,
}

/// The text that `convert_case` makes of `text` in the given style.
pub uninterp spec fn case_converted(text: Seq<char>, style: CaseStyle) -> Seq<char>;

/// Rewrites `text` in the given case style.
///
/// Calls `convert_case::Casing::to_case` with the matching
/// `convert_case::Case`. Not proved: the conversion reads nothing but its
/// two arguments, so its result is the same text whenever they are the same.
#[verifier::external_body]
pub(crate) fn to_case(text: &str, style: CaseStyle) -> (converted: String)
    ensures
        converted@ == case_converted(text@, style),
{
    let case = match style {
        CaseStyle::Pascal => convert_case::Case::Pascal,
        CaseStyle::Snake => convert_case::Case::Snake,
    };
    convert_case::Casing::to_case(&text, case)
}

/// Inflects `word` for `count` things: the singular for exactly one, the
/// plural otherwise.
///
/// Calls `pluralizer::pluralize`. Nothing is claimed of the result: the
/// crate's rule tables are shared by the whole process and can be extended
/// while it runs.
#[verifier::external_body]
pub(crate) fn pluralize(word: &str, count: isize, include_count: bool) -> (inflected: String) {
    pluralizer::pluralize(word, count, include_count)
}

/// The name of an operation: its prefix, then the noun.
pub open spec fn operation_name(prefix: Seq<char>, noun: Seq<char>) -> Seq<char> {
    prefix + noun
}

/// The name of a relationship's edge: the owner, an underscore, then the
/// relationship's own name.
pub open spec fn edge_name(owner: Seq<char>, relationship: Seq<char>) -> Seq<char> {
    owner + "_"@ + relationship
}

/// Puts an operation's name together.
pub fn compose_operation_name(prefix: &str, noun: &str) -> (name: String)
    ensures
        name@ == operation_name(prefix@, noun@),
{
    let mut name = String::from_str(prefix);
    name.append(noun);
    name
}

/// Puts an edge's name together.
pub fn compose_edge_name(owner: &str, relationship: &str) -> (name: String)
    ensures
        name@ == edge_name(owner@, relationship@),
{
    let mut name = String::from_str(owner);
    name.append("_");
    name.append(relationship);
    name
}

/// The noun of an entity as operation names carry it: the entity's name in
/// Pascal case, inflected for `count`.
pub(crate) fn entity_noun(entity_name: &str, count: isize) -> (noun: String) {
    let cased = to_case(entity_name, CaseStyle::Pascal);
    pluralize(cased.as_str(), count, false)
}

/// The owner of an edge as its name carries it: the entity's name in snake
/// case, in the plural.
pub(crate) fn edge_owner(entity_name: &str) -> (owner: String) {
    let cased = to_case(entity_name, CaseStyle::Snake);
    pluralize(cased.as_str(), 2, false)
}

} // verus!
