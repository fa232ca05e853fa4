//! Entity and relationship metadata, supplied once at start-up.

use vstd::prelude::*;

verus! {

/// An entity: its name and the collection that stores its documents.
#[derive(Debug, PartialEq)]
pub struct DbEntity {
    pub name: String,
    pub collection_name: String,
}

/// A named edge that starts at the entity `from`.
#[derive(Debug, PartialEq)]
pub struct DbRelationship {
    pub name: String,
    pub from: DbEntity,
}

/// What a `DbEntity` holds.
pub struct DbEntityView {
    pub name: Seq<char>,
    pub collection_name: Seq<char>,
}

/// What a `DbRelationship` holds.
pub struct DbRelationshipView {
    pub name: Seq<char>,
    pub from: DbEntityView,
}

impl View for DbEntity {
    type V = DbEntityView;

    open spec fn view(&self) -> DbEntityView {
        DbEntityView { name: self.name@, collection_name: self.collection_name@ }
    }
}

impl View for DbRelationship {
    type V = DbRelationshipView;

    open spec fn view(&self) -> DbRelationshipView {
        DbRelationshipView { name: self.name@, from: self.from@ }
    }
}

impl DbEntity {
    pub fn new(name: &str, collection_name: &str) -> (entity: DbEntity)
        ensures
            entity@ == (DbEntityView { name: name@, collection_name: collection_name@ }),
    {
        DbEntity {
            name: String::from_str(name),
            collection_name: String::from_str(collection_name),
        }
    }
}

impl DbRelationship {
    pub fn new(name: &str, from: DbEntity) -> (relationship: DbRelationship)
        ensures
            relationship@ == (DbRelationshipView { name: name@, from: from@ }),
    {
        DbRelationship { name: String::from_str(name), from }
    }
}

} // verus!
