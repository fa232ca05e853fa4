use alchemy_engine::metadata::{DbEntity, DbRelationship};
use alchemy_engine::naming::{compose_edge_name, compose_operation_name};
use alchemy_engine::operations::{Get, GetAll, Operation, OperationData};
use std::sync::Arc;

fn data_of(name: &str, collection: &str) -> OperationData {
    OperationData {
        entity: Arc::new(DbEntity::new(name, collection)),
        relationships: Arc::new(Vec::new()),
    }
}

#[test]
fn get_name_is_singular_pascal() {
    assert_eq!(Get::get_operation_name(&data_of("pandey", "pandeys")), "getPandey");
    assert_eq!(Get::get_operation_name(&data_of("Pandey", "pandeys")), "getPandey");
}

#[test]
fn get_all_name_is_plural_pascal() {
    assert_eq!(GetAll::get_operation_name(&data_of("pandey", "pandeys")), "getAllPandeys");
    assert_eq!(GetAll::get_operation_name(&data_of("Pandey", "pandeys")), "getAllPandeys");
}

#[test]
fn get_name_turns_a_plural_entity_into_the_singular() {
    assert_eq!(Get::get_operation_name(&data_of("users", "users")), "getUser");
    assert_eq!(GetAll::get_operation_name(&data_of("user", "users")), "getAllUsers");
}

#[test]
fn names_join_the_words_of_an_entity() {
    assert_eq!(Get::get_operation_name(&data_of("blog_post", "posts")), "getBlogPost");
    assert_eq!(GetAll::get_operation_name(&data_of("blog post", "posts")), "getAllBlogPosts");
}

#[test]
fn names_are_the_same_on_every_derivation() {
    let data = data_of("Pandey", "pandeys");
    assert_eq!(Get::get_operation_name(&data), Get::get_operation_name(&data));
    assert_eq!(GetAll::get_operation_name(&data), GetAll::get_operation_name(&data));
}

#[test]
fn operation_name_for_puts_the_prefix_first() {
    assert_eq!(Get::operation_name_for("Pandey"), "getPandey");
    assert_eq!(GetAll::operation_name_for("Pandeys"), "getAllPandeys");
    assert_eq!(Get::operation_name_for(""), "get");
    assert_eq!(GetAll::operation_name_for(""), "getAll");
}

#[test]
fn compose_operation_name_concatenates() {
    assert_eq!(compose_operation_name("get", "Thing"), "getThing");
    assert_eq!(compose_operation_name("", ""), "");
}

#[test]
fn compose_edge_name_joins_with_an_underscore() {
    assert_eq!(compose_edge_name("users", "likes"), "users_likes");
    assert_eq!(compose_edge_name("", ""), "_");
}

#[test]
fn relationship_edge_name_of_user_likes() {
    let relationship = DbRelationship::new("likes", DbEntity::new("User", "users"));
    assert_eq!(Get::get_relationship_edge_name(&relationship), "users_likes");
    assert_eq!(GetAll::get_relationship_edge_name(&relationship), "users_likes");
}

#[test]
fn relationship_edge_name_uses_snake_case() {
    let relationship = DbRelationship::new("wrote", DbEntity::new("BlogPost", "posts"));
    assert_eq!(Get::get_relationship_edge_name(&relationship), "blog_posts_wrote");
}

#[test]
fn entity_constructors_keep_their_arguments() {
    let entity = DbEntity::new("Pandey", "pandeys");
    assert_eq!(entity.name, "Pandey");
    assert_eq!(entity.collection_name, "pandeys");
    let relationship = DbRelationship::new("likes", DbEntity::new("User", "users"));
    assert_eq!(relationship.name, "likes");
    assert_eq!(relationship.from.name, "User");
    assert_eq!(relationship.from.collection_name, "users");
}
