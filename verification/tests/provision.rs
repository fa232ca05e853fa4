use alchemy_engine::provision::{holds_collection, needs_initialization};

#[test]
fn empty_store_needs_initialization() {
    assert!(needs_initialization(&Vec::new()));
}

#[test]
fn store_without_the_bookkeeping_collection_needs_initialization() {
    let names = vec![String::from("pandeys"), String::from("alchemy_collection")];
    assert!(needs_initialization(&names));
}

#[test]
fn store_with_the_bookkeeping_collection_is_initialized() {
    let names = vec![
        String::from("pandeys"),
        String::from("alchemy_collections"),
        String::from("users"),
    ];
    assert!(!needs_initialization(&names));
    assert!(!needs_initialization(&vec![String::from("alchemy_collections")]));
}

#[test]
fn holds_collection_compares_whole_names() {
    let names = vec![String::from("pandeys"), String::from("users")];
    assert!(holds_collection(&names, "pandeys"));
    assert!(holds_collection(&names, "users"));
    assert!(!holds_collection(&names, "pandey"));
    assert!(!holds_collection(&names, ""));
    assert!(!holds_collection(&Vec::new(), "pandeys"));
}
