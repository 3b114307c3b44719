use service_registry::record::{NewSrv, Srv};
use service_registry::store::Database;

fn input(name: &str, desc: &str) -> NewSrv {
    NewSrv { name: name.to_string(), desc: desc.to_string() }
}

fn srv(name: &str, desc: &str) -> Srv {
    Srv { name: name.to_string(), desc: desc.to_string() }
}

#[test]
fn new_registry_holds_the_two_seed_definitions() {
    let db = Database::new();
    assert_eq!(db.get(0), Some(srv("Traffic Routing", "Mongo... sorry.")));
    assert_eq!(db.get(1), Some(srv("Main", "Here be dragons.")));
}

#[test]
fn new_registry_holds_nothing_else() {
    let db = Database::new();
    assert_eq!(db.get(2), None);
    assert_eq!(db.get(3), None);
    assert_eq!(db.get(-1), None);
    assert_eq!(db.get(i32::MAX), None);
    assert_eq!(db.get(i32::MIN), None);
}

#[test]
fn new_registry_has_room() {
    assert!(Database::new().has_room());
}

#[test]
fn add_returns_what_it_was_given() {
    let mut db = Database::new();
    assert_eq!(db.add(&input("X", "Y")), srv("X", "Y"));
}

#[test]
fn first_addition_is_stored_under_two() {
    let mut db = Database::new();
    assert_eq!(db.get(2), None);
    db.add(&input("X", "Y"));
    assert_eq!(db.get(2), Some(srv("X", "Y")));
    assert_eq!(db.get(3), None);
}

#[test]
fn add_leaves_the_other_definitions_as_they_were() {
    let mut db = Database::new();
    db.add(&input("X", "Y"));
    assert_eq!(db.get(0), Some(srv("Traffic Routing", "Mongo... sorry.")));
    assert_eq!(db.get(1), Some(srv("Main", "Here be dragons.")));
}

#[test]
fn additions_get_consecutive_identifiers() {
    let mut db = Database::new();
    for i in 0..50 {
        let name = format!("service {}", i);
        let desc = format!("description {}", i);
        assert_eq!(db.get(2 + i), None);
        assert_eq!(db.add(&input(&name, &desc)), srv(&name, &desc));
        assert_eq!(db.get(2 + i), Some(srv(&name, &desc)));
        assert_eq!(db.get(3 + i), None);
    }
    for i in 0..50 {
        let name = format!("service {}", i);
        let desc = format!("description {}", i);
        assert_eq!(db.get(2 + i), Some(srv(&name, &desc)));
    }
    assert!(db.has_room());
}

#[test]
fn equal_inputs_are_stored_separately() {
    let mut db = Database::new();
    db.add(&input("same", "same"));
    db.add(&input("same", "same"));
    assert_eq!(db.get(2), Some(srv("same", "same")));
    assert_eq!(db.get(3), Some(srv("same", "same")));
    assert_eq!(db.get(4), None);
}

#[test]
fn empty_texts_are_stored() {
    let mut db = Database::new();
    assert_eq!(db.add(&input("", "")), srv("", ""));
    assert_eq!(db.get(2), Some(srv("", "")));
}

#[test]
fn texts_outside_ascii_are_stored_unchanged() {
    let mut db = Database::new();
    db.add(&input("caf\u{e9}", "\u{1f980} crab"));
    assert_eq!(db.get(2), Some(srv("caf\u{e9}", "\u{1f980} crab")));
}

#[test]
fn get_hands_out_a_copy() {
    let db = Database::new();
    let mut copy = db.get(0).unwrap();
    copy.name.push_str(" changed");
    assert_eq!(db.get(0), Some(srv("Traffic Routing", "Mongo... sorry.")));
}

#[test]
fn input_converts_to_a_definition_with_the_same_texts() {
    assert_eq!(input("a", "b").to_srv(), srv("a", "b"));
}

#[test]
fn clone_keeps_both_texts() {
    assert_eq!(srv("a", "b").clone(), srv("a", "b"));
}
