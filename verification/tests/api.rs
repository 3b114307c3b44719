use service_registry::api::{ApiError, Context, Mutation, Query};
use service_registry::record::{NewSrv, Srv};
use service_registry::store::Database;

fn context() -> Context {
    Context { db: Database::new() }
}

fn new_srv(name: &str, desc: &str) -> NewSrv {
    NewSrv { name: name.to_string(), desc: desc.to_string() }
}

fn stored_srv(name: &str, desc: &str) -> Srv {
    Srv { name: name.to_string(), desc: desc.to_string() }
}

#[test]
fn api_version_is_fixed() {
    assert_eq!(Query::apiVersion(), "0.1.0");
}

#[test]
fn api_version_does_not_depend_on_the_registry() {
    let mut ctx = context();
    let before = Query::apiVersion();
    Mutation::createSrv(&mut ctx, new_srv("X", "Y")).unwrap();
    assert_eq!(Query::apiVersion(), before);
    assert_eq!(Query::apiVersion(), "0.1.0");
}

#[test]
fn srv_returns_what_is_stored() {
    let ctx = context();
    assert_eq!(Query::srv(&ctx, 0), Ok(stored_srv("Traffic Routing", "Mongo... sorry.")));
    assert_eq!(Query::srv(&ctx, 1), Ok(stored_srv("Main", "Here be dragons.")));
}

#[test]
fn srv_of_an_absent_identifier_is_not_found() {
    let ctx = context();
    assert_eq!(Query::srv(&ctx, 2), Err(ApiError::NotFound));
    assert_eq!(Query::srv(&ctx, -5), Err(ApiError::NotFound));
    assert_eq!(Query::srv(&ctx, i32::MAX), Err(ApiError::NotFound));
}

#[test]
fn not_found_is_reported_as_not_found() {
    assert_eq!(ApiError::NotFound.message(), "not found");
}

#[test]
fn create_then_query_round_trip() {
    let mut ctx = context();
    let created = Mutation::createSrv(&mut ctx, new_srv("X", "Y"));
    assert_eq!(created, Ok(stored_srv("X", "Y")));
    assert_eq!(Query::srv(&ctx, 2), Ok(stored_srv("X", "Y")));
}

#[test]
fn fresh_registry_scenario() {
    let mut ctx = context();
    assert_eq!(Query::srv(&ctx, 0), Ok(stored_srv("Traffic Routing", "Mongo... sorry.")));
    assert_eq!(Query::srv(&ctx, 2), Err(ApiError::NotFound));
    assert_eq!(Mutation::createSrv(&mut ctx, new_srv("X", "Y")), Ok(stored_srv("X", "Y")));
    assert_eq!(Query::srv(&ctx, 2), Ok(stored_srv("X", "Y")));
}

#[test]
fn creations_get_distinct_identifiers_in_order() {
    let mut ctx = context();
    let names = ["a", "b", "c", "d", "e"];
    for name in names {
        assert!(ctx.db.has_room());
        assert_eq!(Mutation::createSrv(&mut ctx, new_srv(name, "")), Ok(stored_srv(name, "")));
    }
    assert_eq!(Query::srv(&ctx, 2), Ok(stored_srv("a", "")));
    assert_eq!(Query::srv(&ctx, 3), Ok(stored_srv("b", "")));
    assert_eq!(Query::srv(&ctx, 4), Ok(stored_srv("c", "")));
    assert_eq!(Query::srv(&ctx, 5), Ok(stored_srv("d", "")));
    assert_eq!(Query::srv(&ctx, 6), Ok(stored_srv("e", "")));
    assert_eq!(Query::srv(&ctx, 7), Err(ApiError::NotFound));
}

#[test]
fn create_accepts_empty_texts() {
    let mut ctx = context();
    assert_eq!(Mutation::createSrv(&mut ctx, new_srv("", "")), Ok(stored_srv("", "")));
    assert_eq!(Query::srv(&ctx, 2), Ok(stored_srv("", "")));
}
