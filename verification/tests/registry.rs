use std::any::TypeId;
use clockwork::modules::Service;
use clockwork::{Modules, StatusCode};

#[derive(Debug, PartialEq)]
struct Database {
    url: String,
}

#[derive(Debug, PartialEq)]
struct Mailer {
    port: u16,
}

#[test]
fn get_after_insert_returns_the_service() {
    let mut modules = Modules::new();
    assert!(modules.insert(Database { url: "db://one".to_string() }));
    assert_eq!(modules.get::<Database>(), Some(&Database { url: "db://one".to_string() }));
}

#[test]
fn get_of_a_type_never_inserted_is_absent() {
    let mut modules = Modules::new();
    assert!(modules.get::<Database>().is_none());
    assert!(modules.insert(Database { url: "db://one".to_string() }));
    assert!(modules.get::<Mailer>().is_none());
    assert!(modules.get::<String>().is_none());
}

#[test]
fn second_insert_of_a_type_is_rejected() {
    let mut modules = Modules::new();
    assert!(modules.insert(Database { url: "db://one".to_string() }));
    assert!(!modules.insert(Database { url: "db://two".to_string() }));
    assert_eq!(modules.get::<Database>(), Some(&Database { url: "db://one".to_string() }));
    assert_eq!(modules.len(), 1);
}

#[test]
fn services_of_different_types_live_side_by_side() {
    let mut modules = Modules::new();
    assert!(modules.insert(Database { url: "db://one".to_string() }));
    assert!(modules.insert(Mailer { port: 25 }));
    assert!(modules.insert(7u64));
    assert_eq!(modules.len(), 3);
    assert_eq!(modules.get::<Mailer>(), Some(&Mailer { port: 25 }));
    assert_eq!(modules.get::<u64>(), Some(&7u64));
    assert_eq!(modules.get::<Database>().map(|db| db.url.as_str()), Some("db://one"));
    assert!(modules.get::<u32>().is_none());
}

#[test]
fn new_registry_is_empty() {
    let modules = Modules::new();
    assert_eq!(modules.len(), 0);
    assert!(modules.get::<u8>().is_none());
}

#[test]
fn status_codes_have_their_numbers() {
    assert_eq!(StatusCode::ok().code, 200);
    assert_eq!(StatusCode::see_other().code, 303);
    assert_eq!(StatusCode::not_found().code, 404);
    assert_eq!(StatusCode::bad_request().code, 400);
    assert_eq!(StatusCode::new(418).code, 418);
    assert_eq!(StatusCode::new(404), StatusCode::not_found());
    assert_ne!(StatusCode::new(200), StatusCode::not_found());
}

#[test]
fn find_goes_by_the_identity_of_the_type() {
    let mut modules = Modules::new();
    assert!(modules.find(&TypeId::of::<Mailer>()).is_none());
    assert!(modules.insert(Mailer { port: 587 }));
    assert!(modules.find(&TypeId::of::<Mailer>()).is_some());
    assert!(modules.find(&TypeId::of::<Database>()).is_none());
    assert!(modules.find(&TypeId::of::<u16>()).is_none());
}

#[test]
fn offer_files_a_service_once() {
    let mut modules = Modules::new();
    let key = TypeId::of::<Mailer>();
    assert!(modules.offer(key, Service::new(Mailer { port: 25 })));
    assert!(!modules.offer(key, Service::new(Mailer { port: 26 })));
    assert_eq!(modules.len(), 1);
    assert_eq!(modules.get::<Mailer>(), Some(&Mailer { port: 25 }));
    assert!(!modules.insert(Mailer { port: 27 }));
    assert_eq!(modules.get::<Mailer>(), Some(&Mailer { port: 25 }));
}

#[test]
fn service_under_the_key_of_another_type_is_not_handed_out() {
    let mut modules = Modules::new();
    assert!(modules.offer(TypeId::of::<Database>(), Service::new(Mailer { port: 25 })));
    assert!(modules.find(&TypeId::of::<Database>()).is_some());
    assert!(modules.get::<Database>().is_none());
    assert!(modules.get::<Mailer>().is_none());
    assert!(!modules.insert(Database { url: "db://late".to_string() }));
    assert!(modules.insert(Mailer { port: 26 }));
    assert_eq!(modules.get::<Mailer>(), Some(&Mailer { port: 26 }));
}
