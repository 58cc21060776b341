use cw_deeplinks::error::ContractError;
use cw_deeplinks::execute::{
    create_deeplink, execute_create_deeplink, execute_create_deeplinks,
    execute_create_named_deeplink, execute_cyberlink, execute_delete_deeplink,
    execute_update_admins, execute_update_deeplink, execute_update_executors, validate_deeplink,
    CYBERLINK_ID_MSG,
};
use cw_deeplinks::response::{Attribute, CyberlinkSubMsg, Link};
use cw_deeplinks::state::{Config, Deeplink, DeeplinkState};
use cw_deeplinks::store::DeeplinkStore;

fn s(text: &str) -> String {
    text.to_string()
}

fn record(type_: &str, from: &str, to: &str) -> DeeplinkState {
    DeeplinkState { type_: s(type_), from: s(from), to: s(to) }
}

fn link(type_: &str, from: Option<&str>, to: Option<&str>) -> Deeplink {
    Deeplink { type_: s(type_), from: from.map(s), to: to.map(s) }
}

fn attrs(pairs: &[(&str, &str)]) -> Vec<Attribute> {
    pairs.iter().map(|(k, v)| Attribute { key: s(k), value: s(v) }).collect()
}

/// A store with one admin and one executor, and the named types `Type`,
/// `Person` and `Follows` (from a `Person` to anything).
fn seeded() -> DeeplinkStore {
    let config = Config { admins: vec![s("admin")], executors: vec![s("executor")] };
    let mut store = DeeplinkStore::new(config, 0);
    store.save_named_deeplink(s("Type"), record("Type", "Any", "Any"));
    store.save_named_deeplink(s("Person"), record("Type", "Any", "Any"));
    store.save_named_deeplink(s("Follows"), record("Type", "Person", "Any"));
    store.save_named_deeplink(s("alice"), record("Person", "Any", "Any"));
    store.save_named_deeplink(s("bob"), record("Person", "Any", "Any"));
    store.save_named_deeplink(s("post"), record("Type", "Any", "Any"));
    store
}

#[test]
fn named_deeplink_is_created_by_an_admin() {
    let mut store = seeded();
    let resp = execute_create_named_deeplink(&mut store, "admin", s("Likes"), link("Type", None, None))
        .unwrap();
    assert_eq!(resp.attributes, attrs(&[("action", "create_named_deeplink")]));
    assert!(resp.messages.is_empty());
    assert_eq!(store.last_id(), 1);
    assert_eq!(store.deeplink(1), Some(record("Type", "Any", "Any")));
    assert_eq!(store.named_deeplink(&s("Likes")), Some(record("Type", "Any", "Any")));
}

#[test]
fn named_deeplink_can_then_serve_as_a_type() {
    let mut store = seeded();
    execute_create_named_deeplink(&mut store, "admin", s("Likes"), link("Type", None, None)).unwrap();
    assert_eq!(validate_deeplink(&store, None, &link("Likes", None, None)), Ok(()));
    assert_eq!(create_deeplink(&mut store, link("Likes", None, None)), Ok(2));
    assert_eq!(store.deeplink(2), Some(record("Likes", "Likes", "Likes")));
}

#[test]
fn named_deeplink_refused_to_non_admin() {
    let mut store = seeded();
    let r = execute_create_named_deeplink(&mut store, "executor", s("Likes"), link("Type", None, None));
    assert_eq!(r, Err(ContractError::Unauthorized {}));
    assert_eq!(store.last_id(), 0);
    assert_eq!(store.named_deeplink(&s("Likes")), None);
}

#[test]
fn named_deeplink_keeps_given_endpoints() {
    let mut store = seeded();
    execute_create_named_deeplink(&mut store, "admin", s("f1"), link("Follows", Some("alice"), Some("bob")))
        .unwrap();
    assert_eq!(store.named_deeplink(&s("f1")), Some(record("Follows", "alice", "bob")));
    assert_eq!(store.deeplink(1), Some(record("Follows", "alice", "bob")));
}

#[test]
fn unnamed_deeplink_is_stored_under_the_next_id() {
    let mut store = seeded();
    let resp = execute_create_deeplink(&mut store, link("Follows", Some("alice"), Some("bob"))).unwrap();
    assert_eq!(resp.attributes, attrs(&[("action", "create_deeplink")]));
    assert_eq!(store.last_id(), 1);
    assert_eq!(store.deeplink(1), Some(record("Follows", "alice", "bob")));
    assert_eq!(store.named_deeplink(&s("Follows")), Some(record("Type", "Person", "Any")));
    execute_create_deeplink(&mut store, link("Type", None, None)).unwrap();
    assert_eq!(store.last_id(), 2);
    assert_eq!(store.deeplink(2), Some(record("Type", "Type", "Type")));
    assert_eq!(store.deeplink(1), Some(record("Follows", "alice", "bob")));
}

#[test]
fn ids_continue_from_the_last_issued() {
    let config = Config { admins: vec![s("admin")], executors: vec![] };
    let mut store = DeeplinkStore::new(config, 41);
    store.save_named_deeplink(s("Type"), record("Type", "Any", "Any"));
    assert_eq!(create_deeplink(&mut store, link("Type", None, None)), Ok(42));
}

#[test]
fn one_endpoint_alone_is_invalid() {
    let mut store = seeded();
    let r = execute_create_deeplink(&mut store, link("Follows", Some("alice"), None));
    assert_eq!(
        r,
        Err(ContractError::InvalidDeeplink { id: 0, from: s("alice"), to: s("_"), type_: s("Follows") })
    );
    let r = execute_create_deeplink(&mut store, link("Follows", None, Some("bob")));
    assert_eq!(
        r,
        Err(ContractError::InvalidDeeplink { id: 0, from: s("_"), to: s("bob"), type_: s("Follows") })
    );
    assert_eq!(store.last_id(), 0);
    assert_eq!(store.deeplink(1), None);
}

#[test]
fn unknown_type_is_refused() {
    let mut store = seeded();
    let r = execute_create_deeplink(&mut store, link("Nope", None, None));
    assert_eq!(r, Err(ContractError::TypeNotExists { type_: s("Nope") }));
    assert_eq!(store.last_id(), 0);
}

#[test]
fn unknown_from_is_refused() {
    let mut store = seeded();
    let r = execute_create_deeplink(&mut store, link("Follows", Some("carol"), Some("bob")));
    assert_eq!(r, Err(ContractError::FromNotExists { from: s("carol") }));
}

#[test]
fn unknown_to_is_refused() {
    let mut store = seeded();
    let r = execute_create_deeplink(&mut store, link("Follows", Some("alice"), Some("carol")));
    assert_eq!(r, Err(ContractError::ToNotExists { to: s("carol") }));
}

#[test]
fn endpoint_of_the_wrong_type_conflicts() {
    let mut store = seeded();
    let r = execute_create_named_deeplink(&mut store, "admin", s("f2"), link("Follows", Some("post"), Some("bob")));
    assert_eq!(
        r,
        Err(ContractError::TypeConflict {
            id: s("f2"),
            type_: s("Follows"),
            from: s("post"),
            to: s("bob"),
            expected_type: s("Follows"),
            expected_from: s("Person"),
            expected_to: s("Any"),
            received_type: s("Follows"),
            received_from: s("Type"),
            received_to: s("Person"),
        })
    );
    let r = execute_create_deeplink(&mut store, link("Follows", Some("post"), Some("bob")));
    match r {
        Err(ContractError::TypeConflict { id, .. }) => assert_eq!(id, s("_")),
        other => panic!("unexpected {:?}", other),
    }
    assert_eq!(store.last_id(), 0);
}

#[test]
fn conflict_on_the_to_end() {
    let mut store = seeded();
    store.save_named_deeplink(s("Authored"), record("Type", "Any", "Type"));
    let r = execute_create_deeplink(&mut store, link("Authored", Some("alice"), Some("bob")));
    match r {
        Err(ContractError::TypeConflict { expected_to, received_to, .. }) => {
            assert_eq!(expected_to, s("Type"));
            assert_eq!(received_to, s("Person"));
        },
        other => panic!("unexpected {:?}", other),
    }
}

#[test]
fn equal_endpoints_are_checked_as_a_pair() {
    let mut store = seeded();
    assert_eq!(execute_create_deeplink(&mut store, link("Follows", Some("alice"), Some("alice"))).is_ok(), true);
    assert_eq!(store.deeplink(1), Some(record("Follows", "alice", "alice")));
}

#[test]
fn batch_creates_each_in_turn() {
    let mut store = seeded();
    let resp = execute_create_deeplinks(
        &mut store,
        vec![link("Follows", Some("alice"), Some("bob")), link("Person", None, None)],
    )
    .unwrap();
    assert_eq!(resp.attributes, attrs(&[("action", "create_deeplinks")]));
    assert_eq!(store.last_id(), 2);
    assert_eq!(store.deeplink(1), Some(record("Follows", "alice", "bob")));
    assert_eq!(store.deeplink(2), Some(record("Person", "Person", "Person")));
}

#[test]
fn batch_stops_at_its_first_refusal_keeping_those_before() {
    let mut store = seeded();
    let r = execute_create_deeplinks(
        &mut store,
        vec![
            link("Person", None, None),
            link("Nope", None, None),
            link("Follows", Some("carol"), Some("bob")),
        ],
    );
    assert_eq!(r, Err(ContractError::TypeNotExists { type_: s("Nope") }));
    assert_eq!(store.last_id(), 1);
    assert_eq!(store.deeplink(1), Some(record("Person", "Person", "Person")));
    assert_eq!(store.deeplink(2), None);
}

#[test]
fn batch_refused_at_its_first_deeplink_creates_nothing() {
    let mut store = seeded();
    let r = execute_create_deeplinks(&mut store, vec![link("Nope", None, None), link("Person", None, None)]);
    assert_eq!(r, Err(ContractError::TypeNotExists { type_: s("Nope") }));
    assert_eq!(store.last_id(), 0);
    assert_eq!(store.deeplink(1), None);
}

#[test]
fn empty_batch_answers_and_changes_nothing() {
    let mut store = seeded();
    let resp = execute_create_deeplinks(&mut store, vec![]).unwrap();
    assert_eq!(resp.attributes, attrs(&[("action", "create_deeplinks")]));
    assert_eq!(store.last_id(), 0);
}

#[test]
fn update_answers_and_changes_nothing() {
    let resp = execute_update_deeplink(s("Type"), None, None).unwrap();
    assert_eq!(resp.attributes, attrs(&[("action", "update")]));
    assert!(resp.messages.is_empty());
}

#[test]
fn delete_marks_the_id_and_keeps_the_deeplink() {
    let mut store = seeded();
    execute_create_deeplink(&mut store, link("Type", None, None)).unwrap();
    let resp = execute_delete_deeplink(&mut store, "admin", 1).unwrap();
    assert_eq!(resp.attributes, attrs(&[("action", "delete_deeplink"), ("id", "1")]));
    assert_eq!(store.deleted_flag(1), Some(true));
    assert_eq!(store.deeplink(1), Some(record("Type", "Type", "Type")));
}

#[test]
fn delete_reports_the_id_in_decimal() {
    let mut store = seeded();
    let resp = execute_delete_deeplink(&mut store, "admin", 18446744073709551615).unwrap();
    assert_eq!(resp.attributes[1].value, s("18446744073709551615"));
    let resp = execute_delete_deeplink(&mut store, "admin", 0).unwrap();
    assert_eq!(resp.attributes[1].value, s("0"));
    let resp = execute_delete_deeplink(&mut store, "admin", 1050).unwrap();
    assert_eq!(resp.attributes[1].value, s("1050"));
    assert_eq!(store.deleted_flag(1050), Some(true));
}

#[test]
fn delete_refused_to_non_admin() {
    let mut store = seeded();
    let r = execute_delete_deeplink(&mut store, "executor", 3);
    assert_eq!(r, Err(ContractError::Unauthorized {}));
    assert_eq!(store.deleted_flag(3), None);
}

#[test]
fn admins_are_replaced() {
    let mut store = seeded();
    let resp = execute_update_admins(&mut store, "admin", Ok(vec![s("carol")])).unwrap();
    assert_eq!(resp.attributes, attrs(&[("action", "update_admins")]));
    assert!(store.can_modify("carol"));
    assert!(!store.can_modify("admin"));
    assert_eq!(store.config().executors, vec![s("executor")]);
    let r = execute_update_admins(&mut store, "admin", Ok(vec![s("admin")]));
    assert_eq!(r, Err(ContractError::Unauthorized {}));
}

#[test]
fn admins_update_fails_on_an_invalid_address() {
    let mut store = seeded();
    let r = execute_update_admins(&mut store, "admin", Err(s("Invalid input: human address too short")));
    assert_eq!(r, Err(ContractError::Std(s("Invalid input: human address too short"))));
    assert!(store.can_modify("admin"));
}

#[test]
fn unauthorized_comes_before_address_validation() {
    let mut store = seeded();
    let r = execute_update_executors(&mut store, "executor", Err(s("bad")));
    assert_eq!(r, Err(ContractError::Unauthorized {}));
}

#[test]
fn executors_are_replaced() {
    let mut store = seeded();
    let resp = execute_update_executors(&mut store, "admin", Ok(vec![s("e1"), s("e2")])).unwrap();
    assert_eq!(resp.attributes, attrs(&[("action", "update_executors")]));
    assert!(store.can_execute("e2"));
    assert!(!store.can_execute("executor"));
    assert_eq!(store.config().admins, vec![s("admin")]);
    let r = execute_update_executors(&mut store, "admin", Err(s("bad")));
    assert_eq!(r, Err(ContractError::Std(s("bad"))));
}

#[test]
fn cyberlink_is_relayed_for_an_executor() {
    let store = seeded();
    let links = vec![Link { from: s("Qm1"), to: s("Qm2") }];
    let resp = execute_cyberlink(&store, "executor", s("contract"), links).unwrap();
    assert!(resp.attributes.is_empty());
    assert_eq!(
        resp.messages,
        vec![CyberlinkSubMsg {
            id: CYBERLINK_ID_MSG,
            neuron: s("contract"),
            links: vec![Link { from: s("Qm1"), to: s("Qm2") }],
        }]
    );
    assert_eq!(CYBERLINK_ID_MSG, 42);
}

#[test]
fn cyberlink_refused_to_non_executor() {
    let store = seeded();
    let r = execute_cyberlink(&store, "admin", s("contract"), vec![]);
    assert_eq!(r, Err(ContractError::Unauthorized {}));
}

#[test]
fn entries_list_the_state() {
    let mut store = seeded();
    execute_create_deeplink(&mut store, link("Type", None, None)).unwrap();
    execute_delete_deeplink(&mut store, "admin", 7).unwrap();
    assert_eq!(store.deeplink_entries().len(), 1);
    assert_eq!(store.named_entries().len(), 6);
    assert_eq!(store.deleted_entries(), &vec![(7u64, true)]);
    store.save_named_deeplink(s("Type"), record("Type", "Type", "Type"));
    assert_eq!(store.named_entries().len(), 6);
    assert_eq!(store.named_deeplink(&s("Type")), Some(record("Type", "Type", "Type")));
}
