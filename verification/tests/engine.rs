use stateflow::coordinator::OrderStateCoordinator;
use stateflow::diagram::{Diagram, Edge};
use stateflow::errors::Error;
use stateflow::graph::TransitionGraph;
use stateflow::order::{Order, OrderRequest, OrderStateUpdateRequest, OrderStore};
use stateflow::state::{validate, StateCreateRequest};
use stateflow::validator::DiagramValidator;

fn checkout_diagram() -> Diagram {
    Diagram {
        code: "checkout".to_string(),
        business: "shop".to_string(),
        states: vec!["NEW".to_string(), "PAID".to_string(), "SHIPPED".to_string()],
        edges: vec![
            Edge { from: "NEW".to_string(), to: "PAID".to_string() },
            Edge { from: "PAID".to_string(), to: "SHIPPED".to_string() },
        ],
        created_by: 0,
        created_at: 0,
    }
}

fn coordinator_with_checkout() -> OrderStateCoordinator {
    let mut c = OrderStateCoordinator::new();
    c.diagrams.insert(&checkout_diagram(), 1, 1).unwrap();
    c
}

#[test]
fn every_edge_is_legal_and_every_non_edge_is_rejected() {
    let mut v = DiagramValidator::new();
    v.insert(&checkout_diagram(), 1, 1).unwrap();
    let code = "checkout".to_string();
    let d = checkout_diagram();
    for e in &d.edges {
        assert_eq!(v.valid_transition(&code, &e.from, &e.to), Ok(()));
    }
    for from in &d.states {
        for to in &d.states {
            let is_edge = d.edges.iter().any(|e| e.from == *from && e.to == *to);
            let r = v.valid_transition(&code, from, to);
            if is_edge {
                assert_eq!(r, Ok(()));
            } else {
                match r {
                    Err(Error::InvalidTransition { from: f, to: t }) => {
                        assert_eq!(f, *from);
                        assert_eq!(t, *to);
                    },
                    other => panic!("expected InvalidTransition, got {:?}", other),
                }
            }
        }
    }
}

#[test]
fn unknown_state_is_never_legal_on_either_end() {
    let d = checkout_diagram();
    let g = TransitionGraph::new(&d);
    let ghost_state = "GHOST".to_string();
    assert!(!g.has_state(&ghost_state));
    for other in &d.states {
        assert!(!g.is_legal_transition(&ghost_state, other));
        assert!(!g.is_legal_transition(other, &ghost_state));
    }
    assert!(!g.is_legal_transition(&ghost_state, &ghost_state));
}

#[test]
fn self_transition_is_illegal_unless_an_edge() {
    let mut d = checkout_diagram();
    let g = TransitionGraph::new(&d);
    let new_state = "NEW".to_string();
    assert!(!g.is_legal_transition(&new_state, &new_state));
    d.edges.push(Edge { from: "NEW".to_string(), to: "NEW".to_string() });
    let g = TransitionGraph::new(&d);
    assert!(g.is_legal_transition(&new_state, &new_state));
}

#[test]
fn get_diagram_twice_returns_identical_results() {
    let mut v = DiagramValidator::new();
    v.insert(&checkout_diagram(), 1, 1).unwrap();
    let code = "checkout".to_string();
    let first = v.get(&code).unwrap();
    let second = v.get(&code).unwrap();
    assert_eq!(first, second);
}

#[test]
fn stale_state_update_commits_exactly_once() {
    let mut store = OrderStore::new();
    store
        .insert(Order {
            id: 9,
            order_id: "o-9".to_string(),
            business: "shop".to_string(),
            state: "NEW".to_string(),
            create_time: 1,
            create_by: 1,
            update_time: 1,
            update_by: 1,
        })
        .unwrap();
    let stale_from = "NEW".to_string();
    let first_target = "PAID".to_string();
    let second_target = "SHIPPED".to_string();
    // Two racing updates both validated against the stale state "NEW".
    let first = store.update_state(9, &stale_from, &first_target, 2, 2);
    let second = store.update_state(9, &stale_from, &second_target, 3, 3);
    assert_eq!(first, Ok(()));
    assert_eq!(second, Err(Error::Storage));
    let order = store.get(9).unwrap();
    assert_eq!(order.state, "PAID");
    assert_eq!(order.update_by, 2);
    assert_eq!(order.update_time, 2);
}

#[test]
fn insert_then_get_round_trip_keeps_the_initial_state() {
    let mut c = OrderStateCoordinator::new();
    let d = Diagram {
        code: "flow".to_string(),
        business: "B".to_string(),
        states: vec!["S0".to_string(), "S1".to_string()],
        edges: vec![Edge { from: "S0".to_string(), to: "S1".to_string() }],
        created_by: 1,
        created_at: 1,
    };
    c.diagrams.insert(&d, 1, 1).unwrap();
    let resp = c
        .insert(
            &OrderRequest {
                order_id: None,
                business: "B".to_string(),
                state: "S0".to_string(),
            },
            4,
            10,
        )
        .unwrap();
    let order = c.get(resp.id).unwrap();
    assert_eq!(order.state, "S0");
    assert_eq!(order.business, "B");
    assert_eq!(order.id, resp.id);
    assert_eq!(order.order_id, resp.order_id);
    assert_eq!(order.create_by, 4);
    assert_eq!(order.create_time, 10);
}

#[test]
fn checkout_scenario_follows_only_direct_edges() {
    let mut c = coordinator_with_checkout();
    let resp = c
        .insert(
            &OrderRequest {
                order_id: None,
                business: "shop".to_string(),
                state: "NEW".to_string(),
            },
            2,
            5,
        )
        .unwrap();
    // No direct edge NEW -> SHIPPED: rejected, order untouched.
    let skip = c.state_update(
        &OrderStateUpdateRequest { order_id: resp.id, state: "SHIPPED".to_string() },
        3,
        6,
    );
    match skip {
        Err(Error::InvalidTransition { from, to }) => {
            assert_eq!(from, "NEW");
            assert_eq!(to, "SHIPPED");
        },
        other => panic!("expected InvalidTransition, got {:?}", other),
    }
    assert_eq!(c.get(resp.id).unwrap().state, "NEW");
    // NEW -> PAID is an edge.
    let pay = c.state_update(
        &OrderStateUpdateRequest { order_id: resp.id, state: "PAID".to_string() },
        3,
        7,
    );
    assert_eq!(pay, Ok(()));
    assert_eq!(c.get(resp.id).unwrap().state, "PAID");
    // PAID -> SHIPPED is now one edge away.
    let ship = c.state_update(
        &OrderStateUpdateRequest { order_id: resp.id, state: "SHIPPED".to_string() },
        3,
        8,
    );
    assert_eq!(ship, Ok(()));
    let order = c.get(resp.id).unwrap();
    assert_eq!(order.state, "SHIPPED");
    assert_eq!(order.update_by, 3);
    assert_eq!(order.update_time, 8);
    assert_eq!(order.create_time, 5);
}

#[test]
fn deleting_the_diagram_turns_transitions_into_configuration_errors() {
    let mut c = coordinator_with_checkout();
    let resp = c
        .insert(
            &OrderRequest {
                order_id: None,
                business: "shop".to_string(),
                state: "NEW".to_string(),
            },
            2,
            5,
        )
        .unwrap();
    let code = "checkout".to_string();
    assert_eq!(c.diagrams.delete(&code), Ok(()));
    let r = c.state_update(
        &OrderStateUpdateRequest { order_id: resp.id, state: "PAID".to_string() },
        3,
        6,
    );
    assert_eq!(r, Err(Error::Configuration));
    // The order row itself is untouched.
    assert_eq!(c.get(resp.id).unwrap().state, "NEW");
}

#[test]
fn validate_rejects_exactly_the_empty_state_code() {
    assert_eq!(validate(&StateCreateRequest { code: "NEW".to_string() }), Ok(()));
    match validate(&StateCreateRequest { code: "".to_string() }) {
        Err(Error::Validation(msg)) => assert_eq!(msg, "Code is empty"),
        other => panic!("expected Validation, got {:?}", other),
    }
}

#[test]
fn malformed_diagrams_are_rejected_as_validation_errors() {
    let mut v = DiagramValidator::new();
    let mut empty_code = checkout_diagram();
    empty_code.code = "".to_string();
    assert!(matches!(v.insert(&empty_code, 1, 1), Err(Error::Validation(_))));

    let mut empty_business = checkout_diagram();
    empty_business.business = "".to_string();
    assert!(matches!(v.insert(&empty_business, 1, 1), Err(Error::Validation(_))));

    let mut no_states = checkout_diagram();
    no_states.states.clear();
    assert!(matches!(v.insert(&no_states, 1, 1), Err(Error::Validation(_))));

    let mut dangling_edge = checkout_diagram();
    dangling_edge.edges.push(Edge { from: "PAID".to_string(), to: "LOST".to_string() });
    assert!(matches!(v.insert(&dangling_edge, 1, 1), Err(Error::Validation(_))));

    // Nothing was stored by any rejected insertion.
    let code = "checkout".to_string();
    assert_eq!(v.get(&code), Err(Error::NotFound));
}

#[test]
fn duplicate_code_or_business_is_a_conflict() {
    let mut v = DiagramValidator::new();
    v.insert(&checkout_diagram(), 1, 1).unwrap();
    assert_eq!(v.insert(&checkout_diagram(), 1, 2), Err(Error::Conflict));
    let mut same_business = checkout_diagram();
    same_business.code = "checkout-v2".to_string();
    assert_eq!(v.insert(&same_business, 1, 2), Err(Error::Conflict));
}

#[test]
fn missing_diagrams_are_not_found() {
    let mut v = DiagramValidator::new();
    let code = "nowhere".to_string();
    assert_eq!(v.get(&code), Err(Error::NotFound));
    assert_eq!(v.delete(&code), Err(Error::NotFound));
    let from = "A".to_string();
    let to = "B".to_string();
    assert_eq!(v.valid_transition(&code, &from, &to), Err(Error::NotFound));
}

#[test]
fn order_fetch_validates_the_identifier() {
    let c = coordinator_with_checkout();
    match c.get(0) {
        Err(Error::Validation(msg)) => assert_eq!(msg, "id is empty"),
        other => panic!("expected Validation, got {:?}", other),
    }
    assert_eq!(c.get(12345), Err(Error::NotFound));
}

#[test]
fn state_update_validates_the_request_shape() {
    let mut c = coordinator_with_checkout();
    let nil_id = c.state_update(
        &OrderStateUpdateRequest { order_id: 0, state: "PAID".to_string() },
        1,
        1,
    );
    assert!(matches!(nil_id, Err(Error::Validation(_))));
    let empty_state = c.state_update(
        &OrderStateUpdateRequest { order_id: 7, state: "".to_string() },
        1,
        1,
    );
    assert!(matches!(empty_state, Err(Error::Validation(_))));
    let missing = c.state_update(
        &OrderStateUpdateRequest { order_id: 7, state: "PAID".to_string() },
        1,
        1,
    );
    assert_eq!(missing, Err(Error::NotFound));
}

#[test]
fn order_creation_checks_diagram_and_initial_state() {
    let mut c = coordinator_with_checkout();
    let no_diagram = c.insert(
        &OrderRequest {
            order_id: None,
            business: "warehouse".to_string(),
            state: "NEW".to_string(),
        },
        1,
        1,
    );
    assert_eq!(no_diagram, Err(Error::Configuration));
    let bad_state = c.insert(
        &OrderRequest {
            order_id: None,
            business: "shop".to_string(),
            state: "LOST".to_string(),
        },
        1,
        1,
    );
    match bad_state {
        Err(Error::Validation(msg)) => {
            assert_eq!(msg, "state is not a state of the governing diagram")
        },
        other => panic!("expected Validation, got {:?}", other),
    }
    let empty_business = c.insert(
        &OrderRequest {
            order_id: None,
            business: "".to_string(),
            state: "NEW".to_string(),
        },
        1,
        1,
    );
    match empty_business {
        Err(Error::Validation(msg)) => assert_eq!(msg, "business and state must be supplied"),
        other => panic!("expected Validation, got {:?}", other),
    }
}

#[test]
fn caller_chosen_identifiers_must_be_fresh_and_non_nil() {
    let mut c = coordinator_with_checkout();
    let req = OrderRequest {
        order_id: Some("ref-1".to_string()),
        business: "shop".to_string(),
        state: "NEW".to_string(),
    };
    assert!(matches!(c.insert_with_id(&req, 1, 1, 0), Err(Error::Validation(_))));
    let resp = c.insert_with_id(&req, 1, 1, 42).unwrap();
    assert_eq!(resp.id, 42);
    assert_eq!(resp.order_id, "ref-1");
    assert_eq!(resp.business, "shop");
    assert_eq!(resp.state, "NEW");
    assert_eq!(c.insert_with_id(&req, 1, 1, 42), Err(Error::Conflict));
}

#[test]
fn generated_identifiers_are_fresh_and_rendered_as_uuid_text() {
    let mut c = coordinator_with_checkout();
    let req = OrderRequest {
        order_id: None,
        business: "shop".to_string(),
        state: "NEW".to_string(),
    };
    let first = c.insert(&req, 1, 1).unwrap();
    let second = c.insert(&req, 1, 1).unwrap();
    assert_ne!(first.id, 0);
    assert_ne!(second.id, 0);
    assert_ne!(first.id, second.id);
    // With no reference supplied, the reference is the identifier's
    // canonical hyphenated text.
    assert_eq!(first.order_id.len(), 36);
    assert_eq!(first.order_id, uuid::Uuid::from_u128(first.id).to_string());
}

#[test]
fn response_time_is_the_difference_of_the_clock_readings() {
    let m = stateflow::middleware::HttpMiddleware.begin(1000);
    assert_eq!(m.response_time(1250), 250);
    assert_eq!(m.response_time(1000), 0);
    // A clock that moved backwards reports zero.
    assert_eq!(m.response_time(900), 0);
}
