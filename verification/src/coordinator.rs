//! The order state coordinator: the only path by which an order's state
//! changes, and the entry point for order creation and fetch.
//!
//! A state change loads the order, resolves the diagram governing its
//! business key, asks the validator whether the single-edge transition is
//! legal, and only then commits the new state with a compare-and-swap
//! write.  Any failure leaves the order row provably unchanged.

use vstd::prelude::*;

use crate::diagram_store::{has_business, index_of_business};
use crate::diagram::DiagramView;
use crate::errors::Error;
use crate::graph::{has_state, legal_transition, TransitionGraph};
use crate::ids::{fresh_id, id_text, uuid_text_of};
use crate::order::{
    apply_update, cas_matches, has_order, index_of_order, lookup_order, Order, OrderRequest,
    OrderResponse, OrderStateUpdateRequest, OrderStore, OrderView,
};
use crate::validator::DiagramValidator;

verus! {

/// A state-update request carries a usable (non-nil) order identifier and a
/// non-empty requested state.
pub open spec fn update_request_wf(id: u128, state: Seq<char>) -> bool {
    id != 0 && state.len() > 0
}

/// A creation request carries a non-empty business key and a non-empty
/// initial state.
pub open spec fn create_request_wf(business: Seq<char>, state: Seq<char>) -> bool {
    business.len() > 0 && state.len() > 0
}

/// The order record held under this identifier (meaningful when one is).
pub open spec fn order_record(s: Seq<OrderView>, id: u128) -> OrderView {
    s[index_of_order(s, id)]
}

/// The diagram governing this business key (meaningful when one does).
pub open spec fn governing_diagram(s: Seq<DiagramView>, business: Seq<char>) -> DiagramView {
    s[index_of_business(s, business)]
}

/// The record a creation request yields: the generated identifier, the
/// requested reference (or the identifier's text when none was supplied),
/// business and initial state, stamped with the acting identity and time.
pub open spec fn created_order(
    id: u128,
    reference: Seq<char>,
    business: Seq<char>,
    state: Seq<char>,
    actor: u128,
    now: u64,
) -> OrderView {
    OrderView {
        id: id,
        order_id: reference,
        business: business,
        state: state,
        create_time: now,
        create_by: actor,
        update_time: now,
        update_by: actor,
    }
}

/// The human-facing reference of a new order: the requested one, or the
/// text of the generated identifier when the request supplies none.
pub open spec fn reference_of(requested: Option<String>, id: u128) -> Seq<char> {
    match requested {
        Some(s) => s@,
        None => uuid_text_of(id),
    }
}

/// Orchestrates order creation, fetch and the validated state change over
/// the diagram validator and the order store.
#[derive(Debug)]
pub struct OrderStateCoordinator {
    pub diagrams: DiagramValidator,
    pub orders: OrderStore,
}

impl OrderStateCoordinator {
    /// Both underlying stores are well-formed.
    pub open spec fn inv(&self) -> bool {
        self.diagrams.inv() && self.orders.inv()
    }

    /// A coordinator over empty stores.
    pub fn new() -> (r: OrderStateCoordinator)
        ensures
            r.inv(),
            r.diagrams@ == Seq::<DiagramView>::empty(),
            r.orders@ == Seq::<OrderView>::empty(),
    {
        OrderStateCoordinator { diagrams: DiagramValidator::new(), orders: OrderStore::new() }
    }

    /// Applies a requested state change to an order.  Succeeds iff the
    /// request is well-shaped, the order exists, a diagram governs the
    /// order's business, and `current -> requested` is one of its edges;
    /// on success the order's state, update time and updating identity are
    /// rewritten atomically and nothing else changes.  Every failure leaves
    /// the order row unchanged, and the error says which step refused:
    /// `Validation` for a malformed request, `NotFound` for a missing
    /// order, `Configuration` for a business without a diagram, and
    /// `InvalidTransition`, naming the pair, for a missing edge.
    pub fn state_update(&mut self, req: &OrderStateUpdateRequest, actor: u128, now: u64) -> (r:
        Result<(), Error>)
        requires
            old(self).inv(),
        ensures
            final(self).inv(),
            final(self).diagrams == old(self).diagrams,
            r is Err ==> final(self).orders@ == old(self).orders@,
            r is Ok <==> update_request_wf(req.order_id, req.state@) && has_order(
                old(self).orders@,
                req.order_id,
            ) && has_business(
                old(self).diagrams@,
                order_record(old(self).orders@, req.order_id).business,
            ) && legal_transition(
                governing_diagram(
                    old(self).diagrams@,
                    order_record(old(self).orders@, req.order_id).business,
                ),
                order_record(old(self).orders@, req.order_id).state,
                req.state@,
            ),
            r is Ok ==> final(self).orders@ == apply_update(
                old(self).orders@,
                req.order_id,
                req.state@,
                actor,
                now,
            ),
            r matches Err(e) ==> ((e is Validation) <==> !update_request_wf(
                req.order_id,
                req.state@,
            )),
            r matches Err(e) ==> ((e is NotFound) <==> update_request_wf(req.order_id, req.state@)
                && !has_order(old(self).orders@, req.order_id)),
            r matches Err(e) ==> ((e is Configuration) <==> update_request_wf(
                req.order_id,
                req.state@,
            ) && has_order(old(self).orders@, req.order_id) && !has_business(
                old(self).diagrams@,
                order_record(old(self).orders@, req.order_id).business,
            )),
            r matches Err(e) ==> ((e matches Error::InvalidTransition { .. })
                <==> update_request_wf(req.order_id, req.state@) && has_order(
                old(self).orders@,
                req.order_id,
            ) && has_business(
                old(self).diagrams@,
                order_record(old(self).orders@, req.order_id).business,
            ) && !legal_transition(
                governing_diagram(
                    old(self).diagrams@,
                    order_record(old(self).orders@, req.order_id).business,
                ),
                order_record(old(self).orders@, req.order_id).state,
                req.state@,
            )),
            r matches Err(Error::InvalidTransition { from: f, to: t }) ==> f@ == order_record(
                old(self).orders@,
                req.order_id,
            ).state && t@ == req.state@,
            r matches Err(Error::Validation(m)) ==> m@
                == "order id and requested state must be supplied"@,
    {
        if req.order_id == 0 || req.state.as_str().is_empty() {
            return Err(Error::Validation("order id and requested state must be supplied".to_owned()));
        }
        let order = match self.orders.get(req.order_id) {
            Ok(o) => o,
            Err(e) => {
                return Err(e);
            },
        };
        proof {
            assert(order@ == order_record(self.orders@, req.order_id));
        }
        let diagram = match self.diagrams.get_by_business(&order.business) {
            Ok(d) => d,
            Err(_) => {
                return Err(Error::Configuration);
            },
        };
        proof {
            assert(diagram@ == governing_diagram(self.diagrams@, order@.business));
            let s = self.diagrams@;
            let i = index_of_business(s, order@.business);
            assert(0 <= i < s.len() && s[i].business == order@.business);
            crate::diagram_store::lemma_lookup_code_at(s, diagram@.code, i);
        }
        match self.diagrams.valid_transition(&diagram.code, &order.state, &req.state) {
            Ok(()) => {},
            Err(e) => {
                return Err(e);
            },
        }
        proof {
            assert(cas_matches(self.orders@, req.order_id, order@.state));
        }
        let r = self.orders.update_state(req.order_id, &order.state, &req.state, actor, now);
        proof {
            assert(r is Ok);
        }
        r
    }

    /// Creates an order under a caller-chosen identifier: the deterministic
    /// core of `insert`, exact about every outcome.  Succeeds iff the
    /// request is well-shaped, the identifier is non-nil and unused, a
    /// diagram governs the business, and the initial state is one of its
    /// states.
    pub fn insert_with_id(&mut self, req: &OrderRequest, actor: u128, now: u64, id: u128) -> (r:
        Result<OrderResponse, Error>)
        requires
            old(self).inv(),
        ensures
            final(self).inv(),
            final(self).diagrams == old(self).diagrams,
            r is Err ==> final(self).orders@ == old(self).orders@,
            r is Ok <==> id != 0 && create_request_wf(req.business@, req.state@) && has_business(
                old(self).diagrams@,
                req.business@,
            ) && has_state(
                governing_diagram(old(self).diagrams@, req.business@),
                req.state@,
            ) && !has_order(old(self).orders@, id),
            r matches Err(e) ==> ((e is Validation) <==> id == 0 || !create_request_wf(
                req.business@,
                req.state@,
            ) || (id != 0 && create_request_wf(req.business@, req.state@) && has_business(
                old(self).diagrams@,
                req.business@,
            ) && !has_state(governing_diagram(old(self).diagrams@, req.business@), req.state@))),
            r matches Err(e) ==> ((e is Configuration) <==> id != 0 && create_request_wf(
                req.business@,
                req.state@,
            ) && !has_business(old(self).diagrams@, req.business@)),
            r matches Err(e) ==> ((e is Conflict) <==> id != 0 && create_request_wf(
                req.business@,
                req.state@,
            ) && has_business(old(self).diagrams@, req.business@) && has_state(
                governing_diagram(old(self).diagrams@, req.business@),
                req.state@,
            ) && has_order(old(self).orders@, id)),
            r is Ok ==> final(self).orders@ == old(self).orders@.push(
                created_order(
                    id,
                    reference_of(req.order_id, id),
                    req.business@,
                    req.state@,
                    actor,
                    now,
                ),
            ),
            r matches Ok(resp) ==> resp.id == id && resp.order_id@ == reference_of(
                req.order_id,
                id,
            ) && resp.business@ == req.business@ && resp.state@ == req.state@,
            r matches Err(Error::Validation(m)) ==> m@ == (if id == 0 {
                "id is empty"@
            } else if !create_request_wf(req.business@, req.state@) {
                "business and state must be supplied"@
            } else {
                "state is not a state of the governing diagram"@
            }),
    {
        if id == 0 {
            return Err(Error::Validation("id is empty".to_owned()));
        }
        if req.business.as_str().is_empty() || req.state.as_str().is_empty() {
            return Err(Error::Validation("business and state must be supplied".to_owned()));
        }
        let diagram = match self.diagrams.get_by_business(&req.business) {
            Ok(d) => d,
            Err(_) => {
                return Err(Error::Configuration);
            },
        };
        proof {
            assert(diagram@ == governing_diagram(self.diagrams@, req.business@));
        }
        let graph = TransitionGraph::new(&diagram);
        if !graph.has_state(&req.state) {
            return Err(
                Error::Validation("state is not a state of the governing diagram".to_owned()),
            );
        }
        let reference = match &req.order_id {
            Some(s) => s.clone(),
            None => id_text(id),
        };
        let order = Order {
            id,
            order_id: reference.clone(),
            business: req.business.clone(),
            state: req.state.clone(),
            create_time: now,
            create_by: actor,
            update_time: now,
            update_by: actor,
        };
        proof {
            assert(order@ =~= created_order(
                id,
                reference_of(req.order_id, id),
                req.business@,
                req.state@,
                actor,
                now,
            ));
        }
        match self.orders.insert(order) {
            Ok(()) => Ok(
                OrderResponse {
                    id,
                    order_id: reference,
                    business: req.business.clone(),
                    state: req.state.clone(),
                },
            ),
            Err(e) => Err(e),
        }
    }

    /// Validates the creation request, resolves the initial state against
    /// the diagram governing the business, and persists the new order under
    /// a freshly generated identifier.  Only success versus a creation
    /// `Conflict` depends on the drawn identifier, and a `Conflict` can only
    /// arise once the store already holds orders; every other outcome —
    /// `Validation` for a malformed request or a non-member initial state,
    /// `Configuration` for an ungoverned business — is forced by the
    /// request and the stores alone, if and only if.
    pub fn insert(&mut self, req: &OrderRequest, actor: u128, now: u64) -> (r: Result<
        OrderResponse,
        Error,
    >)
        requires
            old(self).inv(),
        ensures
            final(self).inv(),
            final(self).diagrams == old(self).diagrams,
            r is Err ==> final(self).orders@ == old(self).orders@,
            r is Ok ==> create_request_wf(req.business@, req.state@) && has_business(
                old(self).diagrams@,
                req.business@,
            ) && has_state(governing_diagram(old(self).diagrams@, req.business@), req.state@),
            (r matches Err(Error::Validation(_))) <==> !create_request_wf(
                req.business@,
                req.state@,
            ) || (create_request_wf(req.business@, req.state@) && has_business(
                old(self).diagrams@,
                req.business@,
            ) && !has_state(governing_diagram(old(self).diagrams@, req.business@), req.state@)),
            (r matches Err(Error::Configuration)) <==> create_request_wf(
                req.business@,
                req.state@,
            ) && !has_business(old(self).diagrams@, req.business@),
            r matches Err(Error::Conflict) ==> create_request_wf(req.business@, req.state@)
                && has_business(old(self).diagrams@, req.business@) && has_state(
                governing_diagram(old(self).diagrams@, req.business@),
                req.state@,
            ) && old(self).orders@.len() > 0,
            create_request_wf(req.business@, req.state@) && has_business(
                old(self).diagrams@,
                req.business@,
            ) && has_state(governing_diagram(old(self).diagrams@, req.business@), req.state@)
                ==> r is Ok || r matches Err(Error::Conflict),
            old(self).orders@.len() == 0 && create_request_wf(req.business@, req.state@)
                && has_business(old(self).diagrams@, req.business@) && has_state(
                governing_diagram(old(self).diagrams@, req.business@),
                req.state@,
            ) ==> r is Ok,
            r matches Ok(resp) ==> resp.id != 0 && !has_order(old(self).orders@, resp.id)
                && final(self).orders@ == old(self).orders@.push(
                created_order(
                    resp.id,
                    reference_of(req.order_id, resp.id),
                    req.business@,
                    req.state@,
                    actor,
                    now,
                ),
            ) && resp.order_id@ == reference_of(req.order_id, resp.id) && resp.business@
                == req.business@ && resp.state@ == req.state@,
    {
        let id = fresh_id();
        let r = self.insert_with_id(req, actor, now, id);
        proof {
            if old(self).orders@.len() == 0 {
                assert(!has_order(old(self).orders@, id));
            }
            if has_order(old(self).orders@, id) {
                assert(old(self).orders@.len() > 0);
            }
        }
        r
    }

    /// Fetches an order by identifier.  Fails with `Validation` iff the
    /// identifier is nil, with `NotFound` iff no order carries it.
    pub fn get(&self, id: u128) -> (r: Result<Order, Error>)
        requires
            self.inv(),
        ensures
            r is Ok <==> id != 0 && has_order(self.orders@, id),
            r matches Ok(o) ==> lookup_order(self.orders@, id) == Some(o@),
            r matches Err(e) ==> ((e is Validation) <==> id == 0),
            r matches Err(e) ==> ((e is NotFound) <==> id != 0 && !has_order(self.orders@, id)),
            r matches Err(Error::Validation(m)) ==> m@ == "id is empty"@,
    {
        if id == 0 {
            return Err(Error::Validation("id is empty".to_owned()));
        }
        self.orders.get(id)
    }
}

} // verus!
