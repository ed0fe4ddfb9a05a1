//! The order data model and its in-memory store.
//!
//! An order carries a current state drawn from the diagram governing its
//! business key.  The store's state write is a compare-and-swap: it fails
//! when the persisted state no longer matches the state a transition was
//! validated against, so two racing updates validated against the same
//! stale state can never both commit.

use vstd::prelude::*;

use crate::errors::Error;

verus! {

/// The mathematical model of an order record.
#[verifier::ext_equal]
pub ghost struct OrderView {
    pub id: u128,
    pub order_id: Seq<char>,
    pub business: Seq<char>,
    pub state: Seq<char>,
    pub create_time: u64,
    pub create_by: u128,
    pub update_time: u64,
    pub update_by: u128,
}

/// One business transaction instance.
#[derive(Debug, PartialEq, Eq)]
pub struct Order {
    /// Opaque unique identifier; never the nil identifier `0`.
    pub id: u128,
    /// Human-facing reference; defaults to the text of `id` when the
    /// creation request supplies none.
    pub order_id: String,
    /// The process/domain key that selects the governing diagram.
    pub business: String,
    /// The current state code; changes only along an edge of the governing
    /// diagram, never arbitrarily.
    pub state: String,
    pub create_time: u64,
    pub create_by: u128,
    pub update_time: u64,
    pub update_by: u128,
}

impl View for Order {
    type V = OrderView;

    open spec fn view(&self) -> OrderView {
        OrderView {
            id: self.id,
            order_id: self.order_id@,
            business: self.business@,
            state: self.state@,
            create_time: self.create_time,
            create_by: self.create_by,
            update_time: self.update_time,
            update_by: self.update_by,
        }
    }
}

impl Order {
    /// An immutable value copy of this order record.
    pub fn snapshot(&self) -> (r: Order)
        ensures
            r@ == self@,
    {
        let r = Order {
            id: self.id,
            order_id: self.order_id.clone(),
            business: self.business.clone(),
            state: self.state.clone(),
            create_time: self.create_time,
            create_by: self.create_by,
            update_time: self.update_time,
            update_by: self.update_by,
        };
        proof {
            assert(r@ =~= self@);
        }
        r
    }
}

/// A request to create an order.
#[derive(Debug, PartialEq, Eq)]
pub struct OrderRequest {
    /// Optional human-facing reference; when absent the new order's
    /// internal identifier is used as the reference.
    pub order_id: Option<String>,
    /// The business key whose diagram governs the order.
    pub business: String,
    /// The initial state; must be a state of the governing diagram.
    pub state: String,
}

/// A request to move an order to a new state.
#[derive(Debug, PartialEq, Eq)]
pub struct OrderStateUpdateRequest {
    /// The internal identifier of the order.
    pub order_id: u128,
    /// The requested next state.
    pub state: String,
}

/// What the creation of an order reports back: the identifiers and the
/// initial state of the stored record.
#[derive(Debug, PartialEq, Eq)]
pub struct OrderResponse {
    pub id: u128,
    pub order_id: String,
    pub business: String,
    pub state: String,
}

/// No two orders of the sequence share an identifier.
pub open spec fn ids_unique(s: Seq<OrderView>) -> bool {
    forall|i: int, j: int|
        0 <= i < s.len() && 0 <= j < s.len() && i != j ==> (#[trigger] s[i]).id != (
        #[trigger] s[j]).id
}

/// Some order of the sequence carries this identifier.
pub open spec fn has_order(s: Seq<OrderView>, id: u128) -> bool {
    exists|i: int| 0 <= i < s.len() && (#[trigger] s[i]).id == id
}

/// The index at which the order with this identifier stands.
pub open spec fn index_of_order(s: Seq<OrderView>, id: u128) -> int {
    choose|i: int| 0 <= i < s.len() && (#[trigger] s[i]).id == id
}

/// The order of the sequence with this identifier, if any.
pub open spec fn lookup_order(s: Seq<OrderView>, id: u128) -> Option<OrderView> {
    if has_order(s, id) {
        Some(s[index_of_order(s, id)])
    } else {
        None
    }
}

/// The persisted state of the order with this identifier still matches
/// `expected`: the condition under which the compare-and-swap write commits.
pub open spec fn cas_matches(s: Seq<OrderView>, id: u128, expected: Seq<char>) -> bool {
    exists|i: int|
        0 <= i < s.len() && (#[trigger] s[i]).id == id && s[i].state == expected
}

/// The order record as the committed write leaves it: the new state and the
/// acting identity and time, every other attribute untouched.
pub open spec fn with_state(o: OrderView, state: Seq<char>, actor: u128, time: u64) -> OrderView {
    OrderView { state: state, update_by: actor, update_time: time, ..o }
}

/// The store contents after a committed write: the order with this
/// identifier rewritten by `with_state`, every other order untouched.
pub open spec fn apply_update(
    s: Seq<OrderView>,
    id: u128,
    state: Seq<char>,
    actor: u128,
    time: u64,
) -> Seq<OrderView> {
    Seq::new(
        s.len(),
        |i: int|
            if s[i].id == id {
                with_state(s[i], state, actor, time)
            } else {
                s[i]
            },
    )
}

/// When identifiers are unique, an index holding `id` is the index the
/// lookup resolves to.
pub proof fn lemma_lookup_order_at(s: Seq<OrderView>, id: u128, i: int)
    requires
        ids_unique(s),
        0 <= i < s.len(),
        s[i].id == id,
    ensures
        has_order(s, id),
        index_of_order(s, id) == i,
        lookup_order(s, id) == Some(s[i]),
{
    assert(has_order(s, id));
    let k = index_of_order(s, id);
    assert(0 <= k < s.len() && s[k].id == id);
}

/// Two writes cannot both commit against one stale read.  If the order
/// holds state `from` and a first compare-and-swap expecting `from` commits
/// a different state `to1`, then a second compare-and-swap that still
/// expects the stale `from` no longer matches: exactly one of the two
/// racing updates succeeds.  (When `to1 == from` the diagram holds a
/// self-edge, the committed write leaves the state unchanged, and the
/// second write matches again; such inputs are excluded here.)
pub proof fn lemma_stale_update_rejected(
    s: Seq<OrderView>,
    id: u128,
    from: Seq<char>,
    to1: Seq<char>,
    actor: u128,
    time: u64,
)
    requires
        cas_matches(s, id, from),
        to1 != from,
    ensures
        !cas_matches(apply_update(s, id, to1, actor, time), id, from),
{
    let t = apply_update(s, id, to1, actor, time);
    assert forall|i: int| 0 <= i < t.len() implies !((#[trigger] t[i]).id == id && t[i].state
        == from) by {
        if s[i].id == id {
            assert(t[i] == with_state(s[i], to1, actor, time));
        } else {
            assert(t[i] == s[i]);
        }
    }
}

/// Creation round trip: after a new order is appended to a store that did
/// not hold its identifier, looking that identifier up returns exactly the
/// appended record, with the state it was created with.
pub proof fn lemma_insert_get_round_trip(s: Seq<OrderView>, o: OrderView)
    requires
        ids_unique(s),
        !has_order(s, o.id),
    ensures
        ids_unique(s.push(o)),
        lookup_order(s.push(o), o.id) == Some(o),
{
    let t = s.push(o);
    assert forall|i: int, j: int|
        0 <= i < t.len() && 0 <= j < t.len() && i != j implies (#[trigger] t[i]).id != (
    #[trigger] t[j]).id by {
        if i < s.len() && j < s.len() {
        } else if i == s.len() {
            assert(t[j] == s[j]);
        } else {
            assert(t[i] == s[i]);
        }
    }
    lemma_lookup_order_at(t, o.id, s.len() as int);
}

/// The in-memory order store.
#[derive(Debug)]
pub struct OrderStore {
    pub items: Vec<Order>,
}

impl View for OrderStore {
    type V = Seq<OrderView>;

    open spec fn view(&self) -> Seq<OrderView> {
        Seq::new(self.items@.len(), |i: int| self.items@[i]@)
    }
}

impl OrderStore {
    /// Identifiers are unique across the store and never nil.
    pub open spec fn inv(&self) -> bool {
        &&& ids_unique(self@)
        &&& forall|i: int| 0 <= i < self@.len() ==> (#[trigger] self@[i]).id != 0
    }

    /// An empty store.
    pub fn new() -> (r: OrderStore)
        ensures
            r.inv(),
            r@ == Seq::<OrderView>::empty(),
    {
        let r = OrderStore { items: Vec::new() };
        proof {
            assert(r@ =~= Seq::<OrderView>::empty());
        }
        r
    }

    /// The index of the order with this identifier, if one is held.
    fn find(&self, id: u128) -> (r: Option<usize>)
        ensures
            r matches Some(i) ==> i < self@.len() && self@[i as int].id == id,
            r is Some <==> has_order(self@, id),
    {
        let mut i: usize = 0;
        while i < self.items.len()
            invariant
                i <= self@.len(),
                self@.len() == self.items@.len(),
                forall|j: int| 0 <= j < i ==> (#[trigger] self@[j]).id != id,
            decreases self@.len() - i,
        {
            if self.items[i].id == id {
                proof {
                    assert(self@[i as int].id == id);
                }
                return Some(i);
            }
            i += 1;
        }
        None
    }

    /// Persists a new order record.  Fails with `Conflict`, leaving the
    /// store unchanged, iff the record's identifier is already in use.
    pub fn insert(&mut self, order: Order) -> (r: Result<(), Error>)
        requires
            old(self).inv(),
            order@.id != 0,
        ensures
            final(self).inv(),
            r is Ok <==> !has_order(old(self)@, order@.id),
            r is Ok ==> final(self)@ == old(self)@.push(order@),
            r is Err ==> final(self)@ == old(self)@,
            r matches Err(e) ==> e is Conflict,
    {
        if self.find(order.id).is_some() {
            return Err(Error::Conflict);
        }
        self.items.push(order);
        proof {
            assert(self@ =~= old(self)@.push(order@));
        }
        Ok(())
    }

    /// Fetches the order with this identifier as a snapshot.  Fails with
    /// `NotFound` iff no order carries the identifier.
    pub fn get(&self, id: u128) -> (r: Result<Order, Error>)
        requires
            self.inv(),
        ensures
            r is Ok <==> has_order(self@, id),
            r matches Ok(o) ==> lookup_order(self@, id) == Some(o@),
            r matches Err(e) ==> e is NotFound,
    {
        match self.find(id) {
            Some(i) => {
                let o = self.items[i].snapshot();
                proof {
                    lemma_lookup_order_at(self@, id, i as int);
                }
                Ok(o)
            },
            None => Err(Error::NotFound),
        }
    }

    /// The compare-and-swap state write.  Commits the new state together
    /// with the acting identity and time iff the order exists and its
    /// persisted state still equals `expected`; a stale expectation fails
    /// with `Storage` (transient, the caller may re-read and retry) and a
    /// missing order with `NotFound`, both leaving the store unchanged.
    pub fn update_state(
        &mut self,
        id: u128,
        expected: &String,
        state: &String,
        actor: u128,
        time: u64,
    ) -> (r: Result<(), Error>)
        requires
            old(self).inv(),
        ensures
            final(self).inv(),
            r is Ok <==> cas_matches(old(self)@, id, expected@),
            r is Ok ==> final(self)@ == apply_update(old(self)@, id, state@, actor, time),
            r is Err ==> final(self)@ == old(self)@,
            r matches Err(e) ==> (e is NotFound <==> !has_order(old(self)@, id)),
            r matches Err(e) ==> (e is Storage <==> has_order(old(self)@, id) && !cas_matches(
                old(self)@,
                id,
                expected@,
            )),
    {
        let i = match self.find(id) {
            Some(i) => i,
            None => {
                proof {
                    assert(!cas_matches(self@, id, expected@));
                }
                return Err(Error::NotFound);
            },
        };
        if !(self.items[i].state == *expected) {
            proof {
                assert forall|j: int|
                    0 <= j < self@.len() implies !((#[trigger] self@[j]).id == id && self@[j].state
                    == expected@) by {
                    if self@[j].id == id {
                        assert(j == i as int);
                    }
                }
            }
            return Err(Error::Storage);
        }
        let updated = Order {
            id: self.items[i].id,
            order_id: self.items[i].order_id.clone(),
            business: self.items[i].business.clone(),
            state: state.clone(),
            create_time: self.items[i].create_time,
            create_by: self.items[i].create_by,
            update_time: time,
            update_by: actor,
        };
        self.items.set(i, updated);
        proof {
            let s = old(self)@;
            let t = self@;
            assert(cas_matches(s, id, expected@));
            assert forall|j: int| 0 <= j < t.len() implies t[j] == apply_update(
                s,
                id,
                state@,
                actor,
                time,
            )[j] by {
                if j == i as int {
                    assert(t[j] =~= with_state(s[j], state@, actor, time));
                } else {
                    assert(s[j].id != id);
                }
            }
            assert(t =~= apply_update(s, id, state@, actor, time));
            assert forall|p: int, q: int|
                0 <= p < t.len() && 0 <= q < t.len() && p != q implies (#[trigger] t[p]).id != (
            #[trigger] t[q]).id by {
                assert(t[p].id == s[p].id && t[q].id == s[q].id);
            }
            assert forall|p: int| 0 <= p < t.len() implies (#[trigger] t[p]).id != 0 by {
                assert(t[p].id == s[p].id);
            }
        }
        Ok(())
    }
}

} // verus!
