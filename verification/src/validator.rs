//! The diagram logic layer: shape validation on insertion and the
//! transition-legality query exposed to callers.

use vstd::prelude::*;

use crate::diagram::{Diagram, DiagramView};
use crate::diagram_store::{
    has_business, has_code, index_of_code, lookup_business, lookup_code, DiagramStore,
};
use crate::errors::Error;
use crate::graph::{contains_state, diagram_wf, legal_transition, TransitionGraph};

verus! {

/// The diagram as the store records it: the requested definition stamped
/// with the acting identity and the creation time.
pub open spec fn stamped(d: DiagramView, actor: u128, now: u64) -> DiagramView {
    DiagramView { created_by: actor, created_at: now, ..d }
}

/// Whether a requested diagram definition is acceptable: non-empty code and
/// business, a non-empty state set, and every edge between declared states.
fn check_definition(req: &Diagram) -> (r: bool)
    ensures
        r == diagram_wf(req@),
{
    if req.code.as_str().is_empty() {
        return false;
    }
    if req.business.as_str().is_empty() {
        return false;
    }
    if req.states.len() == 0 {
        return false;
    }
    let mut i: usize = 0;
    while i < req.edges.len()
        invariant
            i <= req.edges@.len(),
            req@.edges.len() == req.edges@.len(),
            forall|j: int|
                0 <= j < i ==> req@.states.contains((#[trigger] req@.edges[j]).0)
                    && req@.states.contains(req@.edges[j].1),
        decreases req.edges@.len() - i,
    {
        if !contains_state(&req.states, &req.edges[i].from) {
            proof {
                assert(req@.edges[i as int].0 == req.edges@[i as int].from@);
            }
            return false;
        }
        if !contains_state(&req.states, &req.edges[i].to) {
            proof {
                assert(req@.edges[i as int].1 == req.edges@[i as int].to@);
            }
            return false;
        }
        i += 1;
    }
    true
}

/// For a stored well-formed diagram, the transition query accepts exactly
/// the diagram's edges: the condition under which `valid_transition`
/// returns success holds for a pair `(a, b)` iff `(a, b)` is an edge of the
/// diagram held under the code, and fails for every other pair.
pub proof fn lemma_valid_transition_iff_edge(
    s: Seq<DiagramView>,
    code: Seq<char>,
    a: Seq<char>,
    b: Seq<char>,
)
    requires
        has_code(s, code),
        forall|i: int| 0 <= i < s.len() ==> diagram_wf(#[trigger] s[i]),
    ensures
        (lookup_code(s, code) matches Some(d) && legal_transition(d, a, b)) <==> crate::graph::has_edge(
            s[index_of_code(s, code)],
            a,
            b,
        ),
{
    let i = index_of_code(s, code);
    assert(0 <= i < s.len() && s[i].code == code);
    crate::graph::lemma_edge_iff_legal(s[i], a, b);
}

/// Wraps the diagram store with the query and validation operations the
/// rest of the system calls.
#[derive(Debug)]
pub struct DiagramValidator {
    pub store: DiagramStore,
}

impl View for DiagramValidator {
    type V = Seq<DiagramView>;

    open spec fn view(&self) -> Seq<DiagramView> {
        self.store@
    }
}

impl DiagramValidator {
    /// The underlying store invariant: well-formed diagrams, unique codes,
    /// unique business keys.
    pub open spec fn inv(&self) -> bool {
        self.store.inv()
    }

    /// A validator over an empty store.
    pub fn new() -> (r: DiagramValidator)
        ensures
            r.inv(),
            r@ == Seq::<DiagramView>::empty(),
    {
        DiagramValidator { store: DiagramStore::new() }
    }

    /// Validates and saves a new diagram, stamped with the acting identity
    /// and the given creation time.  Fails with `Validation` iff the
    /// definition is malformed, with `Conflict` iff the code or the
    /// business key is already in use; any failure leaves the store
    /// unchanged.
    pub fn insert(&mut self, req: &Diagram, actor: u128, now: u64) -> (r: Result<(), Error>)
        requires
            old(self).inv(),
        ensures
            final(self).inv(),
            r is Ok <==> diagram_wf(req@) && !has_code(old(self)@, req@.code) && !has_business(
                old(self)@,
                req@.business,
            ),
            r is Ok ==> final(self)@ == old(self)@.push(stamped(req@, actor, now)),
            r is Err ==> final(self)@ == old(self)@,
            r matches Err(e) ==> ((e is Validation) <==> !diagram_wf(req@)),
            r matches Err(e) ==> ((e is Conflict) <==> diagram_wf(req@) && (has_code(
                old(self)@,
                req@.code,
            ) || has_business(old(self)@, req@.business))),
            r matches Err(Error::Validation(m)) ==> m@
                == "diagram code, business and states must be non-empty and every edge must connect declared states"@,
    {
        if !check_definition(req) {
            return Err(
                Error::Validation(
                    "diagram code, business and states must be non-empty and every edge must connect declared states".to_owned(),
                ),
            );
        }
        let mut d = req.snapshot();
        d.created_by = actor;
        d.created_at = now;
        proof {
            assert(d@ =~= stamped(req@, actor, now));
        }
        self.store.insert(d)
    }

    /// Fetches the diagram with this code as a snapshot.  Fails with
    /// `NotFound` iff no diagram carries the code.
    pub fn get(&self, code: &String) -> (r: Result<Diagram, Error>)
        requires
            self.inv(),
        ensures
            r is Ok <==> has_code(self@, code@),
            r matches Ok(d) ==> lookup_code(self@, code@) == Some(d@),
            r matches Err(e) ==> e is NotFound,
    {
        self.store.get(code)
    }

    /// Fetches the diagram governing this business key as a snapshot.
    /// Fails with `NotFound` iff no diagram governs the key.
    pub fn get_by_business(&self, business: &String) -> (r: Result<Diagram, Error>)
        requires
            self.inv(),
        ensures
            r is Ok <==> has_business(self@, business@),
            r matches Ok(d) ==> lookup_business(self@, business@) == Some(d@),
            r matches Err(e) ==> e is NotFound,
    {
        self.store.get_by_business(business)
    }

    /// Removes the diagram with this code.  Fails with `NotFound`, leaving
    /// the store unchanged, iff no diagram carries the code.  Orders whose
    /// business the removed diagram governed keep their rows; their future
    /// transitions fail as a configuration error until a replacement
    /// diagram exists.
    pub fn delete(&mut self, code: &String) -> (r: Result<(), Error>)
        requires
            old(self).inv(),
        ensures
            final(self).inv(),
            r is Ok <==> has_code(old(self)@, code@),
            r is Err ==> final(self)@ == old(self)@,
            r matches Err(e) ==> e is NotFound,
            r is Ok ==> final(self)@ == old(self)@.remove(index_of_code(old(self)@, code@)),
            r is Ok ==> !has_code(final(self)@, code@),
    {
        let r = self.store.delete(code);
        proof {
            if r is Ok {
                let s = old(self)@;
                let i = index_of_code(s, code@);
                assert(0 <= i < s.len() && s[i].code == code@);
                s.remove_ensures(i);
                assert forall|j: int| 0 <= j < self@.len() implies (#[trigger] self@[j]).code
                    != code@ by {
                    if j < i {
                        assert(self@[j] == s[j]);
                    } else {
                        assert(self@[j] == s[j + 1]);
                    }
                }
            }
        }
        r
    }

    /// Loads the diagram with this code and decides whether `from -> to` is
    /// a legal single-edge transition of it.  Fails with `NotFound` iff the
    /// code does not resolve, and with `InvalidTransition`, naming the
    /// offending pair, iff the diagram exists but holds no such edge.
    pub fn valid_transition(&self, code: &String, from: &String, to: &String) -> (r: Result<
        (),
        Error,
    >)
        requires
            self.inv(),
        ensures
            r is Ok <==> (lookup_code(self@, code@) matches Some(d) && legal_transition(
                d,
                from@,
                to@,
            )),
            r matches Err(e) ==> ((e is NotFound) <==> !has_code(self@, code@)),
            r matches Err(e) ==> ((e matches Error::InvalidTransition { .. }) <==> (lookup_code(
                self@,
                code@,
            ) matches Some(d) && !legal_transition(d, from@, to@))),
            r matches Err(Error::InvalidTransition { from: f, to: t }) ==> f@ == from@ && t@ == to@,
    {
        let d = match self.store.get(code) {
            Ok(d) => d,
            Err(e) => {
                return Err(e);
            },
        };
        let graph = TransitionGraph::new(&d);
        if graph.is_legal_transition(from, to) {
            Ok(())
        } else {
            Err(Error::InvalidTransition { from: from.clone(), to: to.clone() })
        }
    }
}

} // verus!
