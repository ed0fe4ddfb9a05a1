//! The pure, in-memory decision function over a diagram's edge set.
//!
//! A transition is legal exactly when it is a direct edge of the diagram
//! whose endpoints are declared states.  There is no implicit transitivity:
//! a multi-hop path does not make a pair legal, and a self-transition is
//! illegal unless it is itself an edge.

use vstd::prelude::*;

use crate::diagram::{strings_view, Diagram, DiagramView};

verus! {

/// `code` is a member of the diagram's state set.
pub open spec fn has_state(d: DiagramView, code: Seq<char>) -> bool {
    d.states.contains(code)
}

/// `(from, to)` is an edge of the diagram.
pub open spec fn has_edge(d: DiagramView, from: Seq<char>, to: Seq<char>) -> bool {
    d.edges.contains((from, to))
}

/// `(from, to)` is an edge of the diagram and both endpoints are declared
/// states: the single rule by which an order may change state.
pub open spec fn legal_transition(d: DiagramView, from: Seq<char>, to: Seq<char>) -> bool {
    has_edge(d, from, to) && has_state(d, from) && has_state(d, to)
}

/// Well-formedness of a diagram: non-empty code and business keys, a
/// non-empty state set, and every edge's endpoints declared in the state
/// set.
pub open spec fn diagram_wf(d: DiagramView) -> bool {
    &&& d.code.len() > 0
    &&& d.business.len() > 0
    &&& d.states.len() > 0
    &&& forall|i: int|
        0 <= i < d.edges.len() ==> has_state(d, (#[trigger] d.edges[i]).0) && has_state(
            d,
            d.edges[i].1,
        )
}

/// Membership of `code` in a list of state codes.
pub fn contains_state(states: &Vec<String>, code: &String) -> (r: bool)
    ensures
        r == strings_view(states@).contains(code@),
{
    let ghost model = strings_view(states@);
    let mut i: usize = 0;
    while i < states.len()
        invariant
            i <= states@.len(),
            model == strings_view(states@),
            forall|j: int| 0 <= j < i ==> model[j] != code@,
        decreases states@.len() - i,
    {
        if states[i] == *code {
            proof {
                assert(model[i as int] == code@);
            }
            return true;
        }
        i += 1;
    }
    false
}

/// Membership of `(from, to)` in a list of edges.
fn contains_edge(d: &Diagram, from: &String, to: &String) -> (r: bool)
    ensures
        r == has_edge(d@, from@, to@),
{
    let mut i: usize = 0;
    while i < d.edges.len()
        invariant
            i <= d.edges@.len(),
            forall|j: int| 0 <= j < i ==> d@.edges[j] != (from@, to@),
        decreases d.edges@.len() - i,
    {
        if d.edges[i].from == *from && d.edges[i].to == *to {
            proof {
                assert(d@.edges[i as int] == (from@, to@));
            }
            return true;
        }
        i += 1;
    }
    false
}

/// A read-only wrapper over one diagram snapshot that answers legality
/// queries; immutable for the duration of one validation call.
pub struct TransitionGraph<'a> {
    pub diagram: &'a Diagram,
}

impl<'a> View for TransitionGraph<'a> {
    type V = DiagramView;

    open spec fn view(&self) -> DiagramView {
        (*self.diagram)@
    }
}

impl<'a> TransitionGraph<'a> {
    /// Builds the decision function over one diagram snapshot.
    pub fn new(diagram: &'a Diagram) -> (r: Self)
        ensures
            r@ == diagram@,
    {
        TransitionGraph { diagram }
    }

    /// True iff `code` is a member of the diagram's state set.
    pub fn has_state(&self, code: &String) -> (r: bool)
        ensures
            r == has_state(self@, code@),
    {
        contains_state(&self.diagram.states, code)
    }

    /// True iff `(from, to)` is an edge of the diagram and both endpoints
    /// are declared states.
    pub fn is_legal_transition(&self, from: &String, to: &String) -> (r: bool)
        ensures
            r == legal_transition(self@, from@, to@),
    {
        contains_edge(self.diagram, from, to) && self.has_state(from) && self.has_state(to)
    }
}

/// In a well-formed diagram, legality of a pair coincides with edge
/// membership: every edge `(a, b)` of the diagram is a legal transition,
/// and every pair that is not an edge is illegal.
pub proof fn lemma_edge_iff_legal(d: DiagramView, a: Seq<char>, b: Seq<char>)
    requires
        diagram_wf(d),
    ensures
        legal_transition(d, a, b) <==> has_edge(d, a, b),
{
    if has_edge(d, a, b) {
        let i = choose|i: int| 0 <= i < d.edges.len() && d.edges[i] == (a, b);
        assert(has_state(d, d.edges[i].0) && has_state(d, d.edges[i].1));
    }
}

/// A state that is not in the diagram's state set can take part in no legal
/// transition, on either end and whatever the other endpoint is.
pub proof fn lemma_unknown_state_illegal(d: DiagramView, s: Seq<char>, other: Seq<char>)
    requires
        !has_state(d, s),
    ensures
        !legal_transition(d, s, other),
        !legal_transition(d, other, s),
{
}

} // verus!
