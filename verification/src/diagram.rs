//! The diagram data model.
//!
//! A diagram owns the directed graph of states and transitions for one
//! business process.  States are referenced by code, never by object
//! identity, and a loaded diagram is an immutable snapshot: validation never
//! observes a half-updated graph.

use vstd::prelude::*;

verus! {

/// One directed legal transition: a single step from one state code to
/// another.  No implicit reverse edge exists.
#[derive(Debug, PartialEq, Eq)]
pub struct Edge {
    pub from: String,
    pub to: String,
}

/// The mathematical model of a diagram: every text field as a sequence of
/// characters, states as the sequence of their codes, edges as ordered
/// pairs `(from, to)`.
#[verifier::ext_equal]
pub ghost struct DiagramView {
    pub code: Seq<char>,
    pub business: Seq<char>,
    pub states: Seq<Seq<char>>,
    pub edges: Seq<(Seq<char>, Seq<char>)>,
    pub created_by: u128,
    pub created_at: u64,
}

/// The codes of a list of states, as sequences of characters.
pub open spec fn strings_view(v: Seq<String>) -> Seq<Seq<char>> {
    Seq::new(v.len(), |i: int| v[i]@)
}

/// The `(from, to)` pairs of a list of edges.
pub open spec fn edges_view(v: Seq<Edge>) -> Seq<(Seq<char>, Seq<char>)> {
    Seq::new(v.len(), |i: int| (v[i].from@, v[i].to@))
}

/// A named directed graph of states and legal transitions for one business
/// process, together with its lifecycle metadata.
#[derive(Debug, PartialEq, Eq)]
pub struct Diagram {
    /// Unique identifier of the diagram.
    pub code: String,
    /// The process/domain key this diagram governs.
    pub business: String,
    /// The state codes of the workflow; each code is unique within the
    /// diagram and non-empty.
    pub states: Vec<String>,
    /// The directed legal transitions; every endpoint must be a declared
    /// state of this diagram.
    pub edges: Vec<Edge>,
    pub created_by: u128,
    pub created_at: u64,
}

impl View for Diagram {
    type V = DiagramView;

    open spec fn view(&self) -> DiagramView {
        DiagramView {
            code: self.code@,
            business: self.business@,
            states: strings_view(self.states@),
            edges: edges_view(self.edges@),
            created_by: self.created_by,
            created_at: self.created_at,
        }
    }
}

/// Copies a list of state codes.
fn copy_strings(v: &Vec<String>) -> (r: Vec<String>)
    ensures
        r@ == v@,
{
    let mut r: Vec<String> = Vec::new();
    let mut i: usize = 0;
    while i < v.len()
        invariant
            i <= v@.len(),
            r@.len() == i as int,
            forall|j: int| 0 <= j < i ==> r@[j] == v@[j],
        decreases v@.len() - i,
    {
        r.push(v[i].clone());
        i += 1;
    }
    proof {
        assert(r@ =~= v@);
    }
    r
}

/// Copies a list of edges.
fn copy_edges(v: &Vec<Edge>) -> (r: Vec<Edge>)
    ensures
        edges_view(r@) == edges_view(v@),
{
    let mut r: Vec<Edge> = Vec::new();
    let mut i: usize = 0;
    while i < v.len()
        invariant
            i <= v@.len(),
            r@.len() == i as int,
            forall|j: int| 0 <= j < i ==> r@[j].from@ == v@[j].from@ && r@[j].to@ == v@[j].to@,
        decreases v@.len() - i,
    {
        let e = Edge { from: v[i].from.clone(), to: v[i].to.clone() };
        r.push(e);
        i += 1;
    }
    proof {
        assert(edges_view(r@) =~= edges_view(v@));
    }
    r
}

impl Diagram {
    /// An immutable value copy of this diagram, so a caller holds a
    /// snapshot that later writes to the store cannot change.
    pub fn snapshot(&self) -> (r: Diagram)
        ensures
            r@ == self@,
    {
        let r = Diagram {
            code: self.code.clone(),
            business: self.business.clone(),
            states: copy_strings(&self.states),
            edges: copy_edges(&self.edges),
            created_by: self.created_by,
            created_at: self.created_at,
        };
        proof {
            assert(r@ =~= self@);
        }
        r
    }
}

} // verus!
