//! The in-memory diagram store: the persistence boundary for diagram
//! definitions and their lifecycle metadata.
//!
//! The store keeps every diagram well-formed and holds at most one diagram
//! per code and at most one per business key, so "the governing diagram for
//! business X" is a single logical entity.

use vstd::prelude::*;

use crate::diagram::{Diagram, DiagramView};
use crate::errors::Error;
use crate::graph::diagram_wf;

verus! {

/// No two diagrams of the sequence share a code.
pub open spec fn codes_unique(s: Seq<DiagramView>) -> bool {
    forall|i: int, j: int|
        0 <= i < s.len() && 0 <= j < s.len() && i != j ==> (#[trigger] s[i]).code != (
        #[trigger] s[j]).code
}

/// No two diagrams of the sequence share a business key: a business maps to
/// at most one active diagram at a time.
pub open spec fn businesses_unique(s: Seq<DiagramView>) -> bool {
    forall|i: int, j: int|
        0 <= i < s.len() && 0 <= j < s.len() && i != j ==> (#[trigger] s[i]).business != (
        #[trigger] s[j]).business
}

/// Some diagram of the sequence carries this code.
pub open spec fn has_code(s: Seq<DiagramView>, code: Seq<char>) -> bool {
    exists|i: int| 0 <= i < s.len() && (#[trigger] s[i]).code == code
}

/// Some diagram of the sequence governs this business key.
pub open spec fn has_business(s: Seq<DiagramView>, business: Seq<char>) -> bool {
    exists|i: int| 0 <= i < s.len() && (#[trigger] s[i]).business == business
}

/// The index at which the diagram with this code stands.
pub open spec fn index_of_code(s: Seq<DiagramView>, code: Seq<char>) -> int {
    choose|i: int| 0 <= i < s.len() && (#[trigger] s[i]).code == code
}

/// The diagram of the sequence with this code, if any.
pub open spec fn lookup_code(s: Seq<DiagramView>, code: Seq<char>) -> Option<DiagramView> {
    if has_code(s, code) {
        Some(s[index_of_code(s, code)])
    } else {
        None
    }
}

/// The index at which the diagram governing this business key stands.
pub open spec fn index_of_business(s: Seq<DiagramView>, business: Seq<char>) -> int {
    choose|i: int| 0 <= i < s.len() && (#[trigger] s[i]).business == business
}

/// The diagram of the sequence governing this business key, if any.
pub open spec fn lookup_business(s: Seq<DiagramView>, business: Seq<char>) -> Option<DiagramView> {
    if has_business(s, business) {
        Some(s[index_of_business(s, business)])
    } else {
        None
    }
}

/// When codes are unique, an index holding `code` is the index the lookup
/// resolves to.
pub proof fn lemma_lookup_code_at(s: Seq<DiagramView>, code: Seq<char>, i: int)
    requires
        codes_unique(s),
        0 <= i < s.len(),
        s[i].code == code,
    ensures
        has_code(s, code),
        index_of_code(s, code) == i,
        lookup_code(s, code) == Some(s[i]),
{
    assert(has_code(s, code));
    let k = index_of_code(s, code);
    assert(0 <= k < s.len() && s[k].code == code);
}

/// When business keys are unique, an index holding `business` is the index
/// the lookup resolves to.
pub proof fn lemma_lookup_business_at(s: Seq<DiagramView>, business: Seq<char>, i: int)
    requires
        businesses_unique(s),
        0 <= i < s.len(),
        s[i].business == business,
    ensures
        has_business(s, business),
        index_of_business(s, business) == i,
        lookup_business(s, business) == Some(s[i]),
{
    assert(has_business(s, business));
    let k = index_of_business(s, business);
    assert(0 <= k < s.len() && s[k].business == business);
}

/// Reads are idempotent: the diagram a successful fetch returns is
/// determined by the store contents and the requested code alone, so two
/// fetches of one code without an intervening write return identical
/// results.  Concretely: any two diagrams held under one code are equal.
pub proof fn lemma_get_idempotent(
    s: Seq<DiagramView>,
    code: Seq<char>,
    d1: DiagramView,
    d2: DiagramView,
)
    requires
        codes_unique(s),
        s.contains(d1),
        d1.code == code,
        s.contains(d2),
        d2.code == code,
    ensures
        d1 == d2,
{
    let i = choose|i: int| 0 <= i < s.len() && s[i] == d1;
    let j = choose|j: int| 0 <= j < s.len() && s[j] == d2;
    assert(s[i].code == s[j].code);
}

/// The in-memory diagram store.
#[derive(Debug)]
pub struct DiagramStore {
    pub items: Vec<Diagram>,
}

impl View for DiagramStore {
    type V = Seq<DiagramView>;

    open spec fn view(&self) -> Seq<DiagramView> {
        Seq::new(self.items@.len(), |i: int| self.items@[i]@)
    }
}

impl DiagramStore {
    /// Every held diagram is well-formed, and both codes and business keys
    /// are unique across the store.
    pub open spec fn inv(&self) -> bool {
        &&& codes_unique(self@)
        &&& businesses_unique(self@)
        &&& forall|i: int| 0 <= i < self@.len() ==> diagram_wf(#[trigger] self@[i])
    }

    /// An empty store.
    pub fn new() -> (r: DiagramStore)
        ensures
            r.inv(),
            r@ == Seq::<DiagramView>::empty(),
    {
        let r = DiagramStore { items: Vec::new() };
        proof {
            assert(r@ =~= Seq::<DiagramView>::empty());
        }
        r
    }

    /// The index of the diagram with this code, if one is held.
    fn find_code(&self, code: &String) -> (r: Option<usize>)
        ensures
            r matches Some(i) ==> i < self@.len() && self@[i as int].code == code@,
            r is Some <==> has_code(self@, code@),
    {
        let mut i: usize = 0;
        while i < self.items.len()
            invariant
                i <= self@.len(),
                self@.len() == self.items@.len(),
                forall|j: int| 0 <= j < i ==> (#[trigger] self@[j]).code != code@,
            decreases self@.len() - i,
        {
            if self.items[i].code == *code {
                proof {
                    assert(self@[i as int].code == code@);
                }
                return Some(i);
            }
            i += 1;
        }
        None
    }

    /// The index of the diagram governing this business key, if one is held.
    fn find_business(&self, business: &String) -> (r: Option<usize>)
        ensures
            r matches Some(i) ==> i < self@.len() && self@[i as int].business == business@,
            r is Some <==> has_business(self@, business@),
    {
        let mut i: usize = 0;
        while i < self.items.len()
            invariant
                i <= self@.len(),
                self@.len() == self.items@.len(),
                forall|j: int| 0 <= j < i ==> (#[trigger] self@[j]).business != business@,
            decreases self@.len() - i,
        {
            if self.items[i].business == *business {
                proof {
                    assert(self@[i as int].business == business@);
                }
                return Some(i);
            }
            i += 1;
        }
        None
    }

    /// Saves a new diagram.  Fails with `Conflict`, leaving the store
    /// unchanged, iff the code or the business key is already in use.
    pub fn insert(&mut self, d: Diagram) -> (r: Result<(), Error>)
        requires
            old(self).inv(),
            diagram_wf(d@),
        ensures
            final(self).inv(),
            r is Ok <==> !has_code(old(self)@, d@.code) && !has_business(old(self)@, d@.business),
            r is Ok ==> final(self)@ == old(self)@.push(d@),
            r is Err ==> final(self)@ == old(self)@,
            r matches Err(e) ==> e is Conflict,
    {
        if self.find_code(&d.code).is_some() {
            return Err(Error::Conflict);
        }
        if self.find_business(&d.business).is_some() {
            return Err(Error::Conflict);
        }
        self.items.push(d);
        proof {
            assert(self@ =~= old(self)@.push(d@));
        }
        Ok(())
    }

    /// Fetches the diagram with this code as a snapshot.  Fails with
    /// `NotFound` iff no diagram carries the code.
    pub fn get(&self, code: &String) -> (r: Result<Diagram, Error>)
        requires
            self.inv(),
        ensures
            r is Ok <==> has_code(self@, code@),
            r matches Ok(d) ==> lookup_code(self@, code@) == Some(d@),
            r matches Err(e) ==> e is NotFound,
    {
        match self.find_code(code) {
            Some(i) => {
                let d = self.items[i].snapshot();
                proof {
                    lemma_lookup_code_at(self@, code@, i as int);
                }
                Ok(d)
            },
            None => Err(Error::NotFound),
        }
    }

    /// Fetches the diagram governing this business key as a snapshot.
    /// Fails with `NotFound` iff no diagram governs the key.
    pub fn get_by_business(&self, business: &String) -> (r: Result<Diagram, Error>)
        requires
            self.inv(),
        ensures
            r is Ok <==> has_business(self@, business@),
            r matches Ok(d) ==> lookup_business(self@, business@) == Some(d@),
            r matches Err(e) ==> e is NotFound,
    {
        match self.find_business(business) {
            Some(i) => {
                let d = self.items[i].snapshot();
                proof {
                    lemma_lookup_business_at(self@, business@, i as int);
                }
                Ok(d)
            },
            None => Err(Error::NotFound),
        }
    }

    /// Removes the diagram with this code.  Fails with `NotFound`, leaving
    /// the store unchanged, iff no diagram carries the code.
    pub fn delete(&mut self, code: &String) -> (r: Result<(), Error>)
        requires
            old(self).inv(),
        ensures
            final(self).inv(),
            r is Ok <==> has_code(old(self)@, code@),
            r is Err ==> final(self)@ == old(self)@,
            r matches Err(e) ==> e is NotFound,
            r is Ok ==> final(self)@ == old(self)@.remove(index_of_code(old(self)@, code@)),
    {
        match self.find_code(code) {
            Some(i) => {
                proof {
                    lemma_lookup_code_at(self@, code@, i as int);
                    old(self)@.remove_ensures(i as int);
                    self.items@.remove_ensures(i as int);
                }
                self.items.remove(i);
                proof {
                    assert(self@ =~= old(self)@.remove(i as int));
                    let s = old(self)@;
                    let t = self@;
                    assert forall|p: int, q: int|
                        0 <= p < t.len() && 0 <= q < t.len() && p != q implies (#[trigger] t[p]).code
                        != (#[trigger] t[q]).code && t[p].business != t[q].business by {
                        let p0: int = if p < i as int {
                            p
                        } else {
                            p + 1
                        };
                        let q0: int = if q < i as int {
                            q
                        } else {
                            q + 1
                        };
                        assert(t[p] == s[p0] && t[q] == s[q0]);
                    }
                    assert forall|p: int| 0 <= p < t.len() implies diagram_wf(#[trigger] t[p]) by {
                        let p0: int = if p < i as int {
                            p
                        } else {
                            p + 1
                        };
                        assert(t[p] == s[p0]);
                    }
                }
                Ok(())
            },
            None => Err(Error::NotFound),
        }
    }
}

} // verus!
