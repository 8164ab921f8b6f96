//! The loan ledger of a locked VM: the outstanding loans of the contents of
//! objects, by address. Immutable loans are counted, so an object stays
//! frozen until every immutable loan of it is settled.

use crate::text::{concat2, concat3, hex_chars, u64_to_hex};
use std::collections::{HashMap, HashSet};
use vstd::multiset::Multiset;
use vstd::prelude::*;
use vstd::string::*;

verus! {

broadcast use {vstd::std_specs::hash::group_hash_axioms, vstd::multiset::group_multiset_axioms};

/// An error produced by a failed loan.
#[derive(Debug, PartialEq, Eq, Structural)]
pub enum LoanError {
    /// There is already an outstanding mutable loan for the object at this address.
    Mutating(usize),
    /// There is already an outstanding immutable loan for the object at this address.
    Frozen(usize),
}

/// An address as a pointer is displayed: `0x` and its lower-case
/// hexadecimal digits.
pub open spec fn address_chars(p: usize) -> Seq<char> {
    "0x"@ + hex_chars(p as nat)
}

impl LoanError {
    /// How the error is displayed.
    pub fn message(&self) -> (s: String)
        ensures
            s@ == (match *self {
                LoanError::Mutating(p) => "outstanding mutable loan exists for object at "@
                    + address_chars(p),
                LoanError::Frozen(p) => "object at "@ + address_chars(p) + " is frozen"@,
            }),
    {
        match *self {
            LoanError::Mutating(p) => {
                let digits = u64_to_hex(p as u64);
                concat3("outstanding mutable loan exists for object at ", "0x", digits.as_str())
            },
            LoanError::Frozen(p) => {
                let digits = u64_to_hex(p as u64);
                let address = concat2("0x", digits.as_str());
                concat3("object at ", address.as_str(), " is frozen")
            },
        }
    }
}

/// The immutable loans recorded by a map from each lent address to the
/// number of its outstanding loans, as a multiset of addresses.
pub open spec fn loan_counts(m: Map<usize, usize>) -> Multiset<usize> {
    Multiset::from_map(m.map_values(|c: usize| c as nat))
}

/// The number of loans of `p` is what the map records for it, or zero.
proof fn lemma_loan_count(m: Map<usize, usize>, p: usize)
    requires
        m.dom().finite(),
    ensures
        loan_counts(m).count(p) == (if m.contains_key(p) {
            m[p] as nat
        } else {
            0
        }),
{
    let mv = m.map_values(|c: usize| c as nat);
    assert(mv.dom() =~= m.dom());
    if m.contains_key(p) {
        vstd::multiset::axiom_multiset_contained(mv, p);
    } else {
        vstd::multiset::axiom_multiset_new_not_contained(mv, p);
    }
}

/// The outstanding loans: immutable loans counted per address, mutable
/// loans by address. No address is lent both ways.
pub struct LoanLedger {
    immutable_loans: HashMap<usize, usize>,
    mutable_loans: HashSet<usize>,
}

impl View for LoanLedger {
    /// The immutable loans, one element per outstanding loan, and the
    /// mutably lent addresses.
    type V = (Multiset<usize>, Set<usize>);

    closed spec fn view(&self) -> (Multiset<usize>, Set<usize>) {
        (loan_counts(self.immutable_loans@), self.mutable_loans@)
    }
}

impl LoanLedger {
    /// Every recorded address has at least one immutable loan, and no address
    /// is lent both immutably and mutably.
    #[verifier::type_invariant]
    closed spec fn inv(&self) -> bool {
        &&& forall|q: usize| #[trigger]
            self.immutable_loans@.contains_key(q) ==> self.immutable_loans@[q] >= 1
        &&& forall|q: usize| #[trigger]
            self.immutable_loans@.contains_key(q) ==> !self.mutable_loans@.contains(q)
    }

    /// No address is lent both immutably and mutably.
    pub open spec fn wf(&self) -> bool {
        forall|q: usize| #[trigger] self@.0.count(q) > 0 ==> !self@.1.contains(q)
    }

    /// The invariant, read through the view.
    proof fn lemma_view(&self, p: usize)
        requires
            self.inv(),
        ensures
            self@.0.count(p) > 0 <==> self.immutable_loans@.contains_key(p),
            self.wf(),
    {
        lemma_loan_count(self.immutable_loans@, p);
        assert forall|q: usize| #[trigger] self@.0.count(q) > 0 implies !self@.1.contains(q) by {
            lemma_loan_count(self.immutable_loans@, q);
        }
    }

    /// A ledger with no loans.
    pub fn new() -> (l: LoanLedger)
        ensures
            l@.0 == Multiset::<usize>::empty(),
            l@.1 == Set::<usize>::empty(),
            l.wf(),
    {
        let l = LoanLedger { immutable_loans: HashMap::new(), mutable_loans: HashSet::new() };
        proof {
            assert forall|q: usize| #[trigger] l@.0.count(q) == Multiset::<usize>::empty().count(q) by {
                lemma_loan_count(l.immutable_loans@, q);
            }
            assert(l@.0 =~= Multiset::<usize>::empty());
        }
        l
    }

    /// Lends the object at `p` immutably, unless it is lent mutably; every
    /// loan counts, so `p` stays lent until each loan is settled.
    pub fn try_borrow(&mut self, p: usize) -> (r: Result<(), LoanError>)
        requires
            old(self)@.0.count(p) < usize::MAX,
        ensures
            final(self).wf(),
            old(self)@.1.contains(p) ==> r == Err::<(), LoanError>(LoanError::Mutating(p))
                && final(self)@ == old(self)@,
            !old(self)@.1.contains(p) ==> r is Ok && final(self)@ == (
                old(self)@.0.insert(p),
                old(self)@.1,
            ),
    {
        proof {
            use_type_invariant(&*self);
            self.lemma_view(p);
        }
        if self.mutable_loans.contains(&p) {
            return Err(LoanError::Mutating(p));
        }
        let ghost before = self.immutable_loans@;
        let mut loans: HashMap<usize, usize> = HashMap::new();
        std::mem::swap(&mut loans, &mut self.immutable_loans);
        let c: usize = match loans.get(&p) {
            Some(c) => *c,
            None => 0,
        };
        proof {
            lemma_loan_count(before, p);
        }
        loans.insert(p, c + 1);
        proof {
            let after = loans@;
            assert forall|q: usize| #[trigger] loan_counts(after).count(q) == loan_counts(
                before,
            ).insert(p).count(q) by {
                lemma_loan_count(after, q);
                lemma_loan_count(before, q);
            }
            assert(loan_counts(after) =~= loan_counts(before).insert(p));
        }
        self.immutable_loans = loans;
        proof {
            self.lemma_view(p);
        }
        Ok(())
    }

    /// Ends one immutable loan of the object at `p`; the object stays lent
    /// while other immutable loans of it are outstanding.
    pub fn settle(&mut self, p: usize)
        ensures
            final(self).wf(),
            final(self)@ == (old(self)@.0.remove(p), old(self)@.1),
    {
        proof {
            use_type_invariant(&*self);
        }
        let ghost before = self.immutable_loans@;
        let mut loans: HashMap<usize, usize> = HashMap::new();
        std::mem::swap(&mut loans, &mut self.immutable_loans);
        let c: usize = match loans.get(&p) {
            Some(c) => *c,
            None => 0,
        };
        if c > 1 {
            loans.insert(p, c - 1);
        } else if c == 1 {
            loans.remove(&p);
        }
        proof {
            let after = loans@;
            assert forall|q: usize| #[trigger] loan_counts(after).count(q) == loan_counts(
                before,
            ).remove(p).count(q) by {
                lemma_loan_count(after, q);
                lemma_loan_count(before, q);
            }
            assert(loan_counts(after) =~= loan_counts(before).remove(p));
        }
        self.immutable_loans = loans;
        proof {
            self.lemma_view(p);
        }
    }

    /// Lends the object at `p` mutably, unless it is lent out already.
    pub fn try_borrow_mut(&mut self, p: usize) -> (r: Result<(), LoanError>)
        ensures
            final(self).wf(),
            old(self)@.1.contains(p) ==> r == Err::<(), LoanError>(LoanError::Mutating(p))
                && final(self)@ == old(self)@,
            !old(self)@.1.contains(p) && old(self)@.0.count(p) > 0 ==> r == Err::<
                (),
                LoanError,
            >(LoanError::Frozen(p)) && final(self)@ == old(self)@,
            !old(self)@.1.contains(p) && old(self)@.0.count(p) == 0 ==> r is Ok && final(self)@
                == (old(self)@.0, old(self)@.1.insert(p)),
    {
        proof {
            use_type_invariant(&*self);
            self.lemma_view(p);
        }
        if self.mutable_loans.contains(&p) {
            return Err(LoanError::Mutating(p));
        } else if self.immutable_loans.contains_key(&p) {
            return Err(LoanError::Frozen(p));
        }
        let mut loans: HashSet<usize> = HashSet::new();
        std::mem::swap(&mut loans, &mut self.mutable_loans);
        loans.insert(p);
        self.mutable_loans = loans;
        proof {
            self.lemma_view(p);
        }
        Ok(())
    }

    /// Ends the mutable loan of the object at `p`.
    pub fn settle_mut(&mut self, p: usize)
        ensures
            final(self).wf(),
            final(self)@ == (old(self)@.0, old(self)@.1.remove(p)),
    {
        proof {
            use_type_invariant(&*self);
        }
        let mut loans: HashSet<usize> = HashSet::new();
        std::mem::swap(&mut loans, &mut self.mutable_loans);
        loans.remove(&p);
        self.mutable_loans = loans;
        proof {
            self.lemma_view(p);
        }
    }

    /// Whether the object at `p` has an outstanding immutable loan.
    pub fn is_frozen(&self, p: usize) -> (b: bool)
        ensures
            b == (self@.0.count(p) > 0),
    {
        proof {
            use_type_invariant(self);
            self.lemma_view(p);
        }
        self.immutable_loans.contains_key(&p)
    }

    /// Whether the object at `p` is lent mutably.
    pub fn is_mutating(&self, p: usize) -> (b: bool)
        ensures
            b == self@.1.contains(p),
    {
        self.mutable_loans.contains(&p)
    }
}

/// Settling a loan right after a loan of the same address leaves the loans
/// as they were, however many loans of it were outstanding.
pub proof fn lemma_settle_undoes_loan(loans: Multiset<usize>, p: usize)
    ensures
        loans.insert(p).remove(p) == loans,
{
    broadcast use vstd::multiset::group_multiset_axioms;

    assert(loans.insert(p).remove(p) =~= loans);
}

/// A loan stays outstanding until it is settled: after two immutable loans
/// of an address and one settle, the address is still lent.
pub proof fn lemma_loans_are_counted(loans: Multiset<usize>, p: usize)
    ensures
        loans.insert(p).insert(p).remove(p).count(p) > 0,
{
    broadcast use vstd::multiset::group_multiset_axioms;

}

} // verus!
