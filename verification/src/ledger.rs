//! Dynamic borrow checking for binary data handed out while the VM is locked.
//!
//! Every active borrow is recorded as a half-open range of byte addresses
//! `[start, end)`. Immutable borrows may overlap each other; a mutable borrow
//! never overlaps any other active borrow.

use vstd::prelude::*;

verus! {

/// A half-open range of byte addresses `[start, end)`.
#[derive(Clone, Copy, Debug, PartialEq, Eq, Structural)]
pub struct ByteRange {
    pub start: usize,
    pub end: usize,
}

/// The two ranges share no byte, by the test the ledger applies.
pub open spec fn ranges_disjoint(a: ByteRange, b: ByteRange) -> bool {
    b.start >= a.end || a.start >= b.end
}

/// `r` is disjoint from every range of `existing`.
pub open spec fn disjoint_from_all(existing: Seq<ByteRange>, r: ByteRange) -> bool {
    forall|i: int| 0 <= i < existing.len() ==> ranges_disjoint(#[trigger] existing[i], r)
}

/// Whether two ranges of addresses are disjoint.
pub fn is_disjoint(a: &ByteRange, b: &ByteRange) -> (r: bool)
    ensures
        r == ranges_disjoint(*a, *b),
{
    b.start >= a.end || a.start >= b.end
}

/// The address `x` lies in the range `r`.
pub open spec fn range_contains(r: ByteRange, x: int) -> bool {
    r.start <= x < r.end
}

/// Ranges that share a byte are never treated as disjoint, and ranges that
/// end where the other begins are.
pub proof fn lemma_disjoint_means_no_shared_byte(a: ByteRange, b: ByteRange, x: int)
    ensures
        range_contains(a, x) && range_contains(b, x) ==> !ranges_disjoint(a, b),
        a.end <= b.start ==> ranges_disjoint(a, b),
        b.end <= a.start ==> ranges_disjoint(a, b),
{
}

/// A range that shares a byte with one of `existing` is not disjoint from
/// them all: a borrow of it is refused when `existing` are the borrows it
/// may not overlap.
pub proof fn lemma_shared_byte_refused(existing: Seq<ByteRange>, range: ByteRange, i: int, x: int)
    requires
        0 <= i < existing.len(),
        range_contains(existing[i], x),
        range_contains(range, x),
    ensures
        !disjoint_from_all(existing, range),
{
    lemma_disjoint_means_no_shared_byte(existing[i], range, x);
}

} // verus!

verus! {

/// The error returned when a borrow would overlap with an active borrow it
/// may not share memory with.
#[derive(Debug, PartialEq, Eq, Structural)]
pub struct BorrowError {
    _private: u8,
}

impl BorrowError {
    /// The one value a borrow error takes.
    pub closed spec fn spec_new() -> BorrowError {
        BorrowError { _private: 0 }
    }

    /// Creates the (only) borrow error.
    pub fn new() -> (e: BorrowError)
        ensures
            e == BorrowError::spec_new(),
    {
        BorrowError { _private: 0 }
    }

    /// The message of the error, as it is displayed.
    pub fn message(&self) -> (s: &'static str)
        ensures
            s@ == "Borrow overlaps with an active mutable borrow"@,
    {
        "Borrow overlaps with an active mutable borrow"
    }

    /// The message of the JavaScript error thrown for this error.
    pub fn error_name(&self) -> (s: &'static str)
        ensures
            s@ == "BorrowError"@,
    {
        "BorrowError"
    }
}

/// Checks that `range` overlaps none of the `existing` ranges.
pub fn check_overlap(existing: &[ByteRange], range: &ByteRange) -> (r: Result<(), BorrowError>)
    ensures
        r is Ok <==> disjoint_from_all(existing@, *range),
        r matches Err(e) ==> e == BorrowError::spec_new(),
{
    let mut i: usize = 0;
    while i < existing.len()
        invariant
            0 <= i <= existing@.len(),
            forall|k: int| 0 <= k < i ==> ranges_disjoint(#[trigger] existing@[k], *range),
        decreases existing@.len() - i,
    {
        if !is_disjoint(&existing[i], range) {
            return Err(BorrowError::new());
        }
        i = i + 1;
    }
    Ok(())
}

/// The range of byte addresses covered by `count` elements of `elem_size`
/// bytes each, starting at address `addr`.
pub fn slice_to_range(addr: usize, count: usize, elem_size: usize) -> (r: ByteRange)
    requires
        addr + count * elem_size <= usize::MAX,
    ensures
        r.start == addr,
        r.end == addr + count * elem_size,
{
    assert(0 <= count * elem_size) by (nonlinear_arith);
    let bytes = count * elem_size;
    ByteRange { start: addr, end: addr + bytes }
}

/// The position of the last occurrence of `r` in `s`, or `-1`.
pub open spec fn last_index_of(s: Seq<ByteRange>, r: ByteRange) -> int
    decreases s.len(),
{
    if s.len() == 0 {
        -1
    } else if s.last() == r {
        s.len() - 1
    } else {
        last_index_of(s.drop_last(), r)
    }
}

/// `s` with the last occurrence of `r` taken out.
pub open spec fn remove_last_occurrence(s: Seq<ByteRange>, r: ByteRange) -> Seq<ByteRange> {
    s.remove(last_index_of(s, r))
}

/// Mutable borrows overlap no other mutable borrow and no immutable borrow.
pub open spec fn ledger_wf(owned: Seq<ByteRange>, shared: Seq<ByteRange>) -> bool {
    &&& forall|i: int, j: int|
        0 <= i < owned.len() && 0 <= j < owned.len() && i != j ==> ranges_disjoint(
            #[trigger] owned[i],
            #[trigger] owned[j],
        )
    &&& forall|i: int, k: int|
        0 <= i < owned.len() && 0 <= k < shared.len() ==> ranges_disjoint(
            #[trigger] owned[i],
            #[trigger] shared[k],
        )
}

/// Facts about `last_index_of`: it is an index of `r` when `r` occurs, and no
/// later index holds `r`.
pub proof fn lemma_last_index_of(s: Seq<ByteRange>, r: ByteRange)
    ensures
        -1 <= last_index_of(s, r) < s.len(),
        s.contains(r) <==> last_index_of(s, r) >= 0,
        last_index_of(s, r) >= 0 ==> s[last_index_of(s, r)] == r,
        forall|k: int| last_index_of(s, r) < k < s.len() ==> s[k] != r,
    decreases s.len(),
{
    if s.len() > 0 {
        lemma_last_index_of(s.drop_last(), r);
        if s.last() != r {
            if s.contains(r) {
                let k = choose|k: int| 0 <= k < s.len() && s[k] == r;
                assert(s.drop_last()[k] == r);
            }
            if s.drop_last().contains(r) {
                let k = choose|k: int| 0 <= k < s.drop_last().len() && s.drop_last()[k] == r;
                assert(s[k] == r);
            }
            assert forall|k: int| last_index_of(s, r) < k < s.len() implies s[k] != r by {
                if k < s.len() - 1 {
                    assert(s[k] == s.drop_last()[k]);
                }
            }
        }
    }
}

/// The bookkeeping of the active borrows of one lock.
#[derive(Debug)]
pub struct Ledger {
    owned: Vec<ByteRange>,
    shared: Vec<ByteRange>,
}

/// A record of an active immutable borrow of a range.
#[derive(Debug)]
pub struct Ref {
    range: ByteRange,
}

/// A record of an active mutable borrow of a range.
#[derive(Debug)]
pub struct RefMut {
    range: ByteRange,
}

impl Ref {
    pub closed spec fn spec_range(&self) -> ByteRange {
        self.range
    }

    /// The borrowed range.
    pub fn range(&self) -> (r: ByteRange)
        ensures
            r == self.spec_range(),
    {
        self.range
    }
}

impl RefMut {
    pub closed spec fn spec_range(&self) -> ByteRange {
        self.range
    }

    /// The borrowed range.
    pub fn range(&self) -> (r: ByteRange)
        ensures
            r == self.spec_range(),
    {
        self.range
    }
}

impl View for Ledger {
    /// The mutable borrows and the immutable borrows, in the order they were taken.
    type V = (Seq<ByteRange>, Seq<ByteRange>);

    closed spec fn view(&self) -> (Seq<ByteRange>, Seq<ByteRange>) {
        (self.owned@, self.shared@)
    }
}

impl Ledger {
    /// Mutable borrows are exclusive, in every ledger.
    #[verifier::type_invariant]
    closed spec fn inv(&self) -> bool {
        ledger_wf(self.owned@, self.shared@)
    }

    /// The ledger keeps its invariant: mutable borrows are exclusive.
    pub open spec fn wf(&self) -> bool {
        ledger_wf(self@.0, self@.1)
    }

    /// An empty ledger.
    pub fn new() -> (l: Ledger)
        ensures
            l@.0 == Seq::<ByteRange>::empty(),
            l@.1 == Seq::<ByteRange>::empty(),
            l.wf(),
    {
        Ledger { owned: Vec::new(), shared: Vec::new() }
    }

    /// The number of active mutable borrows.
    pub fn owned_len(&self) -> (n: usize)
        ensures
            n == self@.0.len(),
    {
        self.owned.len()
    }

    /// The number of active immutable borrows.
    pub fn shared_len(&self) -> (n: usize)
        ensures
            n == self@.1.len(),
    {
        self.shared.len()
    }

    /// Records an immutable borrow of `range`, unless it overlaps an active
    /// mutable borrow.
    pub fn try_add_borrow(&mut self, range: ByteRange) -> (r: Result<(), BorrowError>)
        ensures
            final(self).wf(),
            r is Ok <==> disjoint_from_all(old(self)@.0, range),
            r is Ok ==> final(self)@ == (old(self)@.0, old(self)@.1.push(range)),
            r is Err ==> final(self)@ == old(self)@,
            r matches Err(e) ==> e == BorrowError::spec_new(),
    {
        proof {
            use_type_invariant(&*self);
        }
        let checked = check_overlap(self.owned.as_slice(), &range);
        match checked {
            Ok(()) => {
                let mut records: Vec<ByteRange> = Vec::new();
                std::mem::swap(&mut records, &mut self.shared);
                records.push(range);
                proof {
                    let owned = self.owned@;
                    let shared = records@;
                    assert forall|i: int, k: int|
                        0 <= i < owned.len() && 0 <= k < shared.len() implies ranges_disjoint(
                        #[trigger] owned[i],
                        #[trigger] shared[k],
                    ) by {
                        if k < shared.len() - 1 {
                            assert(shared[k] == old(self)@.1[k]);
                        }
                    }
                }
                self.shared = records;
                Ok(())
            },
            Err(e) => Err(e),
        }
    }

    /// Records a mutable borrow of `range`, unless it overlaps any active borrow.
    pub fn try_add_borrow_mut(&mut self, range: ByteRange) -> (r: Result<(), BorrowError>)
        ensures
            final(self).wf(),
            r is Ok <==> disjoint_from_all(old(self)@.0, range) && disjoint_from_all(
                old(self)@.1,
                range,
            ),
            r is Ok ==> final(self)@ == (old(self)@.0.push(range), old(self)@.1),
            r is Err ==> final(self)@ == old(self)@,
            r matches Err(e) ==> e == BorrowError::spec_new(),
    {
        proof {
            use_type_invariant(&*self);
        }
        let checked_owned = check_overlap(self.owned.as_slice(), &range);
        if checked_owned.is_err() {
            return Err(BorrowError::new());
        }
        let checked_shared = check_overlap(self.shared.as_slice(), &range);
        if checked_shared.is_err() {
            return Err(BorrowError::new());
        }
        let mut records: Vec<ByteRange> = Vec::new();
        std::mem::swap(&mut records, &mut self.owned);
        records.push(range);
        proof {
            let owned = records@;
            let shared = self.shared@;
            let n = owned.len() - 1;
            assert forall|i: int, j: int|
                0 <= i < owned.len() && 0 <= j < owned.len() && i != j implies ranges_disjoint(
                #[trigger] owned[i],
                #[trigger] owned[j],
            ) by {
                if i == n {
                    assert(ranges_disjoint(old(self)@.0[j], range));
                } else if j == n {
                    assert(ranges_disjoint(old(self)@.0[i], range));
                } else {
                    assert(owned[i] == old(self)@.0[i]);
                    assert(owned[j] == old(self)@.0[j]);
                }
            }
            assert forall|i: int, k: int|
                0 <= i < owned.len() && 0 <= k < shared.len() implies ranges_disjoint(
                #[trigger] owned[i],
                #[trigger] shared[k],
            ) by {
                if i == n {
                    assert(ranges_disjoint(shared[k], range));
                } else {
                    assert(owned[i] == old(self)@.0[i]);
                }
            }
        }
        self.owned = records;
        Ok(())
    }
}


impl Default for Ledger {
    /// An empty ledger.
    fn default() -> (l: Ledger)
        ensures
            l@.0 == Seq::<ByteRange>::empty(),
            l@.1 == Seq::<ByteRange>::empty(),
            l.wf(),
    {
        Ledger::new()
    }
}

/// The position of the last occurrence of `r` in `v`.
fn last_position(v: &Vec<ByteRange>, r: &ByteRange) -> (i: Option<usize>)
    ensures
        match i {
            Some(i) => i as int == last_index_of(v@, *r),
            None => last_index_of(v@, *r) == -1,
        },
{
    proof {
        lemma_last_index_of(v@, *r);
    }
    let mut i = v.len();
    while i > 0
        invariant
            i <= v@.len(),
            -1 <= last_index_of(v@, *r) < v@.len(),
            last_index_of(v@, *r) >= 0 ==> v@[last_index_of(v@, *r)] == *r,
            forall|k: int| last_index_of(v@, *r) < k < v@.len() ==> v@[k] != *r,
            forall|k: int| i <= k < v@.len() ==> v@[k] != *r,
        decreases i,
    {
        if v[i - 1] == *r {
            return Some(i - 1);
        }
        i = i - 1;
    }
    None
}

/// Removing an entry keeps the ledger's invariant when the entry is an
/// immutable borrow.
proof fn lemma_wf_remove_shared(owned: Seq<ByteRange>, shared: Seq<ByteRange>, idx: int)
    requires
        ledger_wf(owned, shared),
        0 <= idx < shared.len(),
    ensures
        ledger_wf(owned, shared.remove(idx)),
{
    let s2 = shared.remove(idx);
    assert forall|i: int, k: int| 0 <= i < owned.len() && 0 <= k < s2.len() implies ranges_disjoint(
        #[trigger] owned[i],
        #[trigger] s2[k],
    ) by {
        if k < idx {
            assert(s2[k] == shared[k]);
        } else {
            assert(s2[k] == shared[k + 1]);
        }
    }
}

/// Removing an entry keeps the ledger's invariant when the entry is a
/// mutable borrow.
proof fn lemma_wf_remove_owned(owned: Seq<ByteRange>, shared: Seq<ByteRange>, idx: int)
    requires
        ledger_wf(owned, shared),
        0 <= idx < owned.len(),
    ensures
        ledger_wf(owned.remove(idx), shared),
{
    let o2 = owned.remove(idx);
    assert forall|i: int, j: int| 0 <= i < o2.len() && 0 <= j < o2.len() && i != j implies ranges_disjoint(
        #[trigger] o2[i],
        #[trigger] o2[j],
    ) by {
        let oi = if i < idx { i } else { i + 1 };
        let oj = if j < idx { j } else { j + 1 };
        assert(o2[i] == owned[oi]);
        assert(o2[j] == owned[oj]);
    }
    assert forall|i: int, k: int| 0 <= i < o2.len() && 0 <= k < shared.len() implies ranges_disjoint(
        #[trigger] o2[i],
        #[trigger] shared[k],
    ) by {
        let oi = if i < idx { i } else { i + 1 };
        assert(o2[i] == owned[oi]);
    }
}

impl Ledger {
    /// Dynamically checks an immutable borrow of `range` and records it.
    pub fn try_borrow(&mut self, range: ByteRange) -> (r: Result<Ref, BorrowError>)
        ensures
            final(self).wf(),
            r is Ok <==> disjoint_from_all(old(self)@.0, range),
            r is Ok ==> r->Ok_0.spec_range() == range && final(self)@ == (
                old(self)@.0,
                old(self)@.1.push(range),
            ),
            r is Err ==> final(self)@ == old(self)@,
            r matches Err(e) ==> e == BorrowError::spec_new(),
    {
        match self.try_add_borrow(range) {
            Ok(()) => Ok(Ref { range }),
            Err(e) => Err(e),
        }
    }

    /// Dynamically checks a mutable borrow of `range` and records it.
    pub fn try_borrow_mut(&mut self, range: ByteRange) -> (r: Result<RefMut, BorrowError>)
        ensures
            final(self).wf(),
            r is Ok <==> disjoint_from_all(old(self)@.0, range) && disjoint_from_all(
                old(self)@.1,
                range,
            ),
            r is Ok ==> r->Ok_0.spec_range() == range && final(self)@ == (
                old(self)@.0.push(range),
                old(self)@.1,
            ),
            r is Err ==> final(self)@ == old(self)@,
            r matches Err(e) ==> e == BorrowError::spec_new(),
    {
        match self.try_add_borrow_mut(range) {
            Ok(()) => Ok(RefMut { range }),
            Err(e) => Err(e),
        }
    }

    /// Ends an immutable borrow: removes the last record of its range.
    pub fn release(&mut self, borrow: Ref)
        requires
            old(self)@.1.contains(borrow.spec_range()),
        ensures
            final(self).wf(),
            final(self)@ == (
                old(self)@.0,
                remove_last_occurrence(old(self)@.1, borrow.spec_range()),
            ),
    {
        proof {
            use_type_invariant(&*self);
            lemma_last_index_of(self.shared@, borrow.range);
        }
        let i = last_position(&self.shared, &borrow.range);
        match i {
            Some(i) => {
                proof {
                    lemma_wf_remove_shared(self.owned@, self.shared@, i as int);
                }
                let mut records: Vec<ByteRange> = Vec::new();
                std::mem::swap(&mut records, &mut self.shared);
                records.remove(i);
                self.shared = records;
            },
            None => {},
        }
    }

    /// Ends a mutable borrow: removes the last record of its range.
    pub fn release_mut(&mut self, borrow: RefMut)
        requires
            old(self)@.0.contains(borrow.spec_range()),
        ensures
            final(self).wf(),
            final(self)@ == (
                remove_last_occurrence(old(self)@.0, borrow.spec_range()),
                old(self)@.1,
            ),
    {
        proof {
            use_type_invariant(&*self);
            lemma_last_index_of(self.owned@, borrow.range);
        }
        let i = last_position(&self.owned, &borrow.range);
        match i {
            Some(i) => {
                proof {
                    lemma_wf_remove_owned(self.owned@, self.shared@, i as int);
                }
                let mut records: Vec<ByteRange> = Vec::new();
                std::mem::swap(&mut records, &mut self.owned);
                records.remove(i);
                self.owned = records;
            },
            None => {},
        }
    }
}

/// Ending a borrow right after taking it leaves the records as they were.
pub proof fn lemma_release_undoes_borrow(records: Seq<ByteRange>, range: ByteRange)
    ensures
        remove_last_occurrence(records.push(range), range) == records,
{
    assert(records.push(range).last() == range);
    assert(last_index_of(records.push(range), range) == records.len());
    assert(records.push(range).remove(records.len() as int) =~= records);
}

/// Immutable borrows never conflict with each other: a shared borrow is
/// refused exactly when it overlaps a mutable borrow, whatever shared
/// borrows are active.
pub proof fn lemma_shared_borrows_may_overlap(
    owned: Seq<ByteRange>,
    shared: Seq<ByteRange>,
    range: ByteRange,
)
    requires
        ledger_wf(owned, shared),
        disjoint_from_all(owned, range),
    ensures
        ledger_wf(owned, shared.push(range)),
{
    let s2 = shared.push(range);
    assert forall|i: int, k: int| 0 <= i < owned.len() && 0 <= k < s2.len() implies ranges_disjoint(
        #[trigger] owned[i],
        #[trigger] s2[k],
    ) by {
        if k < shared.len() {
            assert(s2[k] == shared[k]);
        }
    }
}

} // verus!
