//! Sets of accounts kept as strictly increasing vectors, searched by bisection.
use vstd::prelude::*;
use crate::types::{copy_accounts, AccountId};

verus! {

/// Every element is smaller than all that follow it: sorted, and nothing occurs twice.
pub open spec fn strictly_increasing(s: Seq<AccountId>) -> bool {
    forall|i: int, j: int| 0 <= i < j < s.len() ==> s[i] < s[j]
}

/// Number of elements of `s` that are smaller than `x`.
pub open spec fn rank(s: Seq<AccountId>, x: AccountId) -> nat
    decreases s.len(),
{
    if s.len() == 0 {
        0
    } else {
        rank(s.drop_last(), x) + if s.last() < x { 1nat } else { 0nat }
    }
}

/// `s` with `x` put in after the elements that are smaller than `x`.
pub open spec fn ordered_insert(s: Seq<AccountId>, x: AccountId) -> Seq<AccountId> {
    s.insert(rank(s, x) as int, x)
}

/// The rank never exceeds the length.
pub proof fn lemma_rank_bound(s: Seq<AccountId>, x: AccountId)
    ensures
        rank(s, x) <= s.len(),
    decreases s.len(),
{
    if s.len() > 0 {
        lemma_rank_bound(s.drop_last(), x);
    }
}

/// In a sorted sequence the rank of `x` is the one index that splits the elements below `x`
/// from the others.
pub proof fn lemma_rank_is_split_point(s: Seq<AccountId>, x: AccountId, k: int)
    requires
        strictly_increasing(s),
        0 <= k <= s.len(),
        forall|i: int| 0 <= i < k ==> s[i] < x,
        forall|i: int| k <= i < s.len() ==> s[i] >= x,
    ensures
        rank(s, x) == k,
    decreases s.len(),
{
    if s.len() > 0 {
        let t = s.drop_last();
        if k == s.len() {
            lemma_rank_is_split_point(t, x, k - 1);
        } else {
            lemma_rank_is_split_point(t, x, k);
        }
    }
}

/// In a sorted sequence the elements below `x` are exactly those before its rank.
pub proof fn lemma_rank_splits(s: Seq<AccountId>, x: AccountId)
    requires
        strictly_increasing(s),
    ensures
        rank(s, x) <= s.len(),
        forall|i: int| 0 <= i < rank(s, x) ==> s[i] < x,
        forall|i: int| rank(s, x) <= i < s.len() ==> s[i] >= x,
    decreases s.len(),
{
    if s.len() > 0 {
        let t = s.drop_last();
        lemma_rank_splits(t, x);
        assert forall|i: int| 0 <= i < rank(s, x) implies s[i] < x by {
            if i < rank(t, x) {
                assert(t[i] == s[i]);
            }
        }
        assert forall|i: int| rank(s, x) <= i < s.len() implies s[i] >= x by {
            if i < t.len() {
                assert(t[i] == s[i]);
            }
        }
    }
}

/// Putting a new element in at its rank keeps the sequence sorted and free of duplicates,
/// and adds exactly that element.
pub proof fn lemma_ordered_insert(s: Seq<AccountId>, x: AccountId)
    requires
        strictly_increasing(s),
        !s.contains(x),
    ensures
        strictly_increasing(ordered_insert(s, x)),
        ordered_insert(s, x).len() == s.len() + 1,
        ordered_insert(s, x).contains(x),
        forall|y: AccountId| ordered_insert(s, x).contains(y) <==> (y == x || s.contains(y)),
{
    lemma_rank_splits(s, x);
    let k = rank(s, x) as int;
    let t = ordered_insert(s, x);
    assert(t[k] == x);
    assert forall|y: AccountId| t.contains(y) <==> (y == x || s.contains(y)) by {
        if s.contains(y) {
            let i = choose|i: int| 0 <= i < s.len() && s[i] == y;
            if i < k {
                assert(t[i] == y);
            } else {
                assert(t[i + 1] == y);
            }
        }
    }
}

/// A set of accounts, held as a vector in strictly increasing order.
#[derive(Debug, PartialEq, Eq)]
pub struct OrderedSet {
    items: Vec<AccountId>,
}

impl View for OrderedSet {
    type V = Seq<AccountId>;

    closed spec fn view(&self) -> Seq<AccountId> {
        self.items@
    }
}

impl OrderedSet {
    /// The representation invariant: the members stand in strictly increasing order.
    pub open spec fn wf(&self) -> bool {
        strictly_increasing(self@)
    }

    /// The empty set.
    pub fn new() -> (set: OrderedSet)
        ensures
            set@ == Seq::<AccountId>::empty(),
            set.wf(),
    {
        OrderedSet { items: Vec::new() }
    }

    /// The set whose members are `accounts`, provided that they stand in strictly increasing
    /// order.
    pub fn from_vec(accounts: Vec<AccountId>) -> (set: Option<OrderedSet>)
        ensures
            match set {
                Some(set) => set@ == accounts@ && set.wf(),
                None => !strictly_increasing(accounts@),
            },
    {
        let mut i: usize = 1;
        while i < accounts.len()
            invariant
                1 <= i,
                forall|a: int, b: int| 0 <= a < b < i && b < accounts@.len() ==> accounts@[a]
                    < accounts@[b],
            decreases accounts.len() - i,
        {
            if accounts[i - 1] >= accounts[i] {
                return None;
            }
            i = i + 1;
        }
        Some(OrderedSet { items: accounts })
    }

    /// Number of members.
    pub fn len(&self) -> (n: usize)
        ensures
            n == self@.len(),
    {
        self.items.len()
    }

    /// Looks `x` up by bisection. `Ok` carries the index at which `x` stands, `Err` the index
    /// at which it would have to be put in to keep the order.
    pub fn binary_search(&self, x: AccountId) -> (found: Result<usize, usize>)
        requires
            self.wf(),
        ensures
            match found {
                Ok(i) => i < self@.len() && self@[i as int] == x,
                Err(i) => !self@.contains(x) && i == rank(self@, x),
            },
            found is Ok <==> self@.contains(x),
    {
        let mut low: usize = 0;
        let mut high: usize = self.items.len();
        while low < high
            invariant
                self.wf(),
                low <= high <= self@.len(),
                forall|i: int| 0 <= i < low ==> self@[i] < x,
                forall|i: int| high <= i < self@.len() ==> self@[i] > x,
            decreases high - low,
        {
            let mid: usize = low + (high - low) / 2;
            let probe: AccountId = self.items[mid];
            if probe == x {
                return Ok(mid);
            } else if probe < x {
                low = mid + 1;
            } else {
                high = mid;
            }
        }
        proof {
            lemma_rank_is_split_point(self@, x, low as int);
        }
        Err(low)
    }

    /// Whether `x` is a member.
    pub fn contains(&self, x: AccountId) -> (present: bool)
        requires
            self.wf(),
        ensures
            present == self@.contains(x),
    {
        self.binary_search(x).is_ok()
    }

    /// Puts `x` in at `location`, the index that a failed search for `x` gave.
    pub fn insert(&mut self, location: usize, x: AccountId)
        requires
            old(self).wf(),
            !old(self)@.contains(x),
            location == rank(old(self)@, x),
        ensures
            final(self)@ == ordered_insert(old(self)@, x),
            final(self).wf(),
    {
        proof {
            lemma_rank_bound(self@, x);
            lemma_ordered_insert(self@, x);
        }
        self.items.insert(location, x);
    }

    /// The members in increasing order.
    pub fn to_vec(&self) -> (members: Vec<AccountId>)
        ensures
            members@ == self@,
    {
        copy_accounts(&self.items)
    }
}

impl Clone for OrderedSet {
    fn clone(&self) -> (copy: OrderedSet)
        ensures
            copy@ == self@,
    {
        OrderedSet { items: copy_accounts(&self.items) }
    }
}

} // verus!
