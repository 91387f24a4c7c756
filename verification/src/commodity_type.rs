//! The kinds of commodity that models may be made for, kept in the order
//! of their identifiers.

use vstd::prelude::*;
use crate::bytes::bytes_clone;

verus! {

/// A kind of commodity.
#[derive(Clone, Debug, Default)]
pub struct CommodityTypeData {
    pub type_id: u32,
    pub type_desc: Vec<u8>,
}

impl View for CommodityTypeData {
    type V = (u32, Seq<u8>);

    open spec fn view(&self) -> (u32, Seq<u8>) {
        (self.type_id, self.type_desc@)
    }
}

/// The identifiers rise strictly.
pub open spec fn types_in_order(s: Seq<(u32, Seq<u8>)>) -> bool {
    forall|i: int, j: int| 0 <= i < j < s.len() ==> s[i].0 < s[j].0
}

/// Whether a kind with the identifier `type_id` is listed.
pub open spec fn type_listed(s: Seq<(u32, Seq<u8>)>, type_id: u32) -> bool {
    exists|i: int| 0 <= i < s.len() && (#[trigger] s[i]).0 == type_id
}

/// Where a kind with the identifier `type_id` stands or would stand:
/// behind the last kind with a smaller identifier.
pub open spec fn type_rank(s: Seq<(u32, Seq<u8>)>, type_id: u32) -> int
    decreases s.len(),
{
    if s.len() == 0 {
        0
    } else if s.last().0 < type_id {
        s.len() as int
    } else {
        type_rank(s.drop_last(), type_id)
    }
}

/// The rank splits an ordered list: smaller identifiers before it, others
/// from it on.
pub proof fn lemma_type_rank(s: Seq<(u32, Seq<u8>)>, type_id: u32)
    requires
        types_in_order(s),
    ensures
        0 <= type_rank(s, type_id) <= s.len(),
        forall|i: int| 0 <= i < type_rank(s, type_id) ==> (#[trigger] s[i]).0 < type_id,
        forall|i: int| type_rank(s, type_id) <= i < s.len() ==> (#[trigger] s[i]).0 >= type_id,
    decreases s.len(),
{
    if s.len() == 0 {
    } else if s.last().0 < type_id {
        assert forall|i: int| 0 <= i < s.len() implies (#[trigger] s[i]).0 < type_id by {
            if i < s.len() - 1 {
                assert(s[i].0 < s[s.len() - 1].0);
            }
        }
    } else {
        let front = s.drop_last();
        assert(types_in_order(front)) by {
            assert forall|i: int, j: int| 0 <= i < j < front.len() implies front[i].0
                < front[j].0 by {
                assert(s[i].0 < s[j].0);
            }
        }
        lemma_type_rank(front, type_id);
        let p = type_rank(front, type_id);
        assert forall|i: int| 0 <= i < p implies (#[trigger] s[i]).0 < type_id by {
            assert(front[i].0 < type_id);
        }
        assert forall|i: int| p <= i < s.len() implies (#[trigger] s[i]).0 >= type_id by {
            if i < front.len() {
                assert(front[i].0 >= type_id);
            }
        }
    }
}

/// A split point of an ordered list is the rank.
pub proof fn lemma_split_is_type_rank(s: Seq<(u32, Seq<u8>)>, type_id: u32, at: int)
    requires
        types_in_order(s),
        0 <= at <= s.len(),
        forall|i: int| 0 <= i < at ==> (#[trigger] s[i]).0 < type_id,
        forall|i: int| at <= i < s.len() ==> (#[trigger] s[i]).0 >= type_id,
    ensures
        type_rank(s, type_id) == at,
{
    lemma_type_rank(s, type_id);
    let p = type_rank(s, type_id);
    if p < at {
        assert(s[p].0 < type_id);
        assert(s[p].0 >= type_id);
    } else if at < p {
        assert(s[at].0 < type_id);
        assert(s[at].0 >= type_id);
    }
}

/// The listed kinds of commodity.
#[derive(Clone, Debug, Default)]
pub struct CommodityTypes {
    items: Vec<CommodityTypeData>,
}

impl View for CommodityTypes {
    type V = Seq<(u32, Seq<u8>)>;

    closed spec fn view(&self) -> Seq<(u32, Seq<u8>)> {
        self.items@.map_values(|t: CommodityTypeData| t@)
    }
}

impl CommodityTypes {
    /// In the order of the identifiers, none twice.
    pub open spec fn wf(&self) -> bool {
        types_in_order(self@)
    }

    /// No kinds.
    pub fn new() -> (types: CommodityTypes)
        ensures
            types@ == Seq::<(u32, Seq<u8>)>::empty(),
            types.wf(),
    {
        let types = CommodityTypes { items: Vec::new() };
        assert(types@ =~= Seq::<(u32, Seq<u8>)>::empty());
        types
    }

    /// The rank of `type_id`, found by halving, and whether a kind with
    /// that identifier stands there.
    fn search(&self, type_id: u32) -> (found: (usize, bool))
        requires
            self.wf(),
        ensures
            found.0 == type_rank(self@, type_id),
            found.0 <= self@.len(),
            found.1 == type_listed(self@, type_id),
            found.1 ==> found.0 < self@.len() && self@[found.0 as int].0 == type_id,
    {
        let mut lo: usize = 0;
        let mut hi: usize = self.items.len();
        while lo < hi
            invariant
                self.wf(),
                self@.len() == self.items@.len(),
                lo <= hi <= self@.len(),
                forall|i: int| 0 <= i < lo ==> (#[trigger] self@[i]).0 < type_id,
                forall|i: int| hi <= i < self@.len() ==> (#[trigger] self@[i]).0 >= type_id,
            decreases hi - lo,
        {
            let mid: usize = lo + (hi - lo) / 2;
            if self.items[mid].type_id < type_id {
                proof {
                    assert forall|i: int| 0 <= i < mid + 1 implies (#[trigger] self@[i]).0
                        < type_id by {
                        if i < mid {
                            assert(self@[i].0 < self@[mid as int].0);
                        }
                    }
                }
                lo = mid + 1;
            } else {
                proof {
                    assert forall|i: int| mid <= i < self@.len() implies (#[trigger] self@[i]).0
                        >= type_id by {
                        if i > mid {
                            assert(self@[mid as int].0 < self@[i].0);
                        }
                    }
                }
                hi = mid;
            }
        }
        proof {
            lemma_split_is_type_rank(self@, type_id, lo as int);
        }
        let listed = lo < self.items.len() && self.items[lo].type_id == type_id;
        proof {
            if !listed && type_listed(self@, type_id) {
                let k = choose|k: int| 0 <= k < self@.len() && (#[trigger] self@[k]).0 == type_id;
                if k > lo {
                    assert(self@[lo as int].0 < self@[k].0);
                }
            }
            if listed {
                assert(self@[lo as int].0 == type_id);
            }
        }
        (lo, listed)
    }

    /// Whether a kind with the identifier `type_id` is listed.
    pub fn contains(&self, type_id: u32) -> (listed: bool)
        requires
            self.wf(),
        ensures
            listed == type_listed(self@, type_id),
    {
        self.search(type_id).1
    }

    /// Lists a new kind at its rank. Returns whether it was new; a kind
    /// whose identifier is listed already is not taken.
    pub fn insert(&mut self, type_id: u32, type_desc: Vec<u8>) -> (added: bool)
        requires
            old(self).wf(),
        ensures
            final(self).wf(),
            added == !type_listed(old(self)@, type_id),
            final(self)@ == (if added {
                old(self)@.insert(type_rank(old(self)@, type_id), (type_id, type_desc@))
            } else {
                old(self)@
            }),
    {
        let ghost before = self@;
        let (index, listed): (usize, bool) = self.search(type_id);
        if listed {
            return false;
        }
        self.items.insert(index, CommodityTypeData { type_id, type_desc });
        proof {
            let entry = (type_id, type_desc@);
            assert(self@ =~= before.insert(index as int, entry));
            lemma_type_rank(before, type_id);
            let p = index as int;
            assert forall|i: int, j: int| 0 <= i < j < self@.len() implies self@[i].0
                < self@[j].0 by {
                if i == p {
                    assert(self@[j] == before[j - 1]);
                    assert(before[j - 1].0 >= type_id);
                    assert(before[j - 1].0 != type_id);
                } else if j == p {
                    assert(self@[i] == before[i]);
                } else {
                    let i0 = if i < p {
                        i
                    } else {
                        i - 1
                    };
                    let j0 = if j < p {
                        j
                    } else {
                        j - 1
                    };
                    assert(self@[i] == before[i0] && self@[j] == before[j0]);
                    assert(before[i0].0 < before[j0].0);
                }
            }
        }
        true
    }

    /// The kinds, in the order of their identifiers.
    pub fn list(&self) -> (kinds: Vec<CommodityTypeData>)
        ensures
            kinds@.len() == self@.len(),
            forall|i: int| 0 <= i < kinds@.len() ==> (#[trigger] kinds@[i])@ == self@[i],
    {
        let mut kinds: Vec<CommodityTypeData> = Vec::new();
        let mut i: usize = 0;
        while i < self.items.len()
            invariant
                i <= self.items@.len(),
                self@.len() == self.items@.len(),
                kinds@.len() == i,
                forall|j: int| 0 <= j < i ==> (#[trigger] kinds@[j])@ == self@[j],
            decreases self.items@.len() - i,
        {
            kinds.push(
                CommodityTypeData {
                    type_id: self.items[i].type_id,
                    type_desc: bytes_clone(&self.items[i].type_desc),
                },
            );
            i += 1;
        }
        kinds
    }
}

} // verus!
