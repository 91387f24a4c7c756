//! A leader board: commodities ranked by power, the strongest first, with
//! a bounded number of places.

use vstd::prelude::*;
use vstd::std_specs::convert::FromSpecImpl;
use crate::bytes::{bytes_clone, bytes_eq};
use crate::power::PowerSize;

verus! {

/// A place on a leader board, or the mark that there is none.
#[derive(Clone, Copy, Debug, PartialEq, Eq, Structural)]
pub struct LeaderBoardIndex(pub u32);

impl Default for LeaderBoardIndex {
    fn default() -> (index: LeaderBoardIndex)
        ensures
            !index.is_place(),
    {
        LeaderBoardIndex(u32::MAX)
    }
}

impl From<usize> for LeaderBoardIndex {
    fn from(v: usize) -> (index: LeaderBoardIndex) {
        LeaderBoardIndex(#[verifier::truncate] (v as u32))
    }
}

impl FromSpecImpl<usize> for LeaderBoardIndex {
    open spec fn obeys_from_spec() -> bool {
        true
    }

    /// The place `v`, as far as 32 bits hold it.
    open spec fn from_spec(v: usize) -> LeaderBoardIndex {
        LeaderBoardIndex(v as u32)
    }
}

impl LeaderBoardIndex {
    /// Whether this is a place and not the mark for none.
    pub open spec fn is_place(&self) -> bool {
        self.0 != u32::MAX
    }

    /// Whether this is a place.
    pub fn exist(&self) -> (exists: bool)
        ensures
            exists == self.is_place(),
    {
        self.0 != u32::MAX
    }

    /// The place.
    pub fn index(&self) -> (place: usize)
        ensures
            place == self.0,
    {
        self.0 as usize
    }
}

/// One place on a leader board.
#[derive(Clone, Debug, Default)]
pub struct CommodityLeaderBoardData {
    pub cart_id: Vec<u8>,
    pub power: PowerSize,
    pub owner: Vec<u8>,
}

/// The model of a place on a leader board.
pub struct LeaderView {
    pub cart_id: Seq<u8>,
    pub power: PowerSize,
    pub owner: Seq<u8>,
}

impl View for CommodityLeaderBoardData {
    type V = LeaderView;

    open spec fn view(&self) -> LeaderView {
        LeaderView { cart_id: self.cart_id@, power: self.power, owner: self.owner@ }
    }
}

impl CommodityLeaderBoardData {
    /// A copy with the same model.
    pub fn duplicate(&self) -> (copy: CommodityLeaderBoardData)
        ensures
            copy@ == self@,
    {
        CommodityLeaderBoardData {
            cart_id: bytes_clone(&self.cart_id),
            power: self.power,
            owner: bytes_clone(&self.owner),
        }
    }
}

/// The strongest come first.
pub open spec fn ranked(s: Seq<LeaderView>) -> bool {
    forall|i: int, j: int| 0 <= i < j < s.len() ==> s[i].power >= s[j].power
}

/// No commodity holds two places.
pub open spec fn distinct_carts(s: Seq<LeaderView>) -> bool {
    forall|i: int, j: int| 0 <= i < j < s.len() ==> s[i].cart_id != s[j].cart_id
}

/// Whether `cart` holds a place.
pub open spec fn on_board(s: Seq<LeaderView>, cart: Seq<u8>) -> bool {
    exists|i: int| 0 <= i < s.len() && (#[trigger] s[i]).cart_id == cart
}

/// The place that `cart` holds; the rank counts from zero.
pub open spec fn rank_of(s: Seq<LeaderView>, cart: Seq<u8>) -> int {
    choose|i: int| 0 <= i < s.len() && (#[trigger] s[i]).cart_id == cart
}

/// Where an entry of power `power` goes: behind the last place whose power
/// is at least `power`, so that among equals the newcomer ranks last.
pub open spec fn insertion_point(s: Seq<LeaderView>, power: PowerSize) -> int
    decreases s.len(),
{
    if s.len() == 0 {
        0
    } else if s.last().power >= power {
        s.len() as int
    } else {
        insertion_point(s.drop_last(), power)
    }
}

/// The board without the place of `cart`.
pub open spec fn without_cart(s: Seq<LeaderView>, cart: Seq<u8>) -> Seq<LeaderView> {
    if on_board(s, cart) {
        s.remove(rank_of(s, cart))
    } else {
        s
    }
}

/// The board after `entry` was put up with room for `capacity` places: a
/// commodity already there with the same power stays where it is; else its
/// old place goes, the entry takes its rank, and the last place is dropped
/// if the board is over capacity.
pub open spec fn upserted(s: Seq<LeaderView>, entry: LeaderView, capacity: nat) -> Seq<LeaderView> {
    if on_board(s, entry.cart_id) && s[rank_of(s, entry.cart_id)].power == entry.power {
        s
    } else {
        let rest = without_cart(s, entry.cart_id);
        let placed = rest.insert(insertion_point(rest, entry.power), entry);
        if placed.len() > capacity {
            placed.drop_last()
        } else {
            placed
        }
    }
}

/// On a board without repeats the rank of the commodity at place `i` is `i`.
pub proof fn lemma_rank_unique(s: Seq<LeaderView>, i: int)
    requires
        distinct_carts(s),
        0 <= i < s.len(),
    ensures
        on_board(s, s[i].cart_id),
        rank_of(s, s[i].cart_id) == i,
{
    let r = rank_of(s, s[i].cart_id);
    assert(s[i].cart_id == s[i].cart_id);
    if r < i {
        assert(s[r].cart_id != s[i].cart_id);
    } else if i < r {
        assert(s[i].cart_id != s[r].cart_id);
    }
}

/// The insertion point splits a ranked board: every place before it has at
/// least `power`, every place from it on has less.
pub proof fn lemma_insertion_point(s: Seq<LeaderView>, power: PowerSize)
    requires
        ranked(s),
    ensures
        0 <= insertion_point(s, power) <= s.len(),
        forall|i: int| 0 <= i < insertion_point(s, power) ==> (#[trigger] s[i]).power >= power,
        forall|i: int| insertion_point(s, power) <= i < s.len() ==> (#[trigger] s[i]).power < power,
    decreases s.len(),
{
    if s.len() == 0 {
    } else if s.last().power >= power {
        assert forall|i: int| 0 <= i < s.len() implies (#[trigger] s[i]).power >= power by {
            if i < s.len() - 1 {
                assert(s[i].power >= s[s.len() - 1].power);
            }
        }
    } else {
        let front = s.drop_last();
        assert(ranked(front)) by {
            assert forall|i: int, j: int| 0 <= i < j < front.len() implies front[i].power
                >= front[j].power by {
                assert(s[i].power >= s[j].power);
            }
        }
        lemma_insertion_point(front, power);
        let p = insertion_point(front, power);
        assert forall|i: int| 0 <= i < p implies (#[trigger] s[i]).power >= power by {
            assert(front[i].power >= power);
        }
        assert forall|i: int| p <= i < s.len() implies (#[trigger] s[i]).power < power by {
            if i < front.len() {
                assert(front[i].power < power);
            }
        }
    }
}

/// A split point of a ranked board is its insertion point.
pub proof fn lemma_split_is_insertion_point(s: Seq<LeaderView>, power: PowerSize, at: int)
    requires
        ranked(s),
        0 <= at <= s.len(),
        forall|i: int| 0 <= i < at ==> (#[trigger] s[i]).power >= power,
        forall|i: int| at <= i < s.len() ==> (#[trigger] s[i]).power < power,
    ensures
        insertion_point(s, power) == at,
{
    lemma_insertion_point(s, power);
    let p = insertion_point(s, power);
    if p < at {
        assert(s[p].power >= power);
        assert(s[p].power < power);
    } else if at < p {
        assert(s[at].power >= power);
        assert(s[at].power < power);
    }
}

/// Taking a place away keeps a board in order and without repeats.
pub proof fn lemma_remove_keeps_order(s: Seq<LeaderView>, at: int)
    requires
        ranked(s),
        distinct_carts(s),
        0 <= at < s.len(),
    ensures
        ranked(s.remove(at)),
        distinct_carts(s.remove(at)),
        !on_board(s.remove(at), s[at].cart_id),
        forall|cart: Seq<u8>|
            cart != s[at].cart_id ==> on_board(s.remove(at), cart) == on_board(s, cart),
{
    let r = s.remove(at);
    assert forall|i: int, j: int| 0 <= i < j < r.len() implies r[i].power >= r[j].power
        && r[i].cart_id != r[j].cart_id by {
        let i0 = if i < at {
            i
        } else {
            i + 1
        };
        let j0 = if j < at {
            j
        } else {
            j + 1
        };
        assert(r[i] == s[i0] && r[j] == s[j0]);
        assert(s[i0].power >= s[j0].power);
        assert(s[i0].cart_id != s[j0].cart_id);
    }
    if on_board(r, s[at].cart_id) {
        let i = rank_of(r, s[at].cart_id);
        let i0 = if i < at {
            i
        } else {
            i + 1
        };
        assert(r[i] == s[i0]);
        if i0 < at {
            assert(s[i0].cart_id != s[at].cart_id);
        } else {
            assert(s[at].cart_id != s[i0].cart_id);
        }
    }
    assert forall|cart: Seq<u8>| cart != s[at].cart_id implies on_board(r, cart) == on_board(
        s,
        cart,
    ) by {
        if on_board(r, cart) {
            let i = rank_of(r, cart);
            let i0 = if i < at {
                i
            } else {
                i + 1
            };
            assert(r[i] == s[i0]);
            assert(s[i0].cart_id == cart);
        }
        if on_board(s, cart) {
            let i0 = rank_of(s, cart);
            let i = if i0 < at {
                i0
            } else {
                i0 - 1
            };
            assert(r[i] == s[i0]);
            assert(r[i].cart_id == cart);
        }
    }
}

/// Putting an entry at its insertion point keeps a board in order; it stays
/// without repeats when the entry's commodity was not on it.
pub proof fn lemma_insert_keeps_order(s: Seq<LeaderView>, entry: LeaderView)
    requires
        ranked(s),
        distinct_carts(s),
        !on_board(s, entry.cart_id),
    ensures
        ranked(s.insert(insertion_point(s, entry.power), entry)),
        distinct_carts(s.insert(insertion_point(s, entry.power), entry)),
{
    lemma_insertion_point(s, entry.power);
    let p = insertion_point(s, entry.power);
    let r = s.insert(p, entry);
    assert forall|i: int, j: int| 0 <= i < j < r.len() implies r[i].power >= r[j].power
        && r[i].cart_id != r[j].cart_id by {
        if i == p {
            assert(r[j] == s[j - 1]);
            assert(s[j - 1].power < entry.power);
            assert(s[j - 1].cart_id != entry.cart_id);
        } else if j == p {
            assert(r[i] == s[i]);
            assert(s[i].power >= entry.power);
            assert(s[i].cart_id != entry.cart_id);
        } else {
            let i0 = if i < p {
                i
            } else {
                i - 1
            };
            let j0 = if j < p {
                j
            } else {
                j - 1
            };
            assert(r[i] == s[i0] && r[j] == s[j0]);
            assert(s[i0].power >= s[j0].power);
            assert(s[i0].cart_id != s[j0].cart_id);
        }
    }
}

/// Putting an entry up keeps a board in order and without repeats, and
/// within its capacity if it was within it before.
pub proof fn lemma_upsert_keeps_order(s: Seq<LeaderView>, entry: LeaderView, capacity: nat)
    requires
        ranked(s),
        distinct_carts(s),
    ensures
        ranked(upserted(s, entry, capacity)),
        distinct_carts(upserted(s, entry, capacity)),
        s.len() <= capacity ==> upserted(s, entry, capacity).len() <= capacity,
        upserted(s, entry, capacity).len() <= s.len() + 1,
{
    if on_board(s, entry.cart_id) && s[rank_of(s, entry.cart_id)].power == entry.power {
    } else {
        let rest = without_cart(s, entry.cart_id);
        if on_board(s, entry.cart_id) {
            lemma_remove_keeps_order(s, rank_of(s, entry.cart_id));
        }
        lemma_insert_keeps_order(rest, entry);
        lemma_insertion_point(rest, entry.power);
        let placed = rest.insert(insertion_point(rest, entry.power), entry);
        if placed.len() > capacity {
            let cut = placed.drop_last();
            assert forall|i: int, j: int| 0 <= i < j < cut.len() implies cut[i].power
                >= cut[j].power && cut[i].cart_id != cut[j].cart_id by {
                assert(placed[i].power >= placed[j].power);
                assert(placed[i].cart_id != placed[j].cart_id);
            }
        }
    }
}

/// Every place of a board after an entry was put up is held by that entry
/// or by an entry that held a place before.
pub proof fn lemma_upserted_members(s: Seq<LeaderView>, entry: LeaderView, capacity: nat)
    ensures
        forall|i: int|
            0 <= i < upserted(s, entry, capacity).len() ==> (#[trigger] upserted(
                s,
                entry,
                capacity,
            )[i]) == entry || on_board(s, upserted(s, entry, capacity)[i].cart_id),
{
    let after = upserted(s, entry, capacity);
    if on_board(s, entry.cart_id) && s[rank_of(s, entry.cart_id)].power == entry.power {
        assert forall|i: int| 0 <= i < after.len() implies (#[trigger] after[i]) == entry
            || on_board(s, after[i].cart_id) by {
            assert(s[i].cart_id == after[i].cart_id);
        }
    } else {
        let rest = without_cart(s, entry.cart_id);
        assert forall|j: int| 0 <= j < rest.len() implies on_board(s, (#[trigger] rest[j]).cart_id) by {
            if on_board(s, entry.cart_id) {
                let at = rank_of(s, entry.cart_id);
                let j0 = if j < at {
                    j
                } else {
                    j + 1
                };
                assert(rest[j] == s[j0]);
                assert(s[j0].cart_id == rest[j].cart_id);
            } else {
                assert(s[j].cart_id == rest[j].cart_id);
            }
        }
        let p = insertion_point(rest, entry.power);
        lemma_insertion_point_in_range(rest, entry.power);
        let placed = rest.insert(p, entry);
        assert forall|i: int| 0 <= i < after.len() implies (#[trigger] after[i]) == entry
            || on_board(s, after[i].cart_id) by {
            assert(after[i] == placed[i]);
            if i != p {
                let i0 = if i < p {
                    i
                } else {
                    i - 1
                };
                assert(placed[i] == rest[i0]);
            }
        }
    }
}

/// The insertion point lies within the board.
pub proof fn lemma_insertion_point_in_range(s: Seq<LeaderView>, power: PowerSize)
    ensures
        0 <= insertion_point(s, power) <= s.len(),
    decreases s.len(),
{
    if s.len() > 0 && !(s.last().power >= power) {
        lemma_insertion_point_in_range(s.drop_last(), power);
    }
}

/// Every place of a board from which a commodity was taken off was held
/// before.
pub proof fn lemma_without_cart_members(s: Seq<LeaderView>, cart: Seq<u8>)
    ensures
        forall|i: int|
            0 <= i < without_cart(s, cart).len() ==> on_board(
                s,
                (#[trigger] without_cart(s, cart)[i]).cart_id,
            ),
{
    let rest = without_cart(s, cart);
    assert forall|j: int| 0 <= j < rest.len() implies on_board(s, (#[trigger] rest[j]).cart_id) by {
        if on_board(s, cart) {
            let at = rank_of(s, cart);
            let j0 = if j < at {
                j
            } else {
                j + 1
            };
            assert(rest[j] == s[j0]);
            assert(s[j0].cart_id == rest[j].cart_id);
        } else {
            assert(s[j].cart_id == rest[j].cart_id);
        }
    }
}

/// The board after the entries of `entries` were put up in turn.
pub open spec fn upserted_all(
    s: Seq<LeaderView>,
    entries: Seq<LeaderView>,
    capacity: nat,
) -> Seq<LeaderView>
    decreases entries.len(),
{
    if entries.len() == 0 {
        s
    } else {
        upserted(upserted_all(s, entries.drop_last(), capacity), entries.last(), capacity)
    }
}

/// Capacity bound: however many entries are put up, a board that was in
/// order and within its capacity stays so.
pub proof fn lemma_capacity_bound(s: Seq<LeaderView>, entries: Seq<LeaderView>, capacity: nat)
    requires
        ranked(s),
        distinct_carts(s),
        s.len() <= capacity,
    ensures
        upserted_all(s, entries, capacity).len() <= capacity,
        ranked(upserted_all(s, entries, capacity)),
        distinct_carts(upserted_all(s, entries, capacity)),
    decreases entries.len(),
{
    if entries.len() > 0 {
        lemma_capacity_bound(s, entries.drop_last(), capacity);
        lemma_upsert_keeps_order(
            upserted_all(s, entries.drop_last(), capacity),
            entries.last(),
            capacity,
        );
    }
}

/// Tie-break stability: when two commodities that are not on the board are
/// put up with equal power, first `a` and then `b`, and both hold a place
/// afterwards, `a` ranks above `b`.
pub proof fn lemma_tie_break_stable(
    s: Seq<LeaderView>,
    a: LeaderView,
    b: LeaderView,
    capacity: nat,
)
    requires
        ranked(s),
        distinct_carts(s),
        !on_board(s, a.cart_id),
        !on_board(s, b.cart_id),
        a.cart_id != b.cart_id,
        a.power == b.power,
    ensures
        ({
            let after = upserted(upserted(s, a, capacity), b, capacity);
            on_board(after, a.cart_id) && on_board(after, b.cart_id) ==> rank_of(after, a.cart_id)
                < rank_of(after, b.cart_id)
        }),
{
    let first = upserted(s, a, capacity);
    let after = upserted(first, b, capacity);
    lemma_upsert_keeps_order(s, a, capacity);
    lemma_upsert_keeps_order(first, b, capacity);
    lemma_insertion_point(s, a.power);
    let pa = insertion_point(s, a.power);
    let placed_a = s.insert(pa, a);
    assert(without_cart(s, a.cart_id) == s);
    // `b` is not on the board after `a` went up
    assert(!on_board(first, b.cart_id)) by {
        if on_board(first, b.cart_id) {
            let i = rank_of(first, b.cart_id);
            assert(first[i] == placed_a[i]);
            if i == pa {
            } else {
                let i0 = if i < pa {
                    i
                } else {
                    i - 1
                };
                assert(placed_a[i] == s[i0]);
                assert(s[i0].cart_id == b.cart_id);
            }
        }
    }
    assert(without_cart(first, b.cart_id) == first);
    lemma_insertion_point(first, b.power);
    let pb = insertion_point(first, b.power);
    let placed_b = first.insert(pb, b);
    if on_board(after, a.cart_id) && on_board(after, b.cart_id) {
        let ra = rank_of(after, a.cart_id);
        let rb = rank_of(after, b.cart_id);
        assert(after[ra] == placed_b[ra]);
        assert(after[rb] == placed_b[rb]);
        // `b` sits at its insertion point
        assert(rb == pb) by {
            if rb != pb {
                let i0 = if rb < pb {
                    rb
                } else {
                    rb - 1
                };
                assert(placed_b[rb] == first[i0]);
                assert(first[i0].cart_id == b.cart_id);
            }
        }
        // `a` sits where it sat in `first`, which is before `pb`
        assert(ra != pb);
        let ra0 = if ra < pb {
            ra
        } else {
            ra - 1
        };
        assert(placed_b[ra] == first[ra0]);
        if ra > pb {
            assert(first[ra0].power < b.power);
            assert(first[ra0].cart_id == a.cart_id);
            assert(first[ra0] == placed_a[ra0]);
            if ra0 == pa {
            } else {
                let k = if ra0 < pa {
                    ra0
                } else {
                    ra0 - 1
                };
                assert(placed_a[ra0] == s[k]);
                assert(s[k].cart_id == a.cart_id);
            }
        }
    }
}

/// A leader board.
#[derive(Clone, Debug, Default)]
pub struct LeaderBoard {
    items: Vec<CommodityLeaderBoardData>,
}

impl View for LeaderBoard {
    type V = Seq<LeaderView>;

    closed spec fn view(&self) -> Seq<LeaderView> {
        self.items@.map_values(|e: CommodityLeaderBoardData| e@)
    }
}

impl LeaderBoard {
    /// In order and without repeats.
    pub open spec fn wf(&self) -> bool {
        ranked(self@) && distinct_carts(self@)
    }

    /// An empty board.
    pub fn new() -> (board: LeaderBoard)
        ensures
            board@ == Seq::<LeaderView>::empty(),
            board.wf(),
    {
        let board = LeaderBoard { items: Vec::new() };
        assert(board@ =~= Seq::<LeaderView>::empty());
        board
    }

    /// The number of places taken.
    pub fn len(&self) -> (n: usize)
        ensures
            n == self@.len(),
    {
        self.items.len()
    }

    /// The entry at place `rank`.
    pub fn get(&self, rank: usize) -> (entry: &CommodityLeaderBoardData)
        requires
            rank < self@.len(),
        ensures
            entry@ == self@[rank as int],
    {
        &self.items[rank]
    }

    /// Copies of the entries, the strongest first.
    pub fn to_vec(&self) -> (entries: Vec<CommodityLeaderBoardData>)
        ensures
            entries@.len() == self@.len(),
            forall|i: int| 0 <= i < entries@.len() ==> (#[trigger] entries@[i])@ == self@[i],
    {
        let mut entries: Vec<CommodityLeaderBoardData> = Vec::new();
        let mut i: usize = 0;
        while i < self.items.len()
            invariant
                i <= self.items@.len(),
                self@.len() == self.items@.len(),
                entries@.len() == i,
                forall|j: int| 0 <= j < i ==> (#[trigger] entries@[j])@ == self@[j],
            decreases self.items@.len() - i,
        {
            entries.push(self.items[i].duplicate());
            i += 1;
        }
        entries
    }

    /// The place and the entry of `cart_id`, if it holds one.
    pub fn get_leader_item(&self, cart_id: &Vec<u8>) -> (found: Option<
        (usize, CommodityLeaderBoardData),
    >)
        requires
            self.wf(),
        ensures
            found is Some == on_board(self@, cart_id@),
            found is Some ==> found.unwrap().0 == rank_of(self@, cart_id@) && found.unwrap().1@
                == self@[rank_of(self@, cart_id@)],
    {
        let mut pos: usize = 0;
        while pos < self.items.len()
            invariant
                self.wf(),
                pos <= self@.len(),
                self@.len() == self.items@.len(),
                forall|j: int| 0 <= j < pos ==> (#[trigger] self@[j]).cart_id != cart_id@,
            decreases self.items@.len() - pos,
        {
            if bytes_eq(&self.items[pos].cart_id, cart_id) {
                proof {
                    assert(self@[pos as int].cart_id == cart_id@);
                    lemma_rank_unique(self@, pos as int);
                }
                return Some((pos, self.items[pos].duplicate()));
            }
            pos += 1;
        }
        None
    }

    /// The insertion point of `power`, found by halving.
    fn search(&self, power: PowerSize) -> (at: usize)
        requires
            self.wf(),
        ensures
            at == insertion_point(self@, power),
            at <= self@.len(),
    {
        let mut lo: usize = 0;
        let mut hi: usize = self.items.len();
        while lo < hi
            invariant
                self.wf(),
                self@.len() == self.items@.len(),
                lo <= hi <= self@.len(),
                forall|i: int| 0 <= i < lo ==> (#[trigger] self@[i]).power >= power,
                forall|i: int| hi <= i < self@.len() ==> (#[trigger] self@[i]).power < power,
            decreases hi - lo,
        {
            let mid: usize = lo + (hi - lo) / 2;
            if self.items[mid].power >= power {
                proof {
                    assert forall|i: int| 0 <= i < mid + 1 implies (#[trigger] self@[i]).power
                        >= power by {
                        if i < mid {
                            assert(self@[i].power >= self@[mid as int].power);
                        }
                    }
                }
                lo = mid + 1;
            } else {
                proof {
                    assert forall|i: int| mid <= i < self@.len() implies (#[trigger] self@[i]).power
                        < power by {
                        if i > mid {
                            assert(self@[mid as int].power >= self@[i].power);
                        }
                    }
                }
                hi = mid;
            }
        }
        proof {
            lemma_split_is_insertion_point(self@, power, lo as int);
        }
        lo
    }

    /// Puts `entry` up, with room for `capacity` places.
    pub fn upsert(&mut self, entry: CommodityLeaderBoardData, capacity: u32)
        requires
            old(self).wf(),
        ensures
            final(self).wf(),
            final(self)@ == upserted(old(self)@, entry@, capacity as nat),
    {
        let ghost before = self@;
        let ghost e = entry@;
        proof {
            lemma_upsert_keeps_order(before, e, capacity as nat);
        }
        match self.get_leader_item(&entry.cart_id) {
            Some((index, org_item)) => {
                if org_item.power == entry.power {
                    return ;
                }
                let ghost items_before = self.items@;
                self.items.remove(index);
                proof {
                    assert(self@ =~= before.remove(index as int));
                    lemma_remove_keeps_order(before, index as int);
                }
            },
            None => {},
        }
        let ghost rest = self@;
        assert(rest == without_cart(before, e.cart_id));
        let at: usize = self.search(entry.power);
        self.items.insert(at, entry);
        proof {
            assert(self@ =~= rest.insert(at as int, e));
        }
        let ghost placed = self@;
        if self.items.len() > capacity as usize {
            self.items.pop();
            proof {
                assert(self@ =~= placed.drop_last());
            }
        }
    }

    /// Takes the place of `cart_id` away. Returns whether it held one.
    pub fn remove(&mut self, cart_id: &Vec<u8>) -> (removed: bool)
        requires
            old(self).wf(),
        ensures
            final(self).wf(),
            removed == on_board(old(self)@, cart_id@),
            final(self)@ == without_cart(old(self)@, cart_id@),
            !on_board(final(self)@, cart_id@),
    {
        let ghost before = self@;
        match self.get_leader_item(cart_id) {
            Some((index, _)) => {
                self.items.remove(index);
                proof {
                    assert(self@ =~= before.remove(index as int));
                    lemma_remove_keeps_order(before, index as int);
                }
                true
            },
            None => false,
        }
    }
}

} // verus!
