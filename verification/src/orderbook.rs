use vstd::prelude::*;

use crate::order::{Order, Side};
use crate::resource::Resource;

verus! {

/// `a` is served no later than `b` on `side`: a better price (higher for
/// bids, lower for asks), or the same price and an id no greater.
pub open spec fn ranks_ahead_or_ties(side: Side, a: Order, b: Order) -> bool {
    match side {
        Side::Buy => a.price_key > b.price_key || (a.price_key == b.price_key && a.id <= b.id),
        Side::Sell => a.price_key < b.price_key || (a.price_key == b.price_key && a.id <= b.id),
    }
}

/// Price-time priority: every order ranks ahead of, or ties with, every
/// order behind it.
pub open spec fn in_priority_order(side: Side, s: Seq<Order>) -> bool {
    forall|i: int, j: int| 0 <= i < j < s.len() ==> ranks_ahead_or_ties(side, #[trigger] s[i], #[trigger] s[j])
}

/// Every order of `s` rests on `side`.
pub open spec fn all_on_side(side: Side, s: Seq<Order>) -> bool {
    forall|i: int| 0 <= i < s.len() ==> (#[trigger] s[i]).side == side
}

/// `after` is `before` with `order` placed at slot `p`, behind every order
/// that ranks ahead of it or ties with it and ahead of all others.
pub open spec fn is_priority_insert(side: Side, before: Seq<Order>, after: Seq<Order>, order: Order, p: int) -> bool {
    &&& 0 <= p <= before.len()
    &&& after == before.insert(p, order)
    &&& forall|i: int| 0 <= i < p ==> ranks_ahead_or_ties(side, #[trigger] before[i], order)
    &&& forall|i: int| p <= i < before.len() ==> !ranks_ahead_or_ties(side, #[trigger] before[i], order)
}

/// `s` after its head was filled down to `left`: the head leaves the book
/// when what is left of it is below `dust`, and otherwise stays with `left`
/// as its quantity.
pub open spec fn after_fill(s: Seq<Order>, left: u32, dust: u32) -> Seq<Order> {
    if left < dust {
        s.drop_first()
    } else {
        s.update(0, Order { quantity_key: left, ..s[0] })
    }
}

/// The smaller of two quantity keys: what the best bid and ask trade.
pub open spec fn min_key(a: u32, b: u32) -> u32 {
    if a <= b {
        a
    } else {
        b
    }
}

/// One side of a book after its best order (quantity key `own`) traded with
/// the best order of the other side (quantity key `other`): the smaller of
/// the two, or both when they are equal, is used up and leaves; the larger
/// is left with `larger_left` and leaves too when that is below `dust`.
pub open spec fn after_match(s: Seq<Order>, own: u32, other: u32, larger_left: u32, dust: u32) -> Seq<Order> {
    if own <= other {
        s.drop_first()
    } else {
        after_fill(s, larger_left, dust)
    }
}

/// Price-time priority: on either side of a book, an order with a better
/// price rests ahead of one with a worse price, and of two orders at the same
/// price the one with the smaller id (submitted earlier) rests ahead.
pub proof fn law_price_time_priority(side: Side, s: Seq<Order>, i: int, j: int)
    requires
        in_priority_order(side, s),
        0 <= i < s.len(),
        0 <= j < s.len(),
    ensures
        side == Side::Buy && s[i].price_key > s[j].price_key ==> i < j,
        side == Side::Sell && s[i].price_key < s[j].price_key ==> i < j,
        s[i].price_key == s[j].price_key && s[i].id < s[j].id ==> i < j,
{
    if j < i {
        assert(ranks_ahead_or_ties(side, s[j], s[i]));
    }
}

/// Price priority at submission: a newly submitted order leads its side
/// exactly when the side was empty or the order strictly outranks the
/// order that led it; otherwise the former leader keeps the lead.
pub proof fn law_new_leader(side: Side, before: Seq<Order>, after: Seq<Order>, order: Order, p: int)
    requires
        in_priority_order(side, before),
        is_priority_insert(side, before, after, order, p),
    ensures
        before.len() == 0 || !ranks_ahead_or_ties(side, before[0], order) ==> after[0] == order,
        before.len() > 0 && ranks_ahead_or_ties(side, before[0], order) ==> after[0] == before[0],
{
    if before.len() > 0 && ranks_ahead_or_ties(side, before[0], order) {
        assert(p > 0);
    } else {
        assert(p == 0);
    }
}

fn ranks_ahead_or_ties_exec(side: Side, a: &Order, b: &Order) -> (r: bool)
    ensures
        r == ranks_ahead_or_ties(side, *a, *b),
{
    match side {
        Side::Buy => a.price_key > b.price_key || (a.price_key == b.price_key && a.id <= b.id),
        Side::Sell => a.price_key < b.price_key || (a.price_key == b.price_key && a.id <= b.id),
    }
}

/// Binary search for the slot of `order`: behind every order that ranks
/// ahead of it or ties with it, ahead of every other.
fn insertion_point(side: Side, v: &Vec<Order>, order: &Order) -> (p: usize)
    requires
        in_priority_order(side, v@),
    ensures
        p <= v@.len(),
        forall|i: int| 0 <= i < p ==> ranks_ahead_or_ties(side, #[trigger] v@[i], *order),
        forall|i: int| p <= i < v@.len() ==> !ranks_ahead_or_ties(side, #[trigger] v@[i], *order),
{
    let mut lo: usize = 0;
    let mut hi: usize = v.len();
    while lo < hi
        invariant
            lo <= hi <= v@.len(),
            in_priority_order(side, v@),
            forall|i: int| 0 <= i < lo ==> ranks_ahead_or_ties(side, #[trigger] v@[i], *order),
            forall|i: int| hi <= i < v@.len() ==> !ranks_ahead_or_ties(side, #[trigger] v@[i], *order),
        decreases hi - lo,
    {
        let mid = lo + (hi - lo) / 2;
        if ranks_ahead_or_ties_exec(side, &v[mid], order) {
            assert forall|i: int| 0 <= i < mid + 1 implies ranks_ahead_or_ties(side, #[trigger] v@[i], *order) by {
                if i < mid {
                    assert(ranks_ahead_or_ties(side, v@[i], v@[mid as int]));
                }
            }
            lo = mid + 1;
        } else {
            assert forall|i: int| mid <= i < v@.len() implies !ranks_ahead_or_ties(side, #[trigger] v@[i], *order) by {
                if i > mid {
                    assert(ranks_ahead_or_ties(side, v@[mid as int], v@[i]));
                }
            }
            hi = mid;
        }
    }
    lo
}

/// Rests `order` in `v`, behind every order that ranks ahead of it or ties
/// with it and ahead of all others.
fn insert_by_priority(side: Side, v: &mut Vec<Order>, order: Order)
    requires
        in_priority_order(side, old(v)@),
        all_on_side(side, old(v)@),
        order.side == side,
    ensures
        in_priority_order(side, final(v)@),
        all_on_side(side, final(v)@),
        exists|p: int| #[trigger] is_priority_insert(side, old(v)@, final(v)@, order, p),
{
    let p = insertion_point(side, v, &order);
    let ghost before = v@;
    v.insert(p, order);
    assert(v@ == before.insert(p as int, order));
    assert forall|i: int, j: int| 0 <= i < j < v@.len() implies ranks_ahead_or_ties(side, #[trigger] v@[i], #[trigger] v@[j]) by {
        if j < p {
        } else if j == p {
        } else if i < p {
            assert(ranks_ahead_or_ties(side, before[i], order));
            assert(!ranks_ahead_or_ties(side, before[j - 1], order));
        } else if i == p {
            assert(!ranks_ahead_or_ties(side, before[j - 1], order));
        } else {
            assert(ranks_ahead_or_ties(side, before[i - 1], before[j - 1]));
        }
    }
    assert(all_on_side(side, v@));
    assert(is_priority_insert(side, before, v@, order, p as int));
}

/// Sets the quantity of the head of `v` to `left`, and takes the head off
/// when `left` is below `dust`.
fn fill_head(side: Side, v: &mut Vec<Order>, left: u32, dust: u32)
    requires
        in_priority_order(side, old(v)@),
        all_on_side(side, old(v)@),
        old(v)@.len() > 0,
    ensures
        in_priority_order(side, final(v)@),
        all_on_side(side, final(v)@),
        final(v)@ == after_fill(old(v)@, left, dust),
{
    let ghost before = v@;
    let mut head = v[0];
    head.quantity_key = left;
    v.set(0, head);
    if left < dust {
        v.remove(0);
    }
    assert(v@ =~= after_fill(before, left, dust));
    assert forall|i: int, j: int| 0 <= i < j < v@.len() implies ranks_ahead_or_ties(side, #[trigger] v@[i], #[trigger] v@[j]) by {
        if left < dust {
            assert(ranks_ahead_or_ties(side, before[i + 1], before[j + 1]));
        } else {
            assert(ranks_ahead_or_ties(side, before[i], before[j]));
        }
    }
    assert forall|i: int| 0 <= i < v@.len() implies (#[trigger] v@[i]).side == side by {
        if left < dust {
            assert(before[i + 1].side == side);
        } else {
            assert(before[i].side == side);
        }
    }
}

/// The resting orders for one good: bids best (highest) price first, asks
/// best (lowest) price first, equal prices by increasing id. The fields are
/// private and the priority order is a type invariant, so no caller can put
/// the book out of order.
pub struct OrderBook {
    resource: Resource,
    bids: Vec<Order>,
    asks: Vec<Order>,
}

impl OrderBook {
    #[verifier::type_invariant]
    spec fn priority_kept(self) -> bool {
        &&& in_priority_order(Side::Buy, self.bids@)
        &&& in_priority_order(Side::Sell, self.asks@)
        &&& all_on_side(Side::Buy, self.bids@)
        &&& all_on_side(Side::Sell, self.asks@)
    }

    /// The good the book trades.
    pub closed spec fn book_resource(self) -> Resource {
        self.resource
    }

    /// The resting bids, best first.
    pub closed spec fn bid_orders(self) -> Seq<Order> {
        self.bids@
    }

    /// The resting asks, best first.
    pub closed spec fn ask_orders(self) -> Seq<Order> {
        self.asks@
    }

    /// Both sides are in price-time priority and hold only orders of their
    /// side; every book is, by its type invariant.
    pub open spec fn wf(self) -> bool {
        &&& in_priority_order(Side::Buy, self.bid_orders())
        &&& in_priority_order(Side::Sell, self.ask_orders())
        &&& all_on_side(Side::Buy, self.bid_orders())
        &&& all_on_side(Side::Sell, self.ask_orders())
    }

    /// The orders resting on `side`.
    pub open spec fn side_orders(self, side: Side) -> Seq<Order> {
        match side {
            Side::Buy => self.bid_orders(),
            Side::Sell => self.ask_orders(),
        }
    }

    /// The best bid meets or beats the best ask, so the two can trade.
    pub open spec fn crossed(self) -> bool {
        &&& self.bid_orders().len() > 0
        &&& self.ask_orders().len() > 0
        &&& self.bid_orders()[0].price_key >= self.ask_orders()[0].price_key
    }

    pub fn new(resource: Resource) -> (book: OrderBook)
        ensures
            book.book_resource() == resource,
            book.bid_orders() == Seq::<Order>::empty(),
            book.ask_orders() == Seq::<Order>::empty(),
    {
        OrderBook { resource, bids: Vec::new(), asks: Vec::new() }
    }

    /// The good the book trades.
    pub fn resource(&self) -> (r: Resource)
        ensures
            r == self.book_resource(),
    {
        self.resource
    }

    /// The resting bids, best first.
    pub fn bids(&self) -> (v: &Vec<Order>)
        ensures
            v@ == self.bid_orders(),
            self.wf(),
    {
        proof {
            use_type_invariant(self);
        }
        &self.bids
    }

    /// The resting asks, best first.
    pub fn asks(&self) -> (v: &Vec<Order>)
        ensures
            v@ == self.ask_orders(),
            self.wf(),
    {
        proof {
            use_type_invariant(self);
        }
        &self.asks
    }

    /// Rests `order` on its side, behind every order that ranks ahead of it
    /// or ties with it and ahead of all others.
    pub fn submit(&mut self, order: Order)
        ensures
            final(self).book_resource() == old(self).book_resource(),
            order.side == Side::Buy ==> final(self).ask_orders() == old(self).ask_orders(),
            order.side == Side::Sell ==> final(self).bid_orders() == old(self).bid_orders(),
            exists|p: int| #[trigger] is_priority_insert(
                order.side,
                old(self).side_orders(order.side),
                final(self).side_orders(order.side),
                order,
                p,
            ),
    {
        proof {
            use_type_invariant(&*self);
        }
        match order.side {
            Side::Buy => {
                let mut bids: Vec<Order> = Vec::new();
                std::mem::swap(&mut bids, &mut self.bids);
                let ghost was = bids@;
                insert_by_priority(Side::Buy, &mut bids, order);
                let ghost now = bids@;
                self.bids = bids;
                proof {
                    let p = choose|p: int| is_priority_insert(Side::Buy, was, now, order, p);
                    assert(old(self).side_orders(Side::Buy) == was);
                    assert(self.side_orders(Side::Buy) == now);
                    assert(is_priority_insert(order.side, old(self).side_orders(order.side), self.side_orders(order.side), order, p));
                }
            },
            Side::Sell => {
                let mut asks: Vec<Order> = Vec::new();
                std::mem::swap(&mut asks, &mut self.asks);
                let ghost was = asks@;
                insert_by_priority(Side::Sell, &mut asks, order);
                let ghost now = asks@;
                self.asks = asks;
                proof {
                    let p = choose|p: int| is_priority_insert(Side::Sell, was, now, order, p);
                    assert(old(self).side_orders(Side::Sell) == was);
                    assert(self.side_orders(Side::Sell) == now);
                    assert(is_priority_insert(order.side, old(self).side_orders(order.side), self.side_orders(order.side), order, p));
                }
            },
        }
    }

    /// The best bid and the best ask, when they cross.
    pub fn best_cross(&self) -> (r: Option<(Order, Order)>)
        ensures
            r is Some <==> self.crossed(),
            r matches Some(pair) ==> {
                &&& pair.0 == self.bid_orders()[0]
                &&& pair.1 == self.ask_orders()[0]
                &&& forall|i: int| 0 <= i < self.bid_orders().len() ==> ranks_ahead_or_ties(Side::Buy, pair.0, #[trigger] self.bid_orders()[i])
                &&& forall|i: int| 0 <= i < self.ask_orders().len() ==> ranks_ahead_or_ties(Side::Sell, pair.1, #[trigger] self.ask_orders()[i])
            },
    {
        proof {
            use_type_invariant(self);
        }
        if self.bids.len() == 0 || self.asks.len() == 0 {
            return None;
        }
        let bid = self.bids[0];
        let ask = self.asks[0];
        if bid.price_key < ask.price_key {
            return None;
        }
        assert forall|i: int| 0 <= i < self.bids@.len() implies ranks_ahead_or_ties(Side::Buy, bid, #[trigger] self.bids@[i]) by {
            if i > 0 {
                assert(ranks_ahead_or_ties(Side::Buy, self.bids@[0], self.bids@[i]));
            }
        }
        assert forall|i: int| 0 <= i < self.asks@.len() implies ranks_ahead_or_ties(Side::Sell, ask, #[trigger] self.asks@[i]) by {
            if i > 0 {
                assert(ranks_ahead_or_ties(Side::Sell, self.asks@[0], self.asks@[i]));
            }
        }
        Some((bid, ask))
    }

    /// Trades the best bid against the best ask for the smaller of their two
    /// quantities, which it returns. The smaller order (both, when they are
    /// equal) is used up and leaves the book; the larger is left with
    /// `larger_left`, its quantity less the traded one, and leaves too when
    /// that is below `dust`. Each call takes at least one order off the book,
    /// so matching until `best_cross` finds no pair always ends.
    pub fn match_best(&mut self, larger_left: u32, dust: u32) -> (traded: u32)
        requires
            old(self).crossed(),
            dust > 0,
            larger_left <= old(self).bid_orders()[0].quantity_key || larger_left <= old(self).ask_orders()[0].quantity_key,
        ensures
            final(self).book_resource() == old(self).book_resource(),
            traded == min_key(old(self).bid_orders()[0].quantity_key, old(self).ask_orders()[0].quantity_key),
            final(self).bid_orders() == after_match(
                old(self).bid_orders(),
                old(self).bid_orders()[0].quantity_key,
                old(self).ask_orders()[0].quantity_key,
                larger_left,
                dust,
            ),
            final(self).ask_orders() == after_match(
                old(self).ask_orders(),
                old(self).ask_orders()[0].quantity_key,
                old(self).bid_orders()[0].quantity_key,
                larger_left,
                dust,
            ),
            final(self).bid_orders().len() + final(self).ask_orders().len()
                < old(self).bid_orders().len() + old(self).ask_orders().len(),
    {
        proof {
            use_type_invariant(&*self);
        }
        let bid_qty = self.bids[0].quantity_key;
        let ask_qty = self.asks[0].quantity_key;
        let bid_left = if bid_qty <= ask_qty { 0 } else { larger_left };
        let ask_left = if ask_qty <= bid_qty { 0 } else { larger_left };
        let mut bids: Vec<Order> = Vec::new();
        std::mem::swap(&mut bids, &mut self.bids);
        fill_head(Side::Buy, &mut bids, bid_left, dust);
        self.bids = bids;
        let mut asks: Vec<Order> = Vec::new();
        std::mem::swap(&mut asks, &mut self.asks);
        fill_head(Side::Sell, &mut asks, ask_left, dust);
        self.asks = asks;
        if bid_qty <= ask_qty {
            bid_qty
        } else {
            ask_qty
        }
    }

    /// Takes every resting order off the book.
    pub fn clear(&mut self)
        ensures
            final(self).book_resource() == old(self).book_resource(),
            final(self).bid_orders() == Seq::<Order>::empty(),
            final(self).ask_orders() == Seq::<Order>::empty(),
    {
        proof {
            use_type_invariant(&*self);
        }
        self.bids = Vec::new();
        self.asks = Vec::new();
    }
}

} // verus!
