use vstd::prelude::*;

use crate::config::RESOURCE_COUNT;
use crate::order::Order;
use crate::orderbook::{after_match, min_key, OrderBook};
use crate::resource::Resource;

verus! {

/// Every order resting in `book` is for the book's good.
pub open spec fn holds_only(book: OrderBook) -> bool {
    &&& forall|k: int| 0 <= k < book.bid_orders().len() ==> (#[trigger] book.bid_orders()[k]).resource == book.book_resource()
    &&& forall|k: int| 0 <= k < book.ask_orders().len() ==> (#[trigger] book.ask_orders()[k]).resource == book.book_resource()
}

/// One order book per good, kept in the goods' declaration order. The
/// field is private: only the methods below, which keep `wf`, change it.
pub struct Market {
    books: Vec<OrderBook>,
}

impl Market {
    /// The books, one per good in declaration order.
    pub closed spec fn book_list(self) -> Seq<OrderBook> {
        self.books@
    }

    /// A book for every good, book `i` trading the good of index `i`, each
    /// holding orders for its own good only. `new` establishes it and every
    /// method keeps it.
    pub open spec fn wf(self) -> bool {
        &&& self.book_list().len() == RESOURCE_COUNT
        &&& forall|i: int| 0 <= i < self.book_list().len() ==> (#[trigger] self.book_list()[i]).book_resource().spec_index() == i
        &&& forall|i: int| 0 <= i < self.book_list().len() ==> holds_only(#[trigger] self.book_list()[i])
    }

    /// The book that trades `r`.
    pub open spec fn book(self, r: Resource) -> OrderBook {
        self.book_list()[r.spec_index() as int]
    }

    /// The books, one per good in declaration order.
    pub fn books(&self) -> (v: &Vec<OrderBook>)
        ensures
            v@ == self.book_list(),
    {
        &self.books
    }

    pub fn new() -> (m: Market)
        ensures
            m.wf(),
            forall|i: int| 0 <= i < m.book_list().len() ==> (#[trigger] m.book_list()[i]).bid_orders().len() == 0 && m.book_list()[i].ask_orders().len() == 0,
    {
        let all = Resource::all();
        let mut books: Vec<OrderBook> = Vec::new();
        let mut i: usize = 0;
        while i < all.len()
            invariant
                all@.len() == RESOURCE_COUNT,
                forall|k: int| 0 <= k < all@.len() ==> (#[trigger] all@[k]).spec_index() == k,
                i <= all@.len(),
                books@.len() == i,
                forall|k: int| 0 <= k < books@.len() ==> (#[trigger] books@[k]).book_resource().spec_index() == k,
                forall|k: int| 0 <= k < books@.len() ==> (#[trigger] books@[k]).bid_orders().len() == 0 && books@[k].ask_orders().len() == 0,
            decreases all@.len() - i,
        {
            books.push(OrderBook::new(all[i]));
            i = i + 1;
        }
        Market { books }
    }

    /// Sends `order` to the book of its good; no other book changes.
    pub fn submit_order(&mut self, order: Order)
        requires
            old(self).wf(),
        ensures
            final(self).wf(),
            forall|i: int| 0 <= i < final(self).book_list().len() && i != order.resource.spec_index()
                ==> #[trigger] final(self).book_list()[i] == old(self).book_list()[i],
            ({
                let before = old(self).book(order.resource);
                let after = final(self).book(order.resource);
                &&& after.book_resource() == before.book_resource()
                &&& (order.side == crate::order::Side::Buy ==> after.ask_orders() == before.ask_orders())
                &&& (order.side == crate::order::Side::Sell ==> after.bid_orders() == before.bid_orders())
                &&& exists|p: int| #[trigger] crate::orderbook::is_priority_insert(
                    order.side,
                    before.side_orders(order.side),
                    after.side_orders(order.side),
                    order,
                    p,
                )
            }),
    {
        let idx = order.resource.index();
        let ghost old_book = self.books@[idx as int];
        self.books[idx].submit(order);
        proof {
            let new_book = self.books@[idx as int];
            assert(holds_only(old_book));
            crate::resource::law_index_round_trip(order.resource, idx as int);
            crate::resource::law_index_round_trip(old_book.book_resource(), idx as int);
            assert(old_book.book_resource() == order.resource);
            let p = choose|p: int| crate::orderbook::is_priority_insert(
                order.side,
                old_book.side_orders(order.side),
                new_book.side_orders(order.side),
                order,
                p,
            );
            assert(holds_only(new_book)) by {
                let before = old_book.side_orders(order.side);
                let after = new_book.side_orders(order.side);
                assert forall|k: int| 0 <= k < after.len() implies (#[trigger] after[k]).resource == order.resource by {
                    if k < p {
                        assert(after[k] == before[k]);
                    } else if k > p {
                        assert(after[k] == before[k - 1]);
                    }
                }
                if order.side == crate::order::Side::Buy {
                    assert(after == new_book.bid_orders());
                } else {
                    assert(after == new_book.ask_orders());
                }
            }
            assert forall|i: int| 0 <= i < self.books@.len() implies holds_only(#[trigger] self.books@[i]) by {
                if i != idx {
                    assert(self.books@[i] == old(self).book_list()[i]);
                }
            }
        }
    }

    /// The best bid and ask of the book of `r`, when they cross.
    pub fn best_cross(&self, r: Resource) -> (c: Option<(Order, Order)>)
        requires
            self.wf(),
        ensures
            c is Some <==> self.book(r).crossed(),
            c matches Some(pair) ==> {
                &&& pair.0 == self.book(r).bid_orders()[0]
                &&& pair.1 == self.book(r).ask_orders()[0]
                &&& pair.0.resource == r
                &&& pair.1.resource == r
            },
    {
        let c = self.books[r.index()].best_cross();
        proof {
            let book = self.books@[r.spec_index() as int];
            assert(holds_only(book));
            if book.crossed() {
                assert(book.bid_orders()[0].resource == book.book_resource());
                assert(book.ask_orders()[0].resource == book.book_resource());
                crate::resource::law_index_round_trip(r, r.spec_index() as int);
                crate::resource::law_index_round_trip(book.book_resource(), r.spec_index() as int);
            }
        }
        c
    }

    /// Trades the best bid against the best ask of the book of `r` (see
    /// `OrderBook::match_best`) and returns the traded quantity key; no other
    /// book changes, and the book of `r` loses at least one order.
    pub fn match_best(&mut self, r: Resource, larger_left: u32, dust: u32) -> (traded: u32)
        requires
            old(self).wf(),
            old(self).book(r).crossed(),
            dust > 0,
            larger_left <= old(self).book(r).bid_orders()[0].quantity_key || larger_left <= old(self).book(r).ask_orders()[0].quantity_key,
        ensures
            final(self).wf(),
            forall|i: int| 0 <= i < final(self).book_list().len() && i != r.spec_index()
                ==> #[trigger] final(self).book_list()[i] == old(self).book_list()[i],
            traded == min_key(old(self).book(r).bid_orders()[0].quantity_key, old(self).book(r).ask_orders()[0].quantity_key),
            final(self).book(r).bid_orders() == after_match(
                old(self).book(r).bid_orders(),
                old(self).book(r).bid_orders()[0].quantity_key,
                old(self).book(r).ask_orders()[0].quantity_key,
                larger_left,
                dust,
            ),
            final(self).book(r).ask_orders() == after_match(
                old(self).book(r).ask_orders(),
                old(self).book(r).ask_orders()[0].quantity_key,
                old(self).book(r).bid_orders()[0].quantity_key,
                larger_left,
                dust,
            ),
            final(self).book(r).bid_orders().len() + final(self).book(r).ask_orders().len()
                < old(self).book(r).bid_orders().len() + old(self).book(r).ask_orders().len(),
    {
        let idx = r.index();
        let ghost old_book = self.books@[idx as int];
        let traded = self.books[idx].match_best(larger_left, dust);
        proof {
            let new_book = self.books@[idx as int];
            assert(holds_only(old_book));
            assert forall|k: int| 0 <= k < new_book.bid_orders().len() implies (#[trigger] new_book.bid_orders()[k]).resource == new_book.book_resource() by {
                if new_book.bid_orders().len() < old_book.bid_orders().len() {
                    assert(new_book.bid_orders()[k] == old_book.bid_orders()[k + 1]);
                } else if k > 0 {
                    assert(new_book.bid_orders()[k] == old_book.bid_orders()[k]);
                }
            }
            assert forall|k: int| 0 <= k < new_book.ask_orders().len() implies (#[trigger] new_book.ask_orders()[k]).resource == new_book.book_resource() by {
                if new_book.ask_orders().len() < old_book.ask_orders().len() {
                    assert(new_book.ask_orders()[k] == old_book.ask_orders()[k + 1]);
                } else if k > 0 {
                    assert(new_book.ask_orders()[k] == old_book.ask_orders()[k]);
                }
            }
            assert forall|i: int| 0 <= i < self.books@.len() implies holds_only(#[trigger] self.books@[i]) by {
                if i != idx {
                    assert(self.books@[i] == old(self).book_list()[i]);
                }
            }
        }
        traded
    }

    /// Takes every resting order off every book.
    pub fn clear_books(&mut self)
        requires
            old(self).wf(),
        ensures
            final(self).wf(),
            forall|i: int| 0 <= i < final(self).book_list().len() ==> (#[trigger] final(self).book_list()[i]).bid_orders().len() == 0 && final(self).book_list()[i].ask_orders().len() == 0,
    {
        let mut i: usize = 0;
        while i < self.books.len()
            invariant
                self.books@.len() == RESOURCE_COUNT,
                forall|k: int| 0 <= k < self.books@.len() ==> (#[trigger] self.books@[k]).book_resource().spec_index() == k,
                forall|k: int| 0 <= k < self.books@.len() ==> holds_only(#[trigger] self.books@[k]),
                i <= self.books@.len(),
                forall|k: int| 0 <= k < i ==> (#[trigger] self.books@[k]).bid_orders().len() == 0 && self.books@[k].ask_orders().len() == 0,
            decreases self.books@.len() - i,
        {
            self.books[i].clear();
            i = i + 1;
        }
    }
}

/// Which goods changed hands: slot `i` is set exactly when some traded good
/// has index `i`.
pub fn traded_flags(traded: &Vec<Resource>) -> (flags: Vec<bool>)
    ensures
        flags@.len() == RESOURCE_COUNT,
        forall|i: int| 0 <= i < RESOURCE_COUNT ==> (#[trigger] flags@[i] <==> exists|t: int| 0 <= t < traded@.len() && (#[trigger] traded@[t]).spec_index() == i),
{
    let mut flags: Vec<bool> = Vec::new();
    let mut i: usize = 0;
    while i < RESOURCE_COUNT
        invariant
            i <= RESOURCE_COUNT,
            flags@.len() == i,
            forall|k: int| 0 <= k < i ==> !(#[trigger] flags@[k]),
        decreases RESOURCE_COUNT - i,
    {
        flags.push(false);
        i = i + 1;
    }
    let mut t: usize = 0;
    while t < traded.len()
        invariant
            t <= traded@.len(),
            flags@.len() == RESOURCE_COUNT,
            forall|k: int| 0 <= k < RESOURCE_COUNT ==> (#[trigger] flags@[k] <==> exists|u: int| 0 <= u < t && (#[trigger] traded@[u]).spec_index() == k),
        decreases traded@.len() - t,
    {
        let idx = traded[t].index();
        flags.set(idx, true);
        assert forall|k: int| 0 <= k < RESOURCE_COUNT implies (#[trigger] flags@[k] <==> exists|u: int| 0 <= u < t + 1 && (#[trigger] traded@[u]).spec_index() == k) by {
            if k == idx {
                assert(traded@[t as int].spec_index() == k);
            } else {
                if exists|u: int| 0 <= u < t + 1 && (#[trigger] traded@[u]).spec_index() == k {
                    let u = choose|u: int| 0 <= u < t + 1 && (#[trigger] traded@[u]).spec_index() == k;
                    assert(u < t);
                }
            }
        }
        t = t + 1;
    }
    flags
}

} // verus!
