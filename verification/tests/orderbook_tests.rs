use medieval_market::order::{Order, Side};
use medieval_market::orderbook::OrderBook;
use medieval_market::resource::Resource;

fn order(id: u64, agent_id: usize, side: Side, price: f32, quantity: f32) -> Order {
    Order {
        id,
        agent_id,
        resource: Resource::Grain,
        side,
        price_key: price.to_bits(),
        quantity_key: quantity.to_bits(),
    }
}

fn ids(orders: &[Order]) -> Vec<u64> {
    orders.iter().map(|o| o.id).collect()
}

#[test]
fn new_book_is_empty() {
    let book = OrderBook::new(Resource::Tools);
    assert_eq!(book.resource(), Resource::Tools);
    assert!(book.bids().is_empty());
    assert!(book.asks().is_empty());
    assert_eq!(book.best_cross(), None);
}

#[test]
fn bids_highest_price_first_then_earliest() {
    let mut book = OrderBook::new(Resource::Grain);
    book.submit(order(1, 0, Side::Buy, 9.0, 1.0));
    book.submit(order(2, 1, Side::Buy, 11.0, 1.0));
    book.submit(order(3, 2, Side::Buy, 10.0, 1.0));
    book.submit(order(4, 3, Side::Buy, 11.0, 1.0));
    assert_eq!(ids(book.bids()), vec![2, 4, 3, 1]);
    assert!(book.asks().is_empty());
}

#[test]
fn asks_lowest_price_first_then_earliest() {
    let mut book = OrderBook::new(Resource::Grain);
    book.submit(order(1, 0, Side::Sell, 12.0, 1.0));
    book.submit(order(2, 1, Side::Sell, 8.5, 1.0));
    book.submit(order(3, 2, Side::Sell, 12.0, 1.0));
    book.submit(order(4, 3, Side::Sell, 0.5, 1.0));
    assert_eq!(ids(book.asks()), vec![4, 2, 1, 3]);
    assert!(book.bids().is_empty());
}

#[test]
fn earlier_id_wins_even_when_submitted_later() {
    let mut book = OrderBook::new(Resource::Grain);
    book.submit(order(7, 0, Side::Buy, 10.0, 1.0));
    book.submit(order(5, 1, Side::Buy, 10.0, 1.0));
    assert_eq!(ids(book.bids()), vec![5, 7]);
}

#[test]
fn no_cross_when_bid_below_ask() {
    let mut book = OrderBook::new(Resource::Grain);
    book.submit(order(1, 0, Side::Buy, 9.0, 1.0));
    book.submit(order(2, 1, Side::Sell, 9.5, 1.0));
    assert_eq!(book.best_cross(), None);
}

#[test]
fn cross_at_equal_prices_pairs_the_best_orders() {
    let mut book = OrderBook::new(Resource::Grain);
    book.submit(order(1, 10, Side::Buy, 9.0, 1.0));
    book.submit(order(2, 11, Side::Buy, 10.0, 2.0));
    book.submit(order(3, 12, Side::Sell, 10.0, 3.0));
    book.submit(order(4, 13, Side::Sell, 10.5, 3.0));
    let (bid, ask) = book.best_cross().unwrap();
    assert_eq!(bid.id, 2);
    assert_eq!(bid.agent_id, 11);
    assert_eq!(ask.id, 3);
    assert_eq!(ask.agent_id, 12);
}

#[test]
fn match_removes_the_smaller_order_and_keeps_the_rest() {
    let mut book = OrderBook::new(Resource::Grain);
    book.submit(order(1, 10, Side::Buy, 10.0, 2.0));
    book.submit(order(2, 11, Side::Sell, 9.0, 3.0));
    book.submit(order(3, 12, Side::Sell, 9.5, 1.0));
    let dust = 0.001f32.to_bits();
    // The bid is used up; one unit of the ask is left.
    let traded = book.match_best(1.0f32.to_bits(), dust);
    assert_eq!(f32::from_bits(traded), 2.0);
    assert!(book.bids().is_empty());
    assert_eq!(ids(book.asks()), vec![2, 3]);
    assert_eq!(f32::from_bits(book.asks()[0].quantity_key), 1.0);
    assert_eq!(book.best_cross(), None);
}

#[test]
fn match_of_equal_quantities_removes_both() {
    let mut book = OrderBook::new(Resource::Grain);
    book.submit(order(1, 10, Side::Buy, 10.0, 2.0));
    book.submit(order(2, 11, Side::Sell, 9.0, 2.0));
    book.submit(order(3, 12, Side::Buy, 9.0, 1.0));
    let traded = book.match_best(0, 0.001f32.to_bits());
    assert_eq!(f32::from_bits(traded), 2.0);
    assert_eq!(ids(book.bids()), vec![3]);
    assert!(book.asks().is_empty());
}

#[test]
fn match_leaving_dust_removes_both() {
    let mut book = OrderBook::new(Resource::Grain);
    book.submit(order(1, 10, Side::Buy, 10.0, 2.0));
    book.submit(order(2, 11, Side::Sell, 9.0, 2.0005));
    let dust = 0.001f32.to_bits();
    let traded = book.match_best((2.0005f32 - 2.0).to_bits(), dust);
    assert_eq!(f32::from_bits(traded), 2.0);
    assert!(book.bids().is_empty());
    assert!(book.asks().is_empty());
}

#[test]
fn clear_empties_both_sides() {
    let mut book = OrderBook::new(Resource::Wool);
    book.submit(order(1, 0, Side::Buy, 10.0, 1.0));
    book.submit(order(2, 1, Side::Sell, 11.0, 1.0));
    book.clear();
    assert!(book.bids().is_empty());
    assert!(book.asks().is_empty());
    assert_eq!(book.resource(), Resource::Wool);
}

#[test]
fn matching_loop_ends_uncrossed() {
    let mut book = OrderBook::new(Resource::Grain);
    book.submit(order(1, 0, Side::Buy, 12.0, 3.0));
    book.submit(order(2, 1, Side::Buy, 10.0, 3.0));
    book.submit(order(3, 2, Side::Sell, 9.0, 2.0));
    book.submit(order(4, 3, Side::Sell, 11.0, 5.0));
    let dust = 0.001f32.to_bits();
    let mut fills = Vec::new();
    while let Some((bid, ask)) = book.best_cross() {
        let bq = f32::from_bits(bid.quantity_key);
        let aq = f32::from_bits(ask.quantity_key);
        let left = (bq.max(aq) - bq.min(aq)).to_bits();
        let q = f32::from_bits(book.match_best(left, dust));
        fills.push((bid.agent_id, ask.agent_id, q));
    }
    assert_eq!(fills, vec![(0, 2, 2.0), (0, 3, 1.0)]);
    assert_eq!(ids(book.bids()), vec![2]);
    assert_eq!(ids(book.asks()), vec![4]);
    assert_eq!(f32::from_bits(book.asks()[0].quantity_key), 4.0);
}
