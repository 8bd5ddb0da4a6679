use medieval_market::market::{traded_flags, Market};
use medieval_market::order::{Order, Side};
use medieval_market::resource::Resource;

#[test]
fn new_market_has_one_empty_book_per_good() {
    let m = Market::new();
    assert_eq!(m.books().len(), 12);
    for (i, book) in m.books().iter().enumerate() {
        assert_eq!(book.resource().index(), i);
        assert!(book.bids().is_empty());
        assert!(book.asks().is_empty());
    }
}

#[test]
fn orders_go_to_the_book_of_their_good() {
    let mut m = Market::new();
    m.submit_order(Order {
        id: 0,
        agent_id: 3,
        resource: Resource::Flour,
        side: Side::Buy,
        price_key: 10.0f32.to_bits(),
        quantity_key: 1.0f32.to_bits(),
    });
    m.submit_order(Order {
        id: 1,
        agent_id: 4,
        resource: Resource::Flour,
        side: Side::Sell,
        price_key: 9.0f32.to_bits(),
        quantity_key: 1.0f32.to_bits(),
    });
    for (i, book) in m.books().iter().enumerate() {
        if i == Resource::Flour.index() {
            assert_eq!(book.bids().len(), 1);
            assert_eq!(book.asks().len(), 1);
        } else {
            assert!(book.bids().is_empty() && book.asks().is_empty());
        }
    }
    let (bid, ask) = m.best_cross(Resource::Flour).unwrap();
    assert_eq!((bid.agent_id, ask.agent_id), (3, 4));
    assert_eq!((bid.resource, ask.resource), (Resource::Flour, Resource::Flour));
    assert_eq!(m.best_cross(Resource::Grain), None);
    let traded = m.match_best(Resource::Flour, 0, 1);
    assert_eq!(f32::from_bits(traded), 1.0);
    assert_eq!(m.best_cross(Resource::Flour), None);
    assert!(m.books()[Resource::Flour.index()].bids().is_empty());
}

#[test]
fn clear_books_empties_every_book() {
    let mut m = Market::new();
    m.submit_order(Order {
        id: 0,
        agent_id: 0,
        resource: Resource::Tools,
        side: Side::Sell,
        price_key: 3,
        quantity_key: 4,
    });
    m.clear_books();
    assert!(m.books().iter().all(|b| b.bids().is_empty() && b.asks().is_empty()));
}

#[test]
fn traded_flags_mark_exactly_the_traded_goods() {
    let flags = traded_flags(&vec![Resource::Flour, Resource::Tools, Resource::Flour]);
    assert_eq!(flags.len(), 12);
    for r in Resource::all() {
        let expected = r == Resource::Flour || r == Resource::Tools;
        assert_eq!(flags[r.index()], expected);
    }
    assert!(traded_flags(&vec![]).iter().all(|f| !f));
}
