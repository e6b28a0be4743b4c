use card_battle::stores::{Deck, EnergyPool, Hand, Tomb};

#[test]
fn deck_draws_from_the_front() {
    let mut deck = Deck::new(vec![7, 8, 9]);
    let drawn = deck.draw_cards(2);
    assert_eq!(drawn, vec![7, 8]);
    assert_eq!(deck.cards, vec![9]);
}

#[test]
fn deck_draw_stops_at_empty_deck() {
    let mut deck = Deck::new(vec![7]);
    assert_eq!(deck.draw_cards(3), vec![7]);
    assert_eq!(deck.draw_cards(1), Vec::<i32>::new());
    assert_eq!(deck.draw_cards(-4), Vec::<i32>::new());
}

#[test]
fn hand_use_card_takes_first_occurrence() {
    let mut hand = Hand::new(vec![3, 5, 3, 9]);
    assert!(hand.use_card(3));
    assert_eq!(hand.cards, vec![5, 3, 9]);
    assert!(!hand.use_card(42));
    assert_eq!(hand.cards, vec![5, 3, 9]);
}

#[test]
fn hand_holds_every_counts_duplicates() {
    let hand = Hand::new(vec![3, 5, 3]);
    assert!(hand.holds_every(&vec![3, 3]));
    assert!(!hand.holds_every(&vec![5, 5]));
    assert!(hand.holds_every(&vec![]));
}

#[test]
fn tomb_counts_cards() {
    let mut tomb = Tomb::new();
    tomb.add_used_card_to_tomb(4);
    tomb.add_dead_unit_list_to_tomb(&vec![4, 6]);
    tomb.bury(None);
    tomb.bury(Some(6));
    assert_eq!(tomb.count(), 4);
    assert_eq!(tomb.count_of(4), 2);
    assert_eq!(tomb.count_of(6), 2);
    assert_eq!(tomb.count_of(1), 0);
}

#[test]
fn energy_pool_never_goes_negative() {
    let mut pool = EnergyPool::new();
    pool.add_energy(3);
    assert!(!pool.remove_energy(4));
    assert_eq!(pool.get_energy_count(), 3);
    assert!(pool.remove_energy(3));
    assert_eq!(pool.get_energy_count(), 0);
    assert!(!pool.remove_energy(-1));
    pool.add_energy(-5);
    assert_eq!(pool.get_energy_count(), 0);
}

#[test]
fn energy_pool_stops_at_the_largest_count() {
    let mut pool = EnergyPool::new();
    pool.add_energy(i32::MAX);
    pool.add_energy(1);
    assert_eq!(pool.get_energy_count(), i32::MAX);
}
