use card_battle::battle::{ActionError, Battle, PlayerState};
use card_battle::card::{
    CardCatalog, CardEntry, CardKind, ExtraEffect, ExtraStatusEffect, GradeEnum, RaceEnum, RequiredEnergy, UnitStats,
};
use card_battle::mulligan_request_form::MulliganRequestForm;
use card_battle::turn::next_turn;
use card_battle::turn_end_request_form::TurnEndRequestForm;

const A: i32 = 1;
const B: i32 = 2;

fn catalog() -> CardCatalog {
    CardCatalog::new(vec![CardEntry {
        card_id: 10,
        kind: CardKind::Unit,
        stats: Some(UnitStats {
            race: RaceEnum::Human,
            grade: GradeEnum::Common,
            attack_point: 5,
            health_point: 20,
            required_energy: RequiredEnergy { basic_attack: 0, first_skill: 0, second_skill: 0, third_skill: 0 },
            has_first_passive_skill: false,
            has_second_passive_skill: false,
            has_third_passive_skill: false,
            passive_status_list: vec![],
        }),
        passive_skills: vec![],
    }])
}

fn form() -> TurnEndRequestForm {
    TurnEndRequestForm::new("session".to_string())
}

fn battle(hand_a: Vec<i32>, deck_a: Vec<i32>, hand_b: Vec<i32>, deck_b: Vec<i32>) -> Battle {
    Battle::new(PlayerState::new(A, hand_a, deck_a, 30), PlayerState::new(B, hand_b, deck_b, 30)).unwrap()
}

#[test]
fn end_turn_hands_turn_energy_and_card_to_opponent() {
    let mut b = battle(vec![], vec![1], vec![50, 51, 52], vec![60, 61]);
    b.second.energy.count = 2;
    let outcome = b.request_turn_end(&form(), A).unwrap();
    assert_eq!(b.turn.owner, B);
    assert_eq!(b.second.energy.count, 3);
    assert_eq!(b.second.hand.cards.len(), 4);
    assert_eq!(b.second.hand.cards, vec![50, 51, 52, 60]);
    assert_eq!(b.second.deck.cards, vec![61]);
    assert_eq!(outcome.turn_owner, B);
    assert_eq!(outcome.drawn_card_list, vec![60]);
    assert!(outcome.dead_unit_list.is_empty());
    assert_eq!(b.first.energy.count, 0);
    assert!(b.first.hand.cards.is_empty());
    assert_eq!(b.first.deck.cards, vec![1]);
}

#[test]
fn round_goes_up_after_both_players_ended_a_turn() {
    let mut b = battle(vec![], vec![], vec![], vec![]);
    assert_eq!(b.turn.round, 1);
    assert_eq!(b.request_turn_end(&form(), A).unwrap().round, 1);
    assert_eq!(b.turn.round, 1);
    assert_eq!(b.request_turn_end(&form(), B).unwrap().round, 2);
    assert_eq!(b.turn.round, 2);
    assert_eq!(b.turn.owner, A);
    b.request_turn_end(&form(), A).unwrap();
    assert_eq!(b.turn.round, 2);
    b.request_turn_end(&form(), B).unwrap();
    assert_eq!(b.turn.round, 3);
    assert_eq!(b.first.energy.count, 2);
    assert_eq!(b.second.energy.count, 2);
}

#[test]
fn round_stops_at_the_largest_number() {
    let turn = card_battle::battle::TurnState { owner: A, round: i32::MAX, half_round_done: true };
    let next = next_turn(turn, B);
    assert_eq!(next.round, i32::MAX);
    assert_eq!(next.owner, B);
    assert!(!next.half_round_done);
}

#[test]
fn end_turn_without_form_does_the_same() {
    let mut b = battle(vec![], vec![1], vec![50], vec![60, 61]);
    let outcome = b.end_turn(A).unwrap();
    assert_eq!((outcome.turn_owner, outcome.round), (B, 1));
    assert_eq!(outcome.drawn_card_list, vec![60]);
    assert_eq!(b.second.energy.count, 1);
    assert_eq!(b.end_turn(A).unwrap_err(), ActionError::RuleViolation);
    assert_eq!(b.end_turn(8).unwrap_err(), ActionError::AuthenticationFailure);
    assert_eq!(b.end_turn(B).unwrap().round, 2);
    assert_eq!(b.first.hand.cards, vec![1]);
}

#[test]
fn turn_can_pass_with_another_grant_and_draw() {
    let mut b = battle(vec![], vec![], vec![50], vec![60, 61, 62]);
    let outcome = b.pass_turn(A, 3, 2).unwrap();
    assert_eq!(outcome.drawn_card_list, vec![60, 61]);
    assert_eq!(b.second.energy.count, 3);
    assert_eq!(b.second.hand.cards, vec![50, 60, 61]);
    assert_eq!(b.second.deck.cards, vec![62]);
    let none = b.pass_turn(B, 0, 0).unwrap();
    assert!(none.drawn_card_list.is_empty());
    assert_eq!(b.first.energy.count, 0);
    assert_eq!(b.turn.round, 2);
}

#[test]
fn end_turn_out_of_turn_is_rule_violation() {
    let mut b = battle(vec![], vec![1], vec![], vec![2]);
    assert_eq!(b.request_turn_end(&form(), B).unwrap_err(), ActionError::RuleViolation);
    assert_eq!(b.turn.owner, A);
    assert_eq!(b.first.energy.count, 0);
    assert!(b.first.hand.cards.is_empty());
    assert_eq!(b.turn.round, 1);
}

#[test]
fn end_turn_by_stranger_is_authentication_failure() {
    let mut b = battle(vec![], vec![1], vec![], vec![2]);
    assert_eq!(b.request_turn_end(&form(), 3).unwrap_err(), ActionError::AuthenticationFailure);
    assert_eq!(b.request_turn_end(&form(), -1).unwrap_err(), ActionError::AuthenticationFailure);
    assert_eq!(b.turn.owner, A);
}

#[test]
fn end_turn_with_empty_deck_draws_nothing() {
    let mut b = battle(vec![], vec![], vec![7], vec![]);
    let outcome = b.request_turn_end(&form(), A).unwrap();
    assert!(outcome.drawn_card_list.is_empty());
    assert_eq!(b.second.hand.cards, vec![7]);
    assert_eq!(b.second.energy.count, 1);
    assert_eq!(b.turn.owner, B);
}

#[test]
fn end_turn_lets_statuses_burn_own_units_first() {
    let catalog = catalog();
    let mut b = battle(vec![10, 10, 10], vec![], vec![10], vec![]);
    b.deploy_unit(&catalog, A, 10).unwrap();
    b.deploy_unit(&catalog, A, 10).unwrap();
    b.deploy_unit(&catalog, A, 10).unwrap();
    b.deploy_unit(&catalog, B, 10).unwrap();
    b.first.field.units[0].harmful_status_list = vec![
        ExtraStatusEffect::new(ExtraEffect::DarkFire, 2, 3, 0),
        ExtraStatusEffect::new(ExtraEffect::Freeze, 1, 0, 0),
        ExtraStatusEffect::new(ExtraEffect::DarkFire, 5, 4, 1),
    ];
    b.first.field.units[1].health_point = 6;
    b.first.field.units[1].harmful_status_list = vec![ExtraStatusEffect::new(ExtraEffect::DarkFire, 3, 6, 0)];
    b.second.field.units[0].harmful_status_list = vec![ExtraStatusEffect::new(ExtraEffect::DarkFire, 3, 6, 0)];
    let outcome = b.request_turn_end(&form(), A).unwrap();
    assert_eq!(b.first.field.units[0].health_point, 13);
    assert_eq!(
        b.first.field.units[0].harmful_status_list,
        vec![
            ExtraStatusEffect::new(ExtraEffect::DarkFire, 1, 3, 0),
            ExtraStatusEffect::new(ExtraEffect::DarkFire, 4, 4, 1),
        ]
    );
    assert_eq!(b.first.field.units[1].health_point, 0);
    assert!(!b.first.field.units[1].alive);
    assert_eq!(b.first.field.units[2].health_point, 20);
    assert_eq!(outcome.dead_unit_list, vec![10]);
    assert_eq!(b.first.tomb.cards, vec![10]);
    assert_eq!(b.second.field.units[0].health_point, 20);
    assert_eq!(b.second.field.units[0].harmful_status_list.len(), 1);
    assert_eq!(b.second.field.units[0].harmful_status_list[0].status_duration_turn, 3);
    assert!(b.second.tomb.cards.is_empty());
}

#[test]
fn end_turn_gives_new_owner_its_actions_back() {
    let catalog = catalog();
    let mut b = battle(vec![10], vec![], vec![10], vec![]);
    b.deploy_unit(&catalog, A, 10).unwrap();
    b.deploy_unit(&catalog, B, 10).unwrap();
    b.attack_unit(A, 0, 0).unwrap();
    assert!(b.first.field.units[0].turn_action_used);
    b.request_turn_end(&form(), A).unwrap();
    assert!(b.first.field.units[0].turn_action_used);
    assert!(b.attack_unit(B, 0, 0).is_ok());
    assert!(b.second.field.units[0].turn_action_used);
    b.request_turn_end(&form(), B).unwrap();
    assert!(!b.first.field.units[0].turn_action_used);
    assert!(b.second.field.units[0].turn_action_used);
    assert!(b.attack_unit(A, 0, 0).is_ok());
}

#[test]
fn turn_end_form_asks_for_one_card_and_one_energy() {
    let form = TurnEndRequestForm::new("abc".to_string());
    assert_eq!(form.get_session_id(), "abc");
    assert_eq!(form.to_session_validation_request().key, "abc");
    assert_eq!(form.to_next_round_request().session_id, "abc");
    assert_eq!(form.to_find_opponent_by_account_id_request(4).account_unique_id, 4);
    assert_eq!(form.to_apply_status_effect_damage_iteratively_request(4).account_unique_id, 4);
    assert_eq!(form.to_next_turn_request(4).account_unique_id, 4);
    let draw = form.to_draw_cards_from_deck_request(9);
    assert_eq!((draw.account_unique_id, draw.draw_count), (9, 1));
    let energy = form.to_add_field_energy_request(9);
    assert_eq!((energy.account_unique_id, energy.amount), (9, 1));
}

fn texts(cards: &[&str]) -> Vec<String> {
    cards.iter().map(|c| c.to_string()).collect()
}

#[test]
fn mulligan_puts_cards_under_deck_and_draws_as_many() {
    let mut b = battle(vec![1, 2, 3, 2], vec![7, 8, 9], vec![], vec![]);
    let form = MulliganRequestForm::new("s".to_string(), texts(&["2", "1"]));
    let drawn = b.execute_mulligan_procedure(&form, A).unwrap();
    assert_eq!(drawn, vec![7, 8]);
    assert_eq!(b.first.hand.cards, vec![3, 2, 7, 8]);
    assert_eq!(b.first.deck.cards, vec![9, 2, 1]);
}

#[test]
fn mulligan_by_card_ids() {
    let mut b = battle(vec![], vec![], vec![4, 5, 6], vec![7]);
    assert_eq!(b.mulligan(B, &vec![6, 4]).unwrap(), vec![7, 6]);
    assert_eq!(b.second.hand.cards, vec![5, 7, 6]);
    assert_eq!(b.second.deck.cards, vec![4]);
    assert_eq!(b.mulligan(B, &vec![4]).unwrap_err(), ActionError::ProtocolViolation);
    assert_eq!(b.mulligan(0, &vec![]).unwrap_err(), ActionError::AuthenticationFailure);
    assert_eq!(b.second.hand.cards, vec![5, 7, 6]);
    assert!(b.first.hand.cards.is_empty());
}

#[test]
fn mulligan_of_nothing_changes_nothing() {
    let mut b = battle(vec![1, 2], vec![7], vec![], vec![]);
    let form = MulliganRequestForm::new("s".to_string(), vec![]);
    assert_eq!(b.execute_mulligan_procedure(&form, A).unwrap(), Vec::<i32>::new());
    assert_eq!(b.first.hand.cards, vec![1, 2]);
    assert_eq!(b.first.deck.cards, vec![7]);
}

#[test]
fn mulligan_can_draw_back_what_was_put_under_an_empty_deck() {
    let mut b = battle(vec![1, 2], vec![], vec![], vec![]);
    let form = MulliganRequestForm::new("s".to_string(), texts(&["2"]));
    assert_eq!(b.execute_mulligan_procedure(&form, A).unwrap(), vec![2]);
    assert_eq!(b.first.hand.cards, vec![1, 2]);
    assert!(b.first.deck.cards.is_empty());
}

#[test]
fn mulligan_of_card_not_in_hand_is_protocol_violation() {
    let mut b = battle(vec![1, 2], vec![7, 8], vec![], vec![]);
    for cards in [texts(&["3"]), texts(&["1", "1"]), texts(&["x"]), texts(&["1", ""])] {
        let form = MulliganRequestForm::new("s".to_string(), cards);
        assert_eq!(b.execute_mulligan_procedure(&form, A).unwrap_err(), ActionError::ProtocolViolation);
        assert_eq!(b.first.hand.cards, vec![1, 2]);
        assert_eq!(b.first.deck.cards, vec![7, 8]);
    }
}

#[test]
fn mulligan_by_stranger_is_authentication_failure() {
    let mut b = battle(vec![1, 2], vec![7, 8], vec![], vec![]);
    let form = MulliganRequestForm::new("s".to_string(), texts(&["1"]));
    assert_eq!(b.execute_mulligan_procedure(&form, 5).unwrap_err(), ActionError::AuthenticationFailure);
}

#[test]
fn mulligan_form_makes_its_requests() {
    let form = MulliganRequestForm::new("sid".to_string(), texts(&["4", "x", "-7"]));
    let put = form.to_put_cards_on_deck_request();
    assert_eq!(put.session_id, "sid");
    assert_eq!(put.will_be_changed_card_list, texts(&["4", "x", "-7"]));
    let redraw = form.to_shuffle_and_redraw_card_request();
    assert_eq!(redraw.session_id, "sid");
    assert_eq!(redraw.redraw_card_count, 3);
    assert_eq!(form.to_get_value_with_key_request().key, "sid");
    let check = form.to_check_cards_from_hand_request();
    assert_eq!(check.session_id, "sid");
    assert_eq!(check.hand_card_list, vec![4, -1, -7]);
}
