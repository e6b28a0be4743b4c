use card_battle::battle::{ActionError, Battle, PlayerState};
use card_battle::card::{
    CardCatalog, CardEntry, CardKind, ExtraEffect, ExtraStatusEffect, GradeEnum, PassiveStatus, RaceEnum,
    RequiredEnergy, UnitStats,
};
use card_battle::stores::StatusMainCharacterEnum;

const A: i32 = 1;
const B: i32 = 2;

const SOLDIER: i32 = 10;
const GHOST: i32 = 11;
const GIANT: i32 = 12;
const WISP: i32 = 13;
const COSTLY: i32 = 14;

fn entry(card_id: i32, attack: i32, health: i32, energy: i32, immune: bool) -> CardEntry {
    CardEntry {
        card_id,
        kind: CardKind::Unit,
        stats: Some(UnitStats {
            race: RaceEnum::Human,
            grade: GradeEnum::Common,
            attack_point: attack,
            health_point: health,
            required_energy: RequiredEnergy { basic_attack: energy, first_skill: 0, second_skill: 0, third_skill: 0 },
            has_first_passive_skill: false,
            has_second_passive_skill: false,
            has_third_passive_skill: false,
            passive_status_list: if immune { vec![PassiveStatus::Dummy, PassiveStatus::PhysicalImmunity] } else { vec![] },
        }),
        passive_skills: vec![],
    }
}

fn catalog() -> CardCatalog {
    CardCatalog::new(vec![
        entry(SOLDIER, 5, 20, 0, false),
        entry(GHOST, 4, 10, 0, true),
        entry(GIANT, 30, 40, 0, false),
        entry(WISP, 1, 3, 0, false),
        entry(COSTLY, 5, 20, 2, false),
    ])
}

fn battle(field_a: &[i32], field_b: &[i32]) -> Battle {
    let catalog = catalog();
    let mut b = Battle::new(
        PlayerState::new(A, field_a.to_vec(), vec![100, 101, 102], 30),
        PlayerState::new(B, field_b.to_vec(), vec![200, 201, 202], 30),
    )
    .unwrap();
    for card in field_a {
        b.deploy_unit(&catalog, A, *card).unwrap();
    }
    for card in field_b {
        b.deploy_unit(&catalog, B, *card).unwrap();
    }
    b
}

fn every_unit_is_consistent(b: &Battle) -> bool {
    b.first.field.units.iter().chain(b.second.field.units.iter()).all(|u| u.alive == (u.health_point > 0))
}

#[test]
fn attack_strikes_and_is_struck_back() {
    let mut b = battle(&[SOLDIER], &[GIANT]);
    let outcome = b.attack_unit(A, 0, 0).unwrap();
    assert_eq!(outcome.dead_target_unit_id, None);
    assert_eq!(outcome.dead_attacker_unit_id, Some(SOLDIER));
    assert!(outcome.countered);
    assert_eq!(b.second.field.units[0].health_point, 35);
    assert!(b.second.field.units[0].alive);
    assert_eq!(b.first.field.units[0].health_point, 0);
    assert!(!b.first.field.units[0].alive);
    assert!(b.first.field.units[0].turn_action_used);
    assert_eq!(b.first.tomb.cards, vec![SOLDIER]);
    assert!(b.second.tomb.cards.is_empty());
    assert!(every_unit_is_consistent(&b));
}

#[test]
fn attack_that_kills_both_buries_both() {
    let mut b = battle(&[GIANT], &[GIANT]);
    b.first.field.units[0].health_point = 30;
    b.second.field.units[0].health_point = 30;
    let outcome = b.attack_unit(A, 0, 0).unwrap();
    assert_eq!(outcome.dead_target_unit_id, Some(GIANT));
    assert_eq!(outcome.dead_attacker_unit_id, Some(GIANT));
    assert_eq!(b.first.tomb.count_of(GIANT), 1);
    assert_eq!(b.second.tomb.count_of(GIANT), 1);
    assert!(every_unit_is_consistent(&b));
}

#[test]
fn attack_leaves_survivors_with_exact_health() {
    let mut b = battle(&[SOLDIER], &[SOLDIER]);
    let outcome = b.attack_unit(A, 0, 0).unwrap();
    assert_eq!(outcome.dead_target_unit_id, None);
    assert_eq!(outcome.dead_attacker_unit_id, None);
    assert_eq!(b.first.field.units[0].health_point, 15);
    assert_eq!(b.second.field.units[0].health_point, 15);
    assert!(b.first.field.units[0].turn_action_used);
    assert!(!b.second.field.units[0].turn_action_used);
    assert!(b.first.tomb.cards.is_empty());
    assert!(b.second.tomb.cards.is_empty());
}

#[test]
fn attack_carries_extra_effects_both_ways() {
    let mut b = battle(&[SOLDIER], &[SOLDIER]);
    let burn = ExtraStatusEffect::new(ExtraEffect::DarkFire, 2, 3, 0);
    let chill = ExtraStatusEffect::new(ExtraEffect::Freeze, 1, 0, 0);
    b.first.field.units[0].extra_status_effect_list = vec![burn];
    b.second.field.units[0].extra_status_effect_list = vec![chill];
    b.attack_unit(A, 0, 0).unwrap();
    assert_eq!(b.second.field.units[0].harmful_status_list, vec![burn]);
    assert_eq!(b.first.field.units[0].harmful_status_list, vec![chill]);
    assert_eq!(b.second.field.units[0].extra_status_effect_list, vec![chill]);
}

#[test]
fn attack_on_immune_unit_fails_and_changes_nothing() {
    let mut b = battle(&[GIANT], &[GHOST]);
    assert_eq!(b.attack_unit(A, 0, 0).unwrap_err(), ActionError::RuleViolation);
    assert_eq!(b.second.field.units[0].health_point, 10);
    assert!(b.second.field.units[0].alive);
    assert_eq!(b.first.field.units[0].health_point, 40);
    assert!(!b.first.field.units[0].turn_action_used);
    assert!(b.second.tomb.cards.is_empty());
    assert!(b.second.field.units[0].harmful_status_list.is_empty());
}

#[test]
fn immune_attacker_is_not_struck_back() {
    let mut b = battle(&[GHOST], &[GIANT]);
    let outcome = b.attack_unit(A, 0, 0).unwrap();
    assert!(!outcome.countered);
    assert_eq!(outcome.dead_attacker_unit_id, None);
    assert_eq!(outcome.dead_target_unit_id, None);
    assert_eq!(b.first.field.units[0].health_point, 10);
    assert!(b.first.field.units[0].turn_action_used);
    assert_eq!(b.second.field.units[0].health_point, 36);
}

#[test]
fn immune_attacker_still_kills_and_buries_its_target() {
    let mut b = battle(&[GHOST], &[WISP]);
    let outcome = b.attack_unit(A, 0, 0).unwrap();
    assert_eq!(outcome.dead_target_unit_id, Some(WISP));
    assert_eq!(outcome.dead_attacker_unit_id, None);
    assert!(!b.second.field.units[0].alive);
    assert_eq!(b.second.field.units[0].health_point, 0);
    assert_eq!(b.second.tomb.cards, vec![WISP]);
    assert_eq!(b.first.field.units[0].health_point, 10);
    assert!(b.first.tomb.cards.is_empty());
    assert!(every_unit_is_consistent(&b));
}

#[test]
fn unit_attacks_once_a_turn() {
    let mut b = battle(&[SOLDIER], &[GIANT, GIANT]);
    b.first.field.units[0].health_point = 100;
    assert!(b.attack_unit(A, 0, 0).is_ok());
    assert_eq!(b.attack_unit(A, 0, 1).unwrap_err(), ActionError::RuleViolation);
    assert_eq!(b.second.field.units[1].health_point, 40);
    assert_eq!(b.first.field.units[0].health_point, 70);
}

#[test]
fn attack_out_of_turn_is_rule_violation() {
    let mut b = battle(&[SOLDIER], &[SOLDIER]);
    assert_eq!(b.attack_unit(B, 0, 0).unwrap_err(), ActionError::RuleViolation);
    assert_eq!(b.first.field.units[0].health_point, 20);
}

#[test]
fn attack_without_energy_is_rule_violation() {
    let mut b = battle(&[COSTLY], &[SOLDIER]);
    b.first.energy.count = 1;
    assert!(!b.can_basic_attack(A, 0, 2));
    assert_eq!(b.attack_unit(A, 0, 0).unwrap_err(), ActionError::RuleViolation);
    b.first.energy.count = 2;
    assert!(b.can_basic_attack(A, 0, 2));
    assert!(b.attack_unit(A, 0, 0).is_ok());
    assert_eq!(b.first.energy.count, 2);
}

#[test]
fn attack_with_or_on_missing_unit_is_not_found() {
    let mut b = battle(&[SOLDIER], &[SOLDIER]);
    assert_eq!(b.attack_unit(A, 1, 0).unwrap_err(), ActionError::NotFound);
    assert_eq!(b.attack_unit(A, -1, 0).unwrap_err(), ActionError::NotFound);
    assert_eq!(b.attack_unit(A, 0, 1).unwrap_err(), ActionError::NotFound);
    assert_eq!(b.attack_unit(A, 0, -1).unwrap_err(), ActionError::NotFound);
    assert!(!b.first.field.units[0].turn_action_used);
}

#[test]
fn attack_on_dead_unit_is_not_found() {
    let mut b = battle(&[SOLDIER], &[WISP]);
    assert_eq!(b.second.hit_unit(0, 3), Some(WISP));
    assert_eq!(b.attack_unit(A, 0, 0).unwrap_err(), ActionError::NotFound);
    assert_eq!(b.second.tomb.count_of(WISP), 1);
}

#[test]
fn attack_by_stranger_is_authentication_failure() {
    let mut b = battle(&[SOLDIER], &[SOLDIER]);
    assert_eq!(b.attack_unit(9, 0, 0).unwrap_err(), ActionError::AuthenticationFailure);
    assert_eq!(b.attack_unit(-1, 0, 0).unwrap_err(), ActionError::AuthenticationFailure);
}

#[test]
fn can_basic_attack_says_why_not() {
    let mut b = battle(&[SOLDIER], &[SOLDIER]);
    assert!(b.can_basic_attack(A, 0, 0));
    assert!(!b.can_basic_attack(A, 0, 1));
    assert!(!b.can_basic_attack(A, 1, 0));
    assert!(!b.can_basic_attack(B, 0, 0));
    assert!(!b.can_basic_attack(5, 0, 0));
    b.first.field.units[0].turn_action_used = true;
    assert!(!b.can_basic_attack(A, 0, 0));
}

#[test]
fn death_is_judged_once() {
    let mut b = battle(&[], &[WISP]);
    b.second.field.units[0].health_point = 0;
    assert_eq!(b.second.field.judge_death_of_unit(0), Some(WISP));
    assert!(!b.second.field.units[0].alive);
    assert_eq!(b.second.field.judge_death_of_unit(0), None);
    assert_eq!(b.second.field.judge_death_of_unit(0), None);
    assert!(!b.second.field.units[0].alive);
    assert_eq!(b.second.field.judge_death_of_unit(7), None);
    assert_eq!(b.second.field.judge_death_of_unit(-1), None);
}

#[test]
fn death_judgment_spares_the_living() {
    let mut b = battle(&[], &[WISP]);
    assert_eq!(b.second.field.judge_death_of_unit(0), None);
    assert!(b.second.field.units[0].alive);
    assert_eq!(b.second.field.units[0].judge_death(), None);
    assert!(b.second.field.units[0].alive);
}

#[test]
fn dead_unit_lies_in_tomb_exactly_once() {
    let mut b = battle(&[], &[WISP, WISP]);
    assert_eq!(b.second.hit_unit(0, 10), Some(WISP));
    assert_eq!(b.second.tomb.count_of(WISP), 1);
    let again = b.second.field.judge_death_of_every_unit();
    assert!(again.is_empty());
    b.second.tomb.add_dead_unit_list_to_tomb(&again);
    assert_eq!(b.second.tomb.count_of(WISP), 1);
    assert!(b.second.field.units[1].alive);
}

#[test]
fn hit_unit_takes_exact_damage() {
    let mut b = battle(&[], &[SOLDIER]);
    assert_eq!(b.second.hit_unit(0, 7), None);
    assert_eq!(b.second.field.units[0].health_point, 13);
    assert_eq!(b.second.hit_unit(0, 0), None);
    assert_eq!(b.second.hit_unit(0, -5), None);
    assert_eq!(b.second.field.units[0].health_point, 13);
    assert_eq!(b.second.hit_unit(0, 13), Some(SOLDIER));
    assert_eq!(b.second.field.units[0].health_point, 0);
    assert!(!b.second.field.units[0].alive);
}

#[test]
fn slay_unit_kills_at_once() {
    let mut b = battle(&[], &[GIANT]);
    assert_eq!(b.second.slay_unit(0), Some(GIANT));
    assert_eq!(b.second.field.units[0].health_point, 0);
    assert!(!b.second.field.units[0].alive);
    assert_eq!(b.second.tomb.cards, vec![GIANT]);
}

#[test]
fn main_character_loses_attack_points() {
    let mut b = battle(&[SOLDIER], &[]);
    assert_eq!(b.attack_main_character(A, 0).unwrap(), StatusMainCharacterEnum::Survival);
    assert_eq!(b.second.main_character.health_point, 25);
    assert_eq!(b.second.main_character.status, StatusMainCharacterEnum::Survival);
    assert_eq!(b.first.main_character.health_point, 30);
    assert_eq!(b.first.field.units[0].health_point, 20);
    assert!(b.first.field.units[0].turn_action_used);
}

#[test]
fn unit_attacks_main_character_once_a_turn() {
    let mut b = battle(&[SOLDIER, SOLDIER], &[SOLDIER]);
    assert!(b.attack_main_character(A, 0).is_ok());
    assert_eq!(b.attack_main_character(A, 0).unwrap_err(), ActionError::RuleViolation);
    assert_eq!(b.attack_unit(A, 0, 0).unwrap_err(), ActionError::RuleViolation);
    assert_eq!(b.second.main_character.health_point, 25);
    assert!(b.attack_main_character(A, 1).is_ok());
    assert_eq!(b.second.main_character.health_point, 20);
}

#[test]
fn main_character_falls_when_health_runs_out() {
    let mut b = battle(&[GIANT], &[]);
    assert_eq!(b.attack_main_character(A, 0).unwrap(), StatusMainCharacterEnum::Death);
    assert_eq!(b.second.main_character.health_point, 0);
    assert_eq!(b.second.main_character.status, StatusMainCharacterEnum::Death);
}

#[test]
fn main_character_attack_is_gated_like_unit_attack() {
    let mut b = battle(&[COSTLY], &[SOLDIER]);
    assert_eq!(b.attack_main_character(B, 0).unwrap_err(), ActionError::RuleViolation);
    assert_eq!(b.attack_main_character(7, 0).unwrap_err(), ActionError::AuthenticationFailure);
    assert_eq!(b.attack_main_character(A, 3).unwrap_err(), ActionError::NotFound);
    assert_eq!(b.attack_main_character(A, 0).unwrap_err(), ActionError::RuleViolation);
    b.first.energy.count = 5;
    b.first.field.units[0].turn_action_used = true;
    assert_eq!(b.attack_main_character(A, 0).unwrap_err(), ActionError::RuleViolation);
    assert_eq!(b.second.main_character.health_point, 30);
    b.first.field.units[0].turn_action_used = false;
    assert!(b.attack_main_character(A, 0).is_ok());
    assert_eq!(b.second.main_character.health_point, 25);
}
