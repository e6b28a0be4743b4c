use card_battle::battle::{ActionError, Battle, PlayerState};
use card_battle::card::{
    CardCatalog, CardEntry, CardKind, ExtraEffect, ExtraStatusEffect, GradeEnum, PassiveSkill,
    PassiveSkillCastingCondition, PassiveSkillEffect, PassiveSkillType, PassiveStatus, RaceEnum, RequiredEnergy,
    UnitStats,
};
use card_battle::deploy_non_targeting_attack_passive_skill_request_form::DeployNonTargetingAttackPassiveSkillRequestForm;
use card_battle::turn_end_request_form::TurnEndRequestForm;
use card_battle::ui_data::PlayerIndex;
use card_battle::validator::casting_conditions_met;

const A: i32 = 1;
const B: i32 = 2;

const MAGE: i32 = 10;
const SOLDIER: i32 = 20;
const GHOST: i32 = 21;
const WISP: i32 = 22;

fn unit(card_id: i32, health: i32, immune: bool, skills: Vec<PassiveSkill>) -> CardEntry {
    CardEntry {
        card_id,
        kind: CardKind::Unit,
        stats: Some(UnitStats {
            race: RaceEnum::Chaos,
            grade: GradeEnum::Legend,
            attack_point: 5,
            health_point: health,
            required_energy: RequiredEnergy { basic_attack: 0, first_skill: 1, second_skill: 2, third_skill: 3 },
            has_first_passive_skill: true,
            has_second_passive_skill: true,
            has_third_passive_skill: true,
            passive_status_list: if immune { vec![PassiveStatus::PhysicalImmunity] } else { vec![] },
        }),
        passive_skills: skills,
    }
}

fn skill(conditions: Vec<PassiveSkillCastingCondition>, effect: PassiveSkillEffect) -> PassiveSkill {
    PassiveSkill { casting_conditions: conditions, effect }
}

fn catalog() -> CardCatalog {
    CardCatalog::new(vec![
        unit(
            MAGE,
            20,
            false,
            vec![
                skill(vec![PassiveSkillCastingCondition::TurnStart], PassiveSkillEffect::TargetDamage { damage: 6 }),
                skill(vec![PassiveSkillCastingCondition::TurnStart], PassiveSkillEffect::NonTargetingDamage { damage: 4 }),
                skill(vec![PassiveSkillCastingCondition::TurnStart], PassiveSkillEffect::CatastrophicDamage { damage: 9 }),
            ],
        ),
        unit(SOLDIER, 20, false, vec![]),
        unit(GHOST, 10, true, vec![]),
        unit(WISP, 3, false, vec![]),
    ])
}

/// A match in round 2, with the mage of A deployed in round 1 and the cards
/// of `field_b` on the field of B; A owns the turn and holds `energy`.
fn battle(field_b: &[i32], energy: i32) -> Battle {
    let catalog = catalog();
    let mut b = Battle::new(
        PlayerState::new(A, vec![MAGE], vec![], 30),
        PlayerState::new(B, field_b.to_vec(), vec![], 30),
    )
    .unwrap();
    b.deploy_unit(&catalog, A, MAGE).unwrap();
    for card in field_b {
        b.deploy_unit(&catalog, B, *card).unwrap();
    }
    let form = TurnEndRequestForm::new("s".to_string());
    b.request_turn_end(&form, A).unwrap();
    b.request_turn_end(&form, B).unwrap();
    assert_eq!(b.turn.round, 2);
    assert_eq!(b.turn.owner, A);
    b.first.energy.count = energy;
    b
}

#[test]
fn casting_conditions_follow_the_round_of_deployment() {
    let (deploy, dummy, turn_start) = (
        PassiveSkillCastingCondition::Deploy,
        PassiveSkillCastingCondition::Dummy,
        PassiveSkillCastingCondition::TurnStart,
    );
    assert!(casting_conditions_met(&vec![], 1, 1));
    assert!(casting_conditions_met(&vec![dummy], 1, 3));
    assert!(casting_conditions_met(&vec![deploy], 2, 2));
    assert!(!casting_conditions_met(&vec![deploy], 1, 2));
    assert!(casting_conditions_met(&vec![turn_start], 1, 2));
    assert!(!casting_conditions_met(&vec![turn_start], 2, 2));
    assert!(!casting_conditions_met(&vec![deploy, turn_start], 2, 2));
    assert!(!casting_conditions_met(&vec![dummy, turn_start, deploy], 1, 2));
}

#[test]
fn can_use_skill_asks_for_turn_energy_action_skill_and_conditions() {
    let (deploy, turn_start) = (PassiveSkillCastingCondition::Deploy, PassiveSkillCastingCondition::TurnStart);
    let mut b = battle(&[SOLDIER], 2);
    assert!(b.can_use_skill(A, 0, 1, &vec![turn_start]));
    assert!(b.can_use_skill(A, 0, 2, &vec![turn_start]));
    assert!(!b.can_use_skill(A, 0, 3, &vec![turn_start]));
    assert!(!b.can_use_skill(A, 0, 1, &vec![deploy]));
    assert!(!b.can_use_skill(A, 0, 0, &vec![]));
    assert!(!b.can_use_skill(A, 0, 4, &vec![]));
    assert!(!b.can_use_skill(A, 1, 1, &vec![]));
    assert!(!b.can_use_skill(B, 0, 1, &vec![]));
    assert!(!b.can_use_skill(9, 0, 1, &vec![]));
    b.first.field.units[0].has_second_passive_skill = false;
    assert!(!b.can_use_skill(A, 0, 2, &vec![turn_start]));
    b.first.field.units[0].turn_action_used = true;
    assert!(!b.can_use_skill(A, 0, 1, &vec![turn_start]));
}

#[test]
fn target_damage_hits_one_unit_and_costs_energy_and_action() {
    let catalog = catalog();
    let mut b = battle(&[SOLDIER, SOLDIER], 5);
    let outcome = b.use_passive_skill(&catalog, A, 0, 1, Some(1)).unwrap();
    assert_eq!(outcome.touched_unit_index_list, vec![1]);
    assert!(outcome.dead_unit_list.is_empty());
    assert_eq!(b.second.field.units[0].health_point, 20);
    assert_eq!(b.second.field.units[1].health_point, 14);
    assert_eq!(b.first.energy.count, 4);
    assert!(b.first.field.units[0].turn_action_used);
    assert_eq!(b.use_passive_skill(&catalog, A, 0, 1, Some(1)).unwrap_err(), ActionError::RuleViolation);
    assert_eq!(b.second.field.units[1].health_point, 14);
}

#[test]
fn target_damage_that_kills_is_told_with_one_health_and_one_death_entry() {
    let catalog = catalog();
    let mut b = battle(&[SOLDIER, WISP, SOLDIER], 5);
    let outcome = b.use_passive_skill(&catalog, A, 0, 1, Some(1)).unwrap();
    assert_eq!(outcome.touched_unit_index_list, vec![1]);
    assert_eq!(outcome.dead_unit_list, vec![WISP]);
    assert_eq!(b.second.tomb.cards, vec![WISP]);
    let diff = b.notification_diff(A, &vec![], &outcome.touched_unit_index_list);
    let health = diff.player_field_unit_health_point_map.get(PlayerIndex::You).unwrap();
    assert_eq!(health.len(), 1);
    assert_eq!(health.get_health_point(1), Some(0));
    assert_eq!(health.get_health_point(0), None);
    assert_eq!(health.get_health_point(2), None);
    let deaths = diff.player_field_unit_death_map.get(PlayerIndex::You).unwrap();
    assert_eq!(deaths.dead_field_unit_index_list, vec![1]);
    assert_eq!(diff.player_field_unit_harmful_effect_map.get(PlayerIndex::You).unwrap().len(), 1);
    assert!(diff.player_field_unit_health_point_map.get(PlayerIndex::Opponent).is_none());
    assert!(diff.player_field_unit_death_map.get(PlayerIndex::Opponent).is_none());
    assert_eq!(diff.player_field_unit_health_point_map.len(), 1);
}

#[test]
fn target_damage_needs_a_target_in_reach() {
    let catalog = catalog();
    let mut b = battle(&[SOLDIER, GHOST], 5);
    assert_eq!(b.use_passive_skill(&catalog, A, 0, 1, None).unwrap_err(), ActionError::NotFound);
    assert_eq!(b.use_passive_skill(&catalog, A, 0, 1, Some(5)).unwrap_err(), ActionError::NotFound);
    assert_eq!(b.use_passive_skill(&catalog, A, 0, 1, Some(1)).unwrap_err(), ActionError::NotFound);
    assert_eq!(b.first.energy.count, 5);
    assert!(!b.first.field.units[0].turn_action_used);
    assert_eq!(b.second.field.units[1].health_point, 10);
}

#[test]
fn non_targeting_damage_spares_immune_units() {
    let catalog = catalog();
    let mut b = battle(&[SOLDIER, GHOST, WISP], 5);
    let burn = ExtraStatusEffect::new(ExtraEffect::DarkFire, 2, 1, 0);
    b.first.field.units[0].extra_status_effect_list = vec![burn];
    let outcome = b.use_passive_skill(&catalog, A, 0, 2, None).unwrap();
    assert_eq!(outcome.touched_unit_index_list, vec![0, 2]);
    assert_eq!(outcome.dead_unit_list, vec![WISP]);
    assert_eq!(b.second.field.units[0].health_point, 16);
    assert_eq!(b.second.field.units[0].harmful_status_list, vec![burn]);
    assert_eq!(b.second.field.units[1].health_point, 10);
    assert!(b.second.field.units[1].harmful_status_list.is_empty());
    assert_eq!(b.second.field.units[2].health_point, 0);
    assert!(!b.second.field.units[2].alive);
    assert_eq!(b.second.tomb.cards, vec![WISP]);
    assert_eq!(b.first.energy.count, 3);
}

#[test]
fn catastrophic_damage_ignores_immunity() {
    let catalog = catalog();
    let mut b = battle(&[SOLDIER, GHOST, WISP], 5);
    b.first.field.units[0].extra_status_effect_list = vec![ExtraStatusEffect::new(ExtraEffect::DarkFire, 2, 1, 0)];
    let outcome = b.use_passive_skill(&catalog, A, 0, 3, None).unwrap();
    assert_eq!(outcome.touched_unit_index_list, vec![0, 1, 2]);
    assert_eq!(outcome.dead_unit_list, vec![WISP]);
    assert_eq!(b.second.field.units[0].health_point, 11);
    assert_eq!(b.second.field.units[1].health_point, 1);
    assert!(b.second.field.units[0].harmful_status_list.is_empty());
    assert_eq!(b.second.field.units[2].health_point, 0);
    assert_eq!(b.first.energy.count, 2);
}

#[test]
fn skill_is_refused_with_the_reason() {
    let catalog = catalog();
    let mut b = battle(&[SOLDIER], 0);
    assert_eq!(b.use_passive_skill(&catalog, 9, 0, 2, None).unwrap_err(), ActionError::AuthenticationFailure);
    assert_eq!(b.use_passive_skill(&catalog, A, 3, 2, None).unwrap_err(), ActionError::NotFound);
    assert_eq!(b.use_passive_skill(&catalog, A, 0, 0, None).unwrap_err(), ActionError::NotFound);
    assert_eq!(b.use_passive_skill(&catalog, A, 0, 4, None).unwrap_err(), ActionError::NotFound);
    assert_eq!(b.use_passive_skill(&catalog, A, 0, 2, None).unwrap_err(), ActionError::RuleViolation);
    assert_eq!(b.use_passive_skill(&catalog, B, 0, 1, None).unwrap_err(), ActionError::NotFound);
    assert_eq!(b.second.field.units[0].health_point, 20);
    assert_eq!(b.first.energy.count, 0);
}

#[test]
fn skill_type_follows_the_effect() {
    assert_eq!(PassiveSkillEffect::TargetDamage { damage: 1 }.get_skill_type(), PassiveSkillType::SingleTarget);
    assert_eq!(PassiveSkillEffect::NonTargetingDamage { damage: 1 }.get_skill_type(), PassiveSkillType::BroadArea);
    assert_eq!(PassiveSkillEffect::CatastrophicDamage { damage: 1 }.get_skill_type(), PassiveSkillType::BroadArea);
    let effect = ExtraStatusEffect::new(ExtraEffect::Freeze, 1, 0, 0);
    assert_eq!(PassiveSkillEffect::AttachExtraEffect { effect }.get_skill_type(), PassiveSkillType::Dummy);
}

fn request(unit: &str, skill: &str) -> DeployNonTargetingAttackPassiveSkillRequestForm {
    DeployNonTargetingAttackPassiveSkillRequestForm::new("sid".to_string(), unit.to_string(), skill.to_string())
}

#[test]
fn request_of_non_targeting_skill_returns_notice_for_touched_units_only() {
    let catalog = catalog();
    let mut b = battle(&[SOLDIER, GHOST, WISP], 5);
    b.first.field.units[0].extra_status_effect_list = vec![ExtraStatusEffect::new(ExtraEffect::Freeze, 2, 0, 0)];
    let notice = b.deploy_non_targeting_attack_passive_skill(&catalog, &request("0", "2"), A).unwrap();
    assert_eq!(notice.opponent_unique_id, B);
    let health = notice.player_field_unit_health_point_map.get(PlayerIndex::You).unwrap();
    assert_eq!(health.len(), 2);
    assert_eq!(health.get_health_point(0), Some(16));
    assert_eq!(health.get_health_point(1), None);
    assert_eq!(health.get_health_point(2), Some(0));
    let harmful = notice.player_field_unit_harmful_effect_map.get(PlayerIndex::You).unwrap();
    assert_eq!(harmful.len(), 2);
    assert_eq!(harmful.field_unit_harmful_status_map.get(&0), Some(&vec![ExtraEffect::Freeze]));
    assert_eq!(harmful.field_unit_harmful_status_map.get(&1), None);
    let deaths = notice.player_field_unit_death_map.get(PlayerIndex::You).unwrap();
    assert_eq!(deaths.dead_field_unit_index_list, vec![2]);
    assert!(notice.player_field_unit_health_point_map.get(PlayerIndex::Opponent).is_none());
    assert_eq!(b.second.tomb.cards, vec![WISP]);
    assert_eq!(b.first.energy.count, 3);
    assert!(b.first.field.units[0].turn_action_used);
}

#[test]
fn request_of_non_targeting_skill_is_refused_with_the_reason() {
    let catalog = catalog();
    let mut b = battle(&[SOLDIER], 5);
    let refused = |b: &mut Battle, unit: &str, skill: &str, account: i32| {
        b.deploy_non_targeting_attack_passive_skill(&catalog, &request(unit, skill), account).unwrap_err()
    };
    assert_eq!(refused(&mut b, "0", "2", 9), ActionError::AuthenticationFailure);
    assert_eq!(refused(&mut b, "zero", "2", A), ActionError::ProtocolViolation);
    assert_eq!(refused(&mut b, "0", "", A), ActionError::ProtocolViolation);
    assert_eq!(refused(&mut b, "4", "2", A), ActionError::NotFound);
    assert_eq!(refused(&mut b, "0", "7", A), ActionError::NotFound);
    assert_eq!(refused(&mut b, "0", "1", A), ActionError::NotFound);
    assert_eq!(refused(&mut b, "0", "2", B), ActionError::NotFound);
    assert_eq!(b.second.field.units[0].health_point, 20);
    assert_eq!(b.first.energy.count, 5);
    assert!(!b.first.field.units[0].turn_action_used);
    b.first.energy.count = 1;
    assert_eq!(refused(&mut b, "0", "2", A), ActionError::RuleViolation);
}

#[test]
fn request_of_skill_that_aims_at_one_unit_is_rule_violation() {
    let catalog = CardCatalog::new(vec![
        unit(MAGE, 20, false, vec![skill(vec![], PassiveSkillEffect::AttachExtraEffect {
            effect: ExtraStatusEffect::new(ExtraEffect::Freeze, 1, 0, 0),
        })]),
        unit(SOLDIER, 20, false, vec![]),
    ]);
    let mut b = Battle::new(PlayerState::new(A, vec![MAGE], vec![], 30), PlayerState::new(B, vec![], vec![], 30))
        .unwrap();
    b.deploy_unit(&catalog, A, MAGE).unwrap();
    b.first.energy.count = 5;
    let effects_before = b.first.field.units[0].extra_status_effect_list.clone();
    let error = b.deploy_non_targeting_attack_passive_skill(&catalog, &request("0", "1"), A).unwrap_err();
    assert_eq!(error, ActionError::RuleViolation);
    assert_eq!(b.first.field.units[0].extra_status_effect_list, effects_before);
    assert_eq!(b.first.energy.count, 5);
}

#[test]
fn after_skills_every_unit_is_alive_exactly_when_it_has_health() {
    let catalog = catalog();
    let mut b = battle(&[SOLDIER, GHOST, WISP, WISP], 9);
    b.use_passive_skill(&catalog, A, 0, 3, None).unwrap();
    for unit in b.first.field.units.iter().chain(b.second.field.units.iter()) {
        assert_eq!(unit.alive, unit.health_point > 0);
    }
    assert_eq!(b.second.tomb.count_of(WISP), 2);
}
