use card_battle::battle::{Battle, PlayerState};
use card_battle::card::{
    CardCatalog, CardEntry, CardKind, ExtraEffect, ExtraStatusEffect, GradeEnum, PassiveSkill,
    PassiveSkillCastingCondition, PassiveSkillEffect, RaceEnum, RequiredEnergy, UnitStats,
};
use card_battle::mulligan_request_form::MulliganRequestForm;
use card_battle::turn_end_request_form::TurnEndRequestForm;

const A: i32 = 1;
const B: i32 = 2;

fn unit(card_id: i32, attack: i32, health: i32, skills: Vec<PassiveSkill>) -> CardEntry {
    CardEntry {
        card_id,
        kind: CardKind::Unit,
        stats: Some(UnitStats {
            race: RaceEnum::Machine,
            grade: GradeEnum::Common,
            attack_point: attack,
            health_point: health,
            required_energy: RequiredEnergy { basic_attack: 0, first_skill: 1, second_skill: 0, third_skill: 0 },
            has_first_passive_skill: true,
            has_second_passive_skill: false,
            has_third_passive_skill: false,
            passive_status_list: vec![],
        }),
        passive_skills: skills,
    }
}

fn catalog() -> CardCatalog {
    CardCatalog::new(vec![
        unit(10, 6, 10, vec![]),
        unit(11, 3, 4, vec![]),
        unit(
            12,
            2,
            8,
            vec![PassiveSkill {
                casting_conditions: vec![PassiveSkillCastingCondition::TurnStart],
                effect: PassiveSkillEffect::CatastrophicDamage { damage: 4 },
            }],
        ),
    ])
}

fn cards_of(player: &PlayerState) -> Vec<i32> {
    let mut cards: Vec<i32> = Vec::new();
    cards.extend(player.hand.cards.iter());
    cards.extend(player.deck.cards.iter());
    cards.extend(player.tomb.cards.iter());
    cards.extend(player.field.units.iter().filter(|unit| unit.alive).map(|unit| unit.card_id));
    cards.sort();
    cards
}

#[test]
fn no_card_is_lost_and_none_is_made() {
    let catalog = catalog();
    let turn_end = TurnEndRequestForm::new("s".to_string());
    let mut b = Battle::new(
        PlayerState::new(A, vec![10, 11, 12, 11], vec![10, 12, 11], 30),
        PlayerState::new(B, vec![11, 10, 11], vec![12, 12, 10], 30),
    )
    .unwrap();
    let cards_a = cards_of(&b.first);
    let cards_b = cards_of(&b.second);
    let check = |b: &Battle| {
        assert_eq!(cards_of(&b.first), cards_a);
        assert_eq!(cards_of(&b.second), cards_b);
        assert!(b.is_well_formed());
    };

    let form = MulliganRequestForm::new("s".to_string(), vec!["11".to_string(), "11".to_string()]);
    b.execute_mulligan_procedure(&form, A).unwrap();
    check(&b);
    b.deploy_unit(&catalog, A, 10).unwrap();
    b.deploy_unit(&catalog, A, 12).unwrap();
    check(&b);
    b.deploy_unit(&catalog, B, 11).unwrap();
    b.deploy_unit(&catalog, B, 10).unwrap();
    b.deploy_unit(&catalog, B, 11).unwrap();
    check(&b);
    assert_eq!(b.attack_unit(A, 0, 0).unwrap().dead_target_unit_id, Some(11));
    check(&b);
    b.first.field.units[0].extra_status_effect_list = vec![ExtraStatusEffect::new(ExtraEffect::DarkFire, 3, 2, 0)];
    b.request_turn_end(&turn_end, A).unwrap();
    check(&b);
    b.attack_unit(B, 1, 0).unwrap();
    check(&b);
    b.attack_main_character(B, 2).unwrap();
    check(&b);
    b.request_turn_end(&turn_end, B).unwrap();
    check(&b);
    let outcome = b.use_passive_skill(&catalog, A, 1, 1, None).unwrap();
    assert!(!outcome.dead_unit_list.is_empty());
    check(&b);
    b.deploy_unit(&catalog, B, 12).unwrap();
    check(&b);
    b.request_turn_end(&turn_end, A).unwrap();
    b.request_turn_end(&turn_end, B).unwrap();
    check(&b);
    assert!(!b.first.tomb.cards.is_empty() || !b.second.tomb.cards.is_empty());
}
