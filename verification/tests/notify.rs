use card_battle::battle::{Battle, PlayerState};
use card_battle::card::{
    CardCatalog, CardEntry, CardKind, ExtraEffect, ExtraStatusEffect, GradeEnum, RaceEnum, RequiredEnergy, UnitStats,
};
use card_battle::notify_player_action_info::{used_hand_card, UsedHandCard};
use card_battle::ui_data::{
    harmful_status_info_of, health_point_info_of, PlayerIndex, PlayerIndexMap,
};
use card_battle::unit::AttachedEnergy;

const A: i32 = 1;
const B: i32 = 2;
const SOLDIER: i32 = 10;
const WISP: i32 = 11;
const POTION: i32 = 90;

fn unit(card_id: i32, health: i32) -> CardEntry {
    CardEntry {
        card_id,
        kind: CardKind::Unit,
        stats: Some(UnitStats {
            race: RaceEnum::Human,
            grade: GradeEnum::Common,
            attack_point: 5,
            health_point: health,
            required_energy: RequiredEnergy { basic_attack: 0, first_skill: 0, second_skill: 0, third_skill: 0 },
            has_first_passive_skill: false,
            has_second_passive_skill: false,
            has_third_passive_skill: false,
            passive_status_list: vec![],
        }),
        passive_skills: vec![],
    }
}

fn catalog() -> CardCatalog {
    CardCatalog::new(vec![
        unit(SOLDIER, 20),
        unit(WISP, 3),
        CardEntry { card_id: POTION, kind: CardKind::Item, stats: None, passive_skills: vec![] },
    ])
}

fn battle(field_a: &[i32], field_b: &[i32]) -> Battle {
    let catalog = catalog();
    let mut b = Battle::new(
        PlayerState::new(A, field_a.to_vec(), vec![], 30),
        PlayerState::new(B, field_b.to_vec(), vec![], 30),
    )
    .unwrap();
    for card in field_a {
        b.deploy_unit(&catalog, A, *card).unwrap();
    }
    for card in field_b {
        b.deploy_unit(&catalog, B, *card).unwrap();
    }
    b
}

#[test]
fn diff_after_attack_holds_both_touched_units_and_no_other() {
    let mut b = battle(&[SOLDIER, SOLDIER], &[SOLDIER, WISP, SOLDIER]);
    b.first.field.units[0].extra_status_effect_list = vec![ExtraStatusEffect::new(ExtraEffect::DarkFire, 2, 1, 0)];
    let outcome = b.attack_unit(A, 0, 1).unwrap();
    assert_eq!(outcome.dead_target_unit_id, Some(WISP));
    let diff = b.attack_notification_diff(A, 0, 1, outcome.countered);
    let yours = diff.player_field_unit_health_point_map.get(PlayerIndex::You).unwrap();
    assert_eq!(yours.len(), 1);
    assert_eq!(yours.get_health_point(1), Some(0));
    let theirs = diff.player_field_unit_health_point_map.get(PlayerIndex::Opponent).unwrap();
    assert_eq!(theirs.len(), 1);
    assert_eq!(theirs.get_health_point(0), Some(15));
    assert_eq!(diff.player_field_unit_death_map.get(PlayerIndex::You).unwrap().dead_field_unit_index_list, vec![1]);
    assert!(diff.player_field_unit_death_map.get(PlayerIndex::Opponent).unwrap().dead_field_unit_index_list.is_empty());
    let harmful = diff.player_field_unit_harmful_effect_map.get(PlayerIndex::You).unwrap();
    assert_eq!(harmful.field_unit_harmful_status_map.get(&1), Some(&vec![ExtraEffect::DarkFire]));
    assert_eq!(harmful.len(), 1);
}

#[test]
fn diff_after_attack_without_counter_holds_the_target_alone() {
    let b = battle(&[SOLDIER], &[SOLDIER]);
    let diff = b.attack_notification_diff(A, 0, 0, false);
    assert_eq!(diff.player_field_unit_health_point_map.len(), 1);
    assert!(diff.player_field_unit_health_point_map.get(PlayerIndex::Opponent).is_none());
    assert_eq!(diff.player_field_unit_health_point_map.get(PlayerIndex::You).unwrap().get_health_point(0), Some(20));
    let general = b.notification_diff(A, &vec![0], &vec![0]);
    assert_eq!(general.player_field_unit_health_point_map.len(), 2);
}

#[test]
fn diff_of_nothing_touched_is_empty() {
    let b = battle(&[SOLDIER], &[SOLDIER]);
    let diff = b.notification_diff(A, &vec![], &vec![]);
    assert_eq!(diff.player_field_unit_health_point_map.len(), 0);
    assert_eq!(diff.player_field_unit_harmful_effect_map.len(), 0);
    assert_eq!(diff.player_field_unit_death_map.len(), 0);
    let stranger = b.notification_diff(9, &vec![0], &vec![0]);
    assert_eq!(stranger.player_field_unit_health_point_map.len(), 0);
}

#[test]
fn diff_passes_over_indices_that_name_no_slot() {
    let b = battle(&[SOLDIER], &[SOLDIER]);
    let diff = b.notification_diff(B, &vec![0, 4, -1, 0], &vec![7]);
    let own = diff.player_field_unit_health_point_map.get(PlayerIndex::Opponent).unwrap();
    assert_eq!(own.len(), 1);
    assert_eq!(own.get_health_point(0), Some(20));
    let other = diff.player_field_unit_health_point_map.get(PlayerIndex::You).unwrap();
    assert_eq!(other.len(), 0);
}

#[test]
fn later_pair_replaces_earlier_pair_for_an_index() {
    let info = health_point_info_of(&vec![(1, 5), (2, 6), (1, 7)]);
    assert_eq!(info.len(), 2);
    assert_eq!(info.get_health_point(1), Some(7));
    assert_eq!(info.get_health_point(2), Some(6));
    let harmful = harmful_status_info_of(&vec![(3, vec![ExtraEffect::Freeze]), (3, vec![])]);
    assert_eq!(harmful.len(), 1);
    assert_eq!(harmful.field_unit_harmful_status_map.get(&3), Some(&vec![]));
}

#[test]
fn player_index_map_keeps_one_value_a_side() {
    let mut map: PlayerIndexMap<i32> = PlayerIndexMap::new();
    assert_eq!(map.len(), 0);
    assert_eq!(map.get(PlayerIndex::You), None);
    map.insert(PlayerIndex::You, 4);
    map.insert(PlayerIndex::You, 5);
    assert_eq!(map.len(), 1);
    assert_eq!(map.get(PlayerIndex::You), Some(&5));
    assert_eq!(map.get(PlayerIndex::Opponent), None);
    map.insert(PlayerIndex::Opponent, 6);
    assert_eq!(map.len(), 2);
    let single = PlayerIndexMap::single(PlayerIndex::Opponent, 9);
    assert_eq!(single.get(PlayerIndex::Opponent), Some(&9));
    assert_eq!(single.len(), 1);
}

#[test]
fn used_hand_card_carries_its_kind() {
    let catalog = catalog();
    assert_eq!(used_hand_card(&catalog, POTION), UsedHandCard { card_id: POTION, kind: CardKind::Item });
    assert_eq!(used_hand_card(&catalog, 555), UsedHandCard { card_id: 555, kind: CardKind::Dummy });
}

#[test]
fn notice_of_damage_to_one_unit_tells_that_unit_alone() {
    let catalog = catalog();
    let mut b = battle(&[SOLDIER], &[SOLDIER, WISP]);
    b.second.hit_unit(1, 3);
    let notice = b.notice_apply_damage_to_specific_unit_by_using_hand_card(&catalog, A, POTION, 1).unwrap();
    assert_eq!(notice.opponent_unique_id, B);
    assert_eq!(notice.used_hand_card, UsedHandCard { card_id: POTION, kind: CardKind::Item });
    assert_eq!(notice.field_unit_health_point_info.len(), 1);
    assert_eq!(notice.field_unit_health_point_info.get_health_point(1), Some(0));
    assert_eq!(notice.field_unit_survival_info.field_unit_survival_map.len(), 1);
    assert_eq!(notice.field_unit_survival_info.field_unit_survival_map.get(&1), Some(&false));
    assert!(b.notice_apply_damage_to_specific_unit_by_using_hand_card(&catalog, A, POTION, 2).is_none());
    assert!(b.notice_apply_damage_to_specific_unit_by_using_hand_card(&catalog, A, POTION, -1).is_none());
    assert!(b.notice_apply_damage_to_specific_unit_by_using_hand_card(&catalog, 7, POTION, 0).is_none());
}

#[test]
fn notice_of_damage_to_every_unit_tells_the_whole_field_of_the_opponent() {
    let catalog = catalog();
    let mut b = battle(&[SOLDIER], &[SOLDIER, WISP, SOLDIER]);
    b.second.sweep(3, &vec![], false);
    let notice = b.notice_apply_damage_to_every_unit_by_using_hand_card(&catalog, A, POTION).unwrap();
    assert_eq!(notice.opponent_unique_id, B);
    assert_eq!(notice.field_unit_health_point_info.len(), 3);
    assert_eq!(notice.field_unit_health_point_info.get_health_point(0), Some(17));
    assert_eq!(notice.field_unit_health_point_info.get_health_point(1), Some(0));
    assert_eq!(notice.field_unit_health_point_info.get_health_point(2), Some(17));
    let survival = &notice.field_unit_survival_info.field_unit_survival_map;
    assert_eq!(survival.len(), 3);
    assert_eq!(survival.get(&0), Some(&true));
    assert_eq!(survival.get(&1), Some(&false));
    assert_eq!(survival.get(&2), Some(&true));
    let other = b.notice_apply_damage_to_every_unit_by_using_hand_card(&catalog, B, POTION).unwrap();
    assert_eq!(other.opponent_unique_id, A);
    assert_eq!(other.field_unit_health_point_info.len(), 1);
    assert!(b.notice_apply_damage_to_every_unit_by_using_hand_card(&catalog, 7, POTION).is_none());
}

#[test]
fn notice_of_instant_death_marks_the_unit_dead() {
    let catalog = catalog();
    let b = battle(&[SOLDIER], &[SOLDIER]);
    let notice = b.notice_instant_death_of_specific_unit_by_using_hand_card(&catalog, A, POTION, 0).unwrap();
    assert_eq!(notice.opponent_unique_id, B);
    assert_eq!(notice.field_unit_survival_info.field_unit_survival_map.len(), 1);
    assert_eq!(notice.field_unit_survival_info.field_unit_survival_map.get(&0), Some(&false));
    assert!(b.notice_instant_death_of_specific_unit_by_using_hand_card(&catalog, 5, POTION, 0).is_none());
}

#[test]
fn notice_of_energy_tells_what_is_attached_to_the_unit() {
    let catalog = catalog();
    let mut b = battle(&[SOLDIER, SOLDIER], &[SOLDIER]);
    let attached = vec![AttachedEnergy { race: RaceEnum::Undead, quantity: 2 }];
    b.first.field.units[1].attached_energy_list = attached.clone();
    b.second.field.units[0].attached_energy_list = vec![AttachedEnergy { race: RaceEnum::Human, quantity: 1 }];
    let boost = b
        .notice_boost_energy_to_specific_unit_by_using_hand_card(&catalog, A, POTION, vec![93, 93], 1)
        .unwrap();
    assert_eq!(boost.opponent_unique_id, B);
    assert_eq!(boost.found_energy_card_id_list, vec![93, 93]);
    assert_eq!(boost.field_unit_energy_info.field_unit_energy_map.len(), 1);
    assert_eq!(boost.field_unit_energy_info.field_unit_energy_map.get(&1), Some(&attached));
    let attach = b.notice_attach_energy_to_specific_unit_by_using_hand_card(&catalog, A, POTION, 0).unwrap();
    assert_eq!(attach.field_unit_energy_info.field_unit_energy_map.get(&0), Some(&vec![]));
    assert!(attach.found_energy_card_id_list.is_empty());
    let remove = b.notice_remove_energy_of_specific_unit_by_using_hand_card(&catalog, A, POTION, 0).unwrap();
    assert_eq!(remove.opponent_unique_id, B);
    assert_eq!(
        remove.field_unit_energy_info.field_unit_energy_map.get(&0),
        Some(&vec![AttachedEnergy { race: RaceEnum::Human, quantity: 1 }])
    );
    assert!(b.notice_boost_energy_to_specific_unit_by_using_hand_card(&catalog, A, POTION, vec![], 2).is_none());
    assert!(b.notice_attach_energy_to_specific_unit_by_using_hand_card(&catalog, 8, POTION, 0).is_none());
    assert!(b.notice_remove_energy_of_specific_unit_by_using_hand_card(&catalog, A, POTION, 1).is_none());
}

#[test]
fn notice_of_cards_and_field_energy() {
    let catalog = catalog();
    let mut b = battle(&[], &[]);
    b.second.energy.count = 4;
    let drawn = b.notice_draw_card_by_using_hand_card(&catalog, A, POTION, vec![5, 6]).unwrap();
    assert_eq!((drawn.opponent_unique_id, drawn.card_list.clone()), (B, vec![5, 6]));
    assert_eq!(drawn.used_hand_card.kind, CardKind::Item);
    let found = b.notice_search_card_by_using_hand_card(&catalog, B, POTION, vec![7]).unwrap();
    assert_eq!((found.opponent_unique_id, found.card_list.clone()), (A, vec![7]));
    let energy = b.notice_remove_field_energy_by_using_hand_card(&catalog, A, POTION).unwrap();
    assert_eq!(energy.opponent_unique_id, B);
    assert_eq!(energy.remaining_field_energy, 4);
    assert!(b.notice_draw_card_by_using_hand_card(&catalog, 3, POTION, vec![]).is_none());
    assert!(b.notice_search_card_by_using_hand_card(&catalog, 3, POTION, vec![]).is_none());
    assert!(b.notice_remove_field_energy_by_using_hand_card(&catalog, 3, POTION).is_none());
}
