use std::collections::HashMap;

use card_battle::account::{account_login, is_login_granted, login_response, StoredAccount};
use card_battle::card::{ExtraEffect, ExtraStatusEffect, PassiveSkillCastingCondition, RaceEnum};
use card_battle::deploy_non_targeting_attack_passive_skill_request_form::DeployNonTargetingAttackPassiveSkillRequestForm;
use card_battle::dispatch::{select_service, service_for_protocol_number, ServiceCall};
use card_battle::response::{
    FalseMessage, GameDeckCardListResponse, GenerateSearchMyDeckDataResponse, GenerateUseMyHandCardDataResponse,
};
use card_battle::search_unit_support_response_form::SearchUnitSupportResponseForm;
use card_battle::session::{account_of_parsed, is_valid_session, vector_string_to_vector_i32};
use card_battle::ui_data::{
    FieldUnitDeathInfo, FieldUnitHarmfulStatusInfo, FieldUnitHealthPointInfo, PlayerIndex, PlayerIndexMap,
};

fn form() -> DeployNonTargetingAttackPassiveSkillRequestForm {
    DeployNonTargetingAttackPassiveSkillRequestForm::new("sid".to_string(), "3".to_string(), "2".to_string())
}

#[test]
fn passive_skill_form_keeps_what_it_was_given() {
    let form = form();
    assert_eq!(form.get_session_id(), "sid");
    assert_eq!(form.get_unit_card_index(), "3");
    assert_eq!(form.get_usage_skill_index(), "2");
    assert_eq!(form.to_session_validation_request().key, "sid");
}

#[test]
fn passive_skill_form_makes_requests_about_accounts_and_units() {
    let form = form();
    assert_eq!(form.to_is_this_your_turn_request(7).account_unique_id, 7);
    let action = form.to_execute_turn_action_request(7, 2);
    assert_eq!((action.account_unique_id, action.unit_card_index), (7, 2));
    let usage = form.to_find_passive_skill_usage_unit_id_by_index_request(7, 2);
    assert_eq!((usage.account_unique_id, usage.unit_card_index), (7, 2));
    let target = form.to_find_target_unit_id_by_index_request(8, 1);
    assert_eq!((target.account_unique_id, target.unit_card_index), (8, 1));
    let found = form.to_find_unit_id_by_index_request(8, 4);
    assert_eq!((found.account_unique_id, found.unit_card_index), (8, 4));
    let passive = form.to_execute_index_passive_of_unit_request(7, 2, 3);
    assert_eq!((passive.account_unique_id, passive.unit_card_index, passive.passive_skill_index), (7, 2, 3));
    let summary = form.to_summary_passive_skill_effect_by_index_request(55, 3);
    assert_eq!((summary.unit_card_id, summary.usage_skill_index), (55, 3));
    assert_eq!(form.to_summary_deploy_passive_skill_effect_request(55).unit_card_id, 55);
    assert_eq!(form.to_find_opponent_by_account_id_request(7).account_unique_id, 7);
    let extra = form.to_acquire_unit_extra_effect_request(7, 2);
    assert_eq!((extra.account_unique_id, extra.unit_index), (7, 2));
    let usable = form.to_get_passive_skill_usable_list_request(7, 2);
    assert_eq!((usable.account_unique_id, usable.unit_index), (7, 2));
    assert_eq!(form.to_acquire_harmful_status_effect_of_all_unit_request(8).account_unique_id, 8);
    assert_eq!(form.to_get_current_health_point_of_all_field_unit_request(8).account_unique_id, 8);
    assert_eq!(form.to_judge_death_of_every_unit_request(8).account_unique_id, 8);
    let harmful = form.to_acquire_unit_harmful_status_effect_request(8, 1);
    assert_eq!((harmful.account_unique_id, harmful.unit_index), (8, 1));
    let tomb = form.to_place_dead_unit_to_tomb_request(8, 31);
    assert_eq!((tomb.account_unique_id, tomb.used_card_id), (8, 31));
}

#[test]
fn passive_skill_form_makes_requests_about_damage() {
    let form = form();
    let one = form.to_apply_damage_to_target_unit_index_request(8, 1, 15);
    assert_eq!((one.opponent_unique_id, one.opponent_target_unit_index, one.damage), (8, 1, 15));
    let burn = ExtraStatusEffect::new(ExtraEffect::DarkFire, 2, 3, 1);
    let every = form.to_attack_every_unit_with_extra_effect_request(8, 15, vec![burn]);
    assert_eq!((every.opponent_unique_id, every.damage), (8, 15));
    assert_eq!(every.extra_status_effect_list, vec![burn]);
    let all = form.to_apply_catastrophic_damage_to_field_unit_request(8, 99);
    assert_eq!((all.opponent_unique_id, all.damage), (8, 99));
    let dead = form.to_add_dead_unit_list_to_tomb_request(8, vec![4, 5]);
    assert_eq!((dead.account_unique_id, dead.dead_unit_list.clone()), (8, vec![4, 5]));
    let mut energy = HashMap::new();
    energy.insert(RaceEnum::Undead, 2);
    let active = form.to_is_using_active_skill_possible_request(7, 2, energy.clone());
    assert_eq!((active.account_unique_id, active.field_unit_index), (7, 2));
    assert_eq!(active.skill_required_energy_map, energy);
    let conditions = vec![PassiveSkillCastingCondition::Deploy, PassiveSkillCastingCondition::TurnStart];
    let deploy = form.to_is_using_deploy_passive_skill_possible_request(7, 2, 3, conditions.clone());
    assert_eq!((deploy.account_unique_id, deploy.unit_index, deploy.usage_skill_index), (7, 2, 3));
    assert_eq!(deploy.passive_skill_casting_condition, conditions);
}

#[test]
fn passive_skill_form_makes_requests_about_what_is_shown() {
    let form = form();
    let health = form.to_generate_opponent_multiple_unit_health_point_data_request(vec![(0, 5), (2, 0)]);
    assert_eq!(health.opponent_unit_health_point_tuple_list, vec![(0, 5), (2, 0)]);
    let harmful =
        form.to_generate_opponent_multiple_unit_harmful_effect_data_request(vec![(0, vec![ExtraEffect::Freeze])]);
    assert_eq!(harmful.opponent_unit_harmful_effect_tuple_list, vec![(0, vec![ExtraEffect::Freeze])]);
    let death = form.to_generate_opponent_multiple_unit_death_data_request(vec![2]);
    assert_eq!(death.opponent_dead_unit_index_list, vec![2]);

    let mut table = HashMap::new();
    table.insert(2, 0);
    let health_map = PlayerIndexMap::single(PlayerIndex::You, FieldUnitHealthPointInfo::new(table));
    let harmful_map = PlayerIndexMap::single(PlayerIndex::You, FieldUnitHarmfulStatusInfo::new(HashMap::new()));
    let death_map = PlayerIndexMap::single(PlayerIndex::You, FieldUnitDeathInfo::new(vec![2]));
    let notice = form.to_notice_deploy_non_targeting_attack_passive_skill_request(
        8,
        health_map.clone(),
        harmful_map.clone(),
        death_map.clone(),
    );
    assert_eq!(notice.opponent_unique_id, 8);
    assert_eq!(notice.player_field_unit_health_point_map, health_map);
    assert_eq!(notice.player_field_unit_harmful_effect_map, harmful_map);
    assert_eq!(notice.player_field_unit_death_map, death_map);
}

#[test]
fn search_response_form_is_made_of_the_answers() {
    let found = PlayerIndexMap::single(PlayerIndex::You, vec![3, 4]);
    let form = SearchUnitSupportResponseForm::from_response(
        GenerateUseMyHandCardDataResponse { is_success_for_response: true },
        GenerateSearchMyDeckDataResponse { player_search_card_list_map_for_response: found.clone() },
        GameDeckCardListResponse { deck_card_list: vec![9, 8] },
    );
    assert!(form.is_success());
    assert_eq!(form.get_false_message_enum(), -1);
    assert_eq!(form.get_player_search_card_list_map(), &found);
    assert_eq!(form.get_updated_deck_card_list(), &vec![9, 8]);
    let failed = SearchUnitSupportResponseForm::from_response(
        GenerateUseMyHandCardDataResponse { is_success_for_response: false },
        GenerateSearchMyDeckDataResponse { player_search_card_list_map_for_response: PlayerIndexMap::new() },
        GameDeckCardListResponse { deck_card_list: vec![] },
    );
    assert!(!failed.is_success());
}

#[test]
fn search_response_form_new_keeps_its_arguments() {
    let found = PlayerIndexMap::single(PlayerIndex::Opponent, vec![1]);
    let form = SearchUnitSupportResponseForm::new(true, 4, found.clone(), vec![2]);
    assert!(form.is_success());
    assert_eq!(form.get_false_message_enum(), 4);
    assert_eq!(form.get_player_search_card_list_map(), &found);
    assert_eq!(form.get_updated_deck_card_list(), &vec![2]);
}

#[test]
fn search_response_form_failures_are_empty() {
    let form = SearchUnitSupportResponseForm::default();
    assert!(!form.is_success());
    assert_eq!(form.get_false_message_enum(), -1);
    assert_eq!(form.get_player_search_card_list_map().len(), 0);
    assert!(form.get_updated_deck_card_list().is_empty());
    let told = SearchUnitSupportResponseForm::from_false_response_with_message(FalseMessage::NotYourTurn);
    assert!(!told.is_success());
    assert_eq!(told.get_false_message_enum(), 2);
    assert_eq!(told.get_player_search_card_list_map().len(), 0);
    assert!(told.get_updated_deck_card_list().is_empty());
}

#[test]
fn false_messages_are_numbered_in_their_order() {
    assert_eq!(FalseMessage::Dummy.code(), 0);
    assert_eq!(FalseMessage::MythicalCardRoundLimit.code(), 1);
    assert_eq!(FalseMessage::NotYourTurn.code(), 2);
    assert_eq!(FalseMessage::NotEnoughEnergy.code(), 3);
    assert_eq!(FalseMessage::UnitAlreadyActed.code(), 4);
    assert_eq!(FalseMessage::PhysicalImmunity.code(), 5);
}

#[test]
fn session_value_names_an_account_or_none() {
    assert_eq!(is_valid_session("42"), 42);
    assert_eq!(is_valid_session("0"), 0);
    assert_eq!(is_valid_session("-7"), -7);
    assert_eq!(is_valid_session("+5"), 5);
    assert_eq!(is_valid_session(""), -1);
    assert_eq!(is_valid_session("abc"), -1);
    assert_eq!(is_valid_session(" 4"), -1);
    assert_eq!(is_valid_session("4.0"), -1);
    assert_eq!(is_valid_session("2147483647"), i32::MAX);
    assert_eq!(is_valid_session("2147483648"), -1);
    assert_eq!(account_of_parsed(Some(3)), 3);
    assert_eq!(account_of_parsed(None), -1);
}

#[test]
fn texts_are_read_as_numbers_one_by_one() {
    let texts: Vec<String> = ["1", "x", "30", ""].iter().map(|t| t.to_string()).collect();
    assert_eq!(vector_string_to_vector_i32(&texts), vec![1, -1, 30, -1]);
    assert_eq!(vector_string_to_vector_i32(&vec![]), Vec::<i32>::new());
}

#[test]
fn protocol_numbers_stand_for_services() {
    assert_eq!(service_for_protocol_number(Some(1)), Some(ServiceCall::AccountRegister));
    assert_eq!(service_for_protocol_number(Some(2)), Some(ServiceCall::AccountLogin));
    assert_eq!(service_for_protocol_number(Some(3)), Some(ServiceCall::AccountSessionLogin));
    assert_eq!(service_for_protocol_number(Some(12)), Some(ServiceCall::BattleMatch));
    assert_eq!(service_for_protocol_number(Some(4444)), Some(ServiceCall::ClientProgramExit));
    for other in [0, 4, 11, 13, 14, -1, 4443, i64::MAX] {
        assert_eq!(service_for_protocol_number(Some(other)), None);
    }
    assert_eq!(service_for_protocol_number(None), None);
}

fn json(text: &str) -> serde_json::Value {
    serde_json::from_str(text).unwrap()
}

#[test]
fn service_is_selected_by_the_protocol_number_of_the_request() {
    assert_eq!(select_service(&json(r#"{"protocolNumber": 1, "x": 12}"#)), Some(ServiceCall::AccountRegister));
    assert_eq!(select_service(&json(r#"{"protocolNumber": 12}"#)), Some(ServiceCall::BattleMatch));
    assert_eq!(select_service(&json(r#"{"protocolNumber": 2, "userId": "u"}"#)), Some(ServiceCall::AccountLogin));
    assert_eq!(select_service(&json(r#"{"protocolNumber": 13}"#)), None);
    assert_eq!(select_service(&json(r#"{"protocolNumber": "1"}"#)), None);
    assert_eq!(select_service(&json(r#"{"protocolNumber": 1.5}"#)), None);
    assert_eq!(select_service(&json(r#"{"protocol": 1}"#)), None);
    assert_eq!(select_service(&json(r#"[1]"#)), None);
    assert_eq!(select_service(&json(r#"1"#)), None);
    assert_eq!(select_service(&json(r#"{"protocolNumber": 18446744073709551615}"#)), None);
    assert_eq!(select_service(&json(r#"{"protocolNumber": 4444}"#)), Some(ServiceCall::ClientProgramExit));
}

#[test]
fn login_is_granted_to_the_right_password_only() {
    let hash = bcrypt::hash("secret", 4).unwrap();
    let account = StoredAccount { id: 17, user_id: "user".to_string(), password: hash };
    let grant = account_login(Some(&account), "secret").unwrap();
    assert_eq!(grant.account_unique_id, 17);
    assert!(!grant.redis_token.is_empty());
    assert!(account_login(Some(&account), "Secret").is_none());
    assert!(account_login(Some(&account), "").is_none());
    assert!(account_login(None, "secret").is_none());
    let other = account_login(Some(&account), "secret").unwrap();
    assert_ne!(other.redis_token, grant.redis_token);
}

#[test]
fn login_against_a_text_that_is_no_hash_fails() {
    let account = StoredAccount { id: 17, user_id: "user".to_string(), password: "secret".to_string() };
    assert!(account_login(Some(&account), "secret").is_none());
}

#[test]
fn login_judgment_and_answer() {
    assert!(is_login_granted(true, Some(true)));
    assert!(!is_login_granted(true, Some(false)));
    assert!(!is_login_granted(true, None));
    assert!(!is_login_granted(false, Some(true)));
    assert_eq!(login_response(None).redis_token, "");
    let hash = bcrypt::hash("pw", 4).unwrap();
    let account = StoredAccount { id: 1, user_id: "u".to_string(), password: hash };
    let grant = account_login(Some(&account), "pw").unwrap();
    let token = grant.redis_token.clone();
    assert_eq!(login_response(Some(grant)).redis_token, token);
}
