//! The request to use a passive skill that strikes every unit of the
//! opponent, and the requests it makes of the engine.

use std::collections::HashMap;
use vstd::prelude::*;
use crate::card::{ExtraEffect, ExtraStatusEffect, PassiveSkillCastingCondition, RaceEnum};
use crate::request::{
    AcquireHarmfulStatusEffectOfAllUnitRequest, AcquireUnitExtraEffectRequest,
    AcquireUnitHarmfulStatusEffectRequest, AddDeadUnitListToTombRequest,
    ApplyCatastrophicDamageToFieldUnitRequest, ApplyDamageToTargetUnitIndexRequest,
    AttackEveryUnitWithExtraEffectRequest, ExecuteIndexPassiveOfUnitRequest,
    ExecuteTurnActionRequest, FindActiveSkillUsageUnitIdByIndexRequest,
    FindOpponentByAccountIdRequest, FindTargetUnitIdByIndexRequest,
    GenerateOpponentMultipleUnitDeathDataRequest,
    GenerateOpponentMultipleUnitHarmfulEffectDataRequest,
    GenerateOpponentMultipleUnitHealthPointDataRequest, GetCurrentHealthPointOfAllFieldUnitRequest,
    GetPassiveSkillUsableRequest, GetValueWithKeyRequest, IsThisYourTurnRequest,
    IsUsingActiveSkillPossibleRequest, IsUsingDeployPassiveSkillPossibleRequest,
    JudgeDeathOfEveryUnitRequest, NoticeDeployNonTargetingAttackPassiveSkillRequest,
    PlaceToTombRequest, SummaryDeployPassiveSkillEffectRequest,
    SummaryPassiveSkillEffectByIndexRequest,
};
use crate::ui_data::{
    FieldUnitDeathInfo, FieldUnitHarmfulStatusInfo, FieldUnitHealthPointInfo, PlayerIndexMap,
};

verus! {

/// A player's request to use a passive skill of one of its units that strikes
/// every unit of the opponent. The indices come as the request wrote them.
#[derive(Debug)]
pub struct DeployNonTargetingAttackPassiveSkillRequestForm {
    session_id: String,
    unit_card_index: String,
    usage_skill_index: String,
}

impl DeployNonTargetingAttackPassiveSkillRequestForm {
    /// The session that makes the request.
    pub closed spec fn session(&self) -> Seq<char> {
        self.session_id@
    }

    /// The index of the unit that uses the skill, as the request writes it.
    pub closed spec fn unit_index_text(&self) -> Seq<char> {
        self.unit_card_index@
    }

    /// The number of the skill, as the request writes it.
    pub closed spec fn skill_index_text(&self) -> Seq<char> {
        self.usage_skill_index@
    }

    pub fn new(session_id: String, unit_card_index: String, usage_skill_index: String) -> (r: Self)
        ensures
            r.session() == session_id@,
            r.unit_index_text() == unit_card_index@,
            r.skill_index_text() == usage_skill_index@,
    {
        DeployNonTargetingAttackPassiveSkillRequestForm { session_id, unit_card_index, usage_skill_index }
    }

    pub fn get_session_id(&self) -> (r: &str)
        ensures
            r@ == self.session(),
    {
        self.session_id.as_str()
    }

    pub fn get_unit_card_index(&self) -> (r: &str)
        ensures
            r@ == self.unit_index_text(),
    {
        self.unit_card_index.as_str()
    }

    pub fn get_usage_skill_index(&self) -> (r: &str)
        ensures
            r@ == self.skill_index_text(),
    {
        self.usage_skill_index.as_str()
    }

    pub fn to_session_validation_request(&self) -> (r: GetValueWithKeyRequest)
        ensures
            r.key@ == self.session(),
    {
        GetValueWithKeyRequest::new(self.session_id.clone())
    }

    pub fn to_is_this_your_turn_request(
        &self,
        account_unique_id: i32,
    ) -> (r: IsThisYourTurnRequest)
        ensures
            r == (IsThisYourTurnRequest { account_unique_id }),
    {
        IsThisYourTurnRequest::new(account_unique_id)
    }

    pub fn to_execute_turn_action_request(
        &self,
        account_unique_id: i32,
        attacker_unit_card_index: i32,
    ) -> (r: ExecuteTurnActionRequest)
        ensures
            r == (ExecuteTurnActionRequest {
                account_unique_id,
                unit_card_index: attacker_unit_card_index,
            }),
    {
        ExecuteTurnActionRequest::new(account_unique_id, attacker_unit_card_index)
    }

    pub fn to_find_passive_skill_usage_unit_id_by_index_request(
        &self,
        account_unique_id: i32,
        unit_card_index: i32,
    ) -> (r: FindActiveSkillUsageUnitIdByIndexRequest)
        ensures
            r == (FindActiveSkillUsageUnitIdByIndexRequest {
                account_unique_id,
                unit_card_index,
            }),
    {
        FindActiveSkillUsageUnitIdByIndexRequest::new(account_unique_id, unit_card_index)
    }

    pub fn to_find_target_unit_id_by_index_request(
        &self,
        account_unique_id: i32,
        unit_card_index: i32,
    ) -> (r: FindTargetUnitIdByIndexRequest)
        ensures
            r == (FindTargetUnitIdByIndexRequest { account_unique_id, unit_card_index }),
    {
        FindTargetUnitIdByIndexRequest::new(account_unique_id, unit_card_index)
    }

    pub fn to_is_using_active_skill_possible_request(
        &self,
        account_unique_id: i32,
        field_unit_index: i32,
        skill_required_energy_map: HashMap<RaceEnum, i32>,
    ) -> (r: IsUsingActiveSkillPossibleRequest)
        ensures
            r == (IsUsingActiveSkillPossibleRequest {
                account_unique_id,
                field_unit_index,
                skill_required_energy_map,
            }),
    {
        IsUsingActiveSkillPossibleRequest::new(
            account_unique_id,
            field_unit_index,
            skill_required_energy_map,
        )
    }

    pub fn to_execute_index_passive_of_unit_request(
        &self,
        account_unique_id: i32,
        unit_card_index: i32,
        passive_skill_index: i32,
    ) -> (r: ExecuteIndexPassiveOfUnitRequest)
        ensures
            r == (ExecuteIndexPassiveOfUnitRequest {
                account_unique_id,
                unit_card_index,
                passive_skill_index,
            }),
    {
        ExecuteIndexPassiveOfUnitRequest::new(
            account_unique_id,
            unit_card_index,
            passive_skill_index,
        )
    }

    pub fn to_summary_passive_skill_effect_by_index_request(
        &self,
        unit_card_id: i32,
        usage_skill_index: i32,
    ) -> (r: SummaryPassiveSkillEffectByIndexRequest)
        ensures
            r == (SummaryPassiveSkillEffectByIndexRequest { unit_card_id, usage_skill_index }),
    {
        SummaryPassiveSkillEffectByIndexRequest::new(unit_card_id, usage_skill_index)
    }

    pub fn to_summary_deploy_passive_skill_effect_request(
        &self,
        unit_card_id: i32,
    ) -> (r: SummaryDeployPassiveSkillEffectRequest)
        ensures
            r == (SummaryDeployPassiveSkillEffectRequest { unit_card_id }),
    {
        SummaryDeployPassiveSkillEffectRequest::new(unit_card_id)
    }

    pub fn to_find_opponent_by_account_id_request(
        &self,
        account_unique_id: i32,
    ) -> (r: FindOpponentByAccountIdRequest)
        ensures
            r == (FindOpponentByAccountIdRequest { account_unique_id }),
    {
        FindOpponentByAccountIdRequest::new(account_unique_id)
    }

    pub fn to_acquire_unit_extra_effect_request(
        &self,
        account_unique_id: i32,
        unit_index: i32,
    ) -> (r: AcquireUnitExtraEffectRequest)
        ensures
            r == (AcquireUnitExtraEffectRequest { account_unique_id, unit_index }),
    {
        AcquireUnitExtraEffectRequest::new(account_unique_id, unit_index)
    }

    pub fn to_apply_damage_to_target_unit_index_request(
        &self,
        opponent_unique_id: i32,
        opponent_target_unit_index: i32,
        damage: i32,
    ) -> (r: ApplyDamageToTargetUnitIndexRequest)
        ensures
            r == (ApplyDamageToTargetUnitIndexRequest {
                opponent_unique_id,
                opponent_target_unit_index,
                damage,
            }),
    {
        ApplyDamageToTargetUnitIndexRequest::new(
            opponent_unique_id,
            opponent_target_unit_index,
            damage,
        )
    }

    pub fn to_attack_every_unit_with_extra_effect_request(
        &self,
        opponent_unique_id: i32,
        damage: i32,
        extra_status_effect_list: Vec<ExtraStatusEffect>,
    ) -> (r: AttackEveryUnitWithExtraEffectRequest)
        ensures
            r == (AttackEveryUnitWithExtraEffectRequest {
                opponent_unique_id,
                damage,
                extra_status_effect_list,
            }),
    {
        AttackEveryUnitWithExtraEffectRequest::new(
            opponent_unique_id,
            damage,
            extra_status_effect_list,
        )
    }

    pub fn to_apply_catastrophic_damage_to_field_unit_request(
        &self,
        opponent_unique_id: i32,
        damage: i32,
    ) -> (r: ApplyCatastrophicDamageToFieldUnitRequest)
        ensures
            r == (ApplyCatastrophicDamageToFieldUnitRequest { opponent_unique_id, damage }),
    {
        ApplyCatastrophicDamageToFieldUnitRequest::new(opponent_unique_id, damage)
    }

    pub fn to_judge_death_of_every_unit_request(
        &self,
        account_unique_id: i32,
    ) -> (r: JudgeDeathOfEveryUnitRequest)
        ensures
            r == (JudgeDeathOfEveryUnitRequest { account_unique_id }),
    {
        JudgeDeathOfEveryUnitRequest::new(account_unique_id)
    }

    pub fn to_add_dead_unit_list_to_tomb_request(
        &self,
        account_unique_id: i32,
        dead_unit_list: Vec<i32>,
    ) -> (r: AddDeadUnitListToTombRequest)
        ensures
            r == (AddDeadUnitListToTombRequest { account_unique_id, dead_unit_list }),
    {
        AddDeadUnitListToTombRequest::new(account_unique_id, dead_unit_list)
    }

    pub fn to_find_unit_id_by_index_request(
        &self,
        account_unique_id: i32,
        unit_index: i32,
    ) -> (r: FindTargetUnitIdByIndexRequest)
        ensures
            r == (FindTargetUnitIdByIndexRequest {
                account_unique_id,
                unit_card_index: unit_index,
            }),
    {
        FindTargetUnitIdByIndexRequest::new(account_unique_id, unit_index)
    }

    pub fn to_is_using_deploy_passive_skill_possible_request(
        &self,
        account_unique_id: i32,
        unit_index: i32,
        usage_skill_index: i32,
        passive_skill_casting_condition: Vec<PassiveSkillCastingCondition>,
    ) -> (r: IsUsingDeployPassiveSkillPossibleRequest)
        ensures
            r == (IsUsingDeployPassiveSkillPossibleRequest {
                account_unique_id,
                unit_index,
                usage_skill_index,
                passive_skill_casting_condition,
            }),
    {
        IsUsingDeployPassiveSkillPossibleRequest::new(
            account_unique_id,
            unit_index,
            usage_skill_index,
            passive_skill_casting_condition,
        )
    }

    pub fn to_get_passive_skill_usable_list_request(
        &self,
        account_unique_id: i32,
        unit_index: i32,
    ) -> (r: GetPassiveSkillUsableRequest)
        ensures
            r == (GetPassiveSkillUsableRequest { account_unique_id, unit_index }),
    {
        GetPassiveSkillUsableRequest::new(account_unique_id, unit_index)
    }

    pub fn to_acquire_harmful_status_effect_of_all_unit_request(
        &self,
        account_unique_id: i32,
    ) -> (r: AcquireHarmfulStatusEffectOfAllUnitRequest)
        ensures
            r == (AcquireHarmfulStatusEffectOfAllUnitRequest { account_unique_id }),
    {
        AcquireHarmfulStatusEffectOfAllUnitRequest::new(account_unique_id)
    }

    pub fn to_place_dead_unit_to_tomb_request(
        &self,
        account_unique_id: i32,
        dead_unit_card_id: i32,
    ) -> (r: PlaceToTombRequest)
        ensures
            r == (PlaceToTombRequest { account_unique_id, used_card_id: dead_unit_card_id }),
    {
        PlaceToTombRequest::new(account_unique_id, dead_unit_card_id)
    }

    pub fn to_get_current_health_point_of_all_field_unit_request(
        &self,
        account_unique_id: i32,
    ) -> (r: GetCurrentHealthPointOfAllFieldUnitRequest)
        ensures
            r == (GetCurrentHealthPointOfAllFieldUnitRequest { account_unique_id }),
    {
        GetCurrentHealthPointOfAllFieldUnitRequest::new(account_unique_id)
    }

    pub fn to_acquire_unit_harmful_status_effect_request(
        &self,
        opponent_unique_id: i32,
        opponent_unit_index: i32,
    ) -> (r: AcquireUnitHarmfulStatusEffectRequest)
        ensures
            r == (AcquireUnitHarmfulStatusEffectRequest {
                account_unique_id: opponent_unique_id,
                unit_index: opponent_unit_index,
            }),
    {
        AcquireUnitHarmfulStatusEffectRequest::new(opponent_unique_id, opponent_unit_index)
    }

    pub fn to_generate_opponent_multiple_unit_health_point_data_request(
        &self,
        opponent_unit_updated_health_point_list: Vec<(i32, i32)>,
    ) -> (r: GenerateOpponentMultipleUnitHealthPointDataRequest)
        ensures
            r == (GenerateOpponentMultipleUnitHealthPointDataRequest {
                opponent_unit_health_point_tuple_list: opponent_unit_updated_health_point_list,
            }),
    {
        GenerateOpponentMultipleUnitHealthPointDataRequest::new(
            opponent_unit_updated_health_point_list,
        )
    }

    pub fn to_generate_opponent_multiple_unit_harmful_effect_data_request(
        &self,
        opponent_unit_harmful_status_list: Vec<(i32, Vec<ExtraEffect>)>,
    ) -> (r: GenerateOpponentMultipleUnitHarmfulEffectDataRequest)
        ensures
            r == (GenerateOpponentMultipleUnitHarmfulEffectDataRequest {
                opponent_unit_harmful_effect_tuple_list: opponent_unit_harmful_status_list,
            }),
    {
        GenerateOpponentMultipleUnitHarmfulEffectDataRequest::new(
            opponent_unit_harmful_status_list,
        )
    }

    pub fn to_generate_opponent_multiple_unit_death_data_request(
        &self,
        opponent_dead_unit_index_list: Vec<i32>,
    ) -> (r: GenerateOpponentMultipleUnitDeathDataRequest)
        ensures
            r == (GenerateOpponentMultipleUnitDeathDataRequest {
                opponent_dead_unit_index_list,
            }),
    {
        GenerateOpponentMultipleUnitDeathDataRequest::new(opponent_dead_unit_index_list)
    }

    pub fn to_notice_deploy_non_targeting_attack_passive_skill_request(
        &self,
        opponent_unique_id: i32,
        player_field_unit_health_point_map_for_notice: PlayerIndexMap<FieldUnitHealthPointInfo>,
        player_field_unit_harmful_effect_map_for_notice: PlayerIndexMap<FieldUnitHarmfulStatusInfo>,
        player_field_unit_death_map_for_notice: PlayerIndexMap<FieldUnitDeathInfo>,
    ) -> (r: NoticeDeployNonTargetingAttackPassiveSkillRequest)
        ensures
            r == (NoticeDeployNonTargetingAttackPassiveSkillRequest {
                opponent_unique_id,
                player_field_unit_health_point_map: player_field_unit_health_point_map_for_notice,
                player_field_unit_harmful_effect_map: player_field_unit_harmful_effect_map_for_notice,
                player_field_unit_death_map: player_field_unit_death_map_for_notice,
            }),
    {
        NoticeDeployNonTargetingAttackPassiveSkillRequest::new(
            opponent_unique_id,
            player_field_unit_health_point_map_for_notice,
            player_field_unit_harmful_effect_map_for_notice,
            player_field_unit_death_map_for_notice,
        )
    }
}

} // verus!
