//! The requests that the request forms make for the parts of the engine.
//! Each is plain data; its fields say what is asked.

use std::collections::HashMap;
use vstd::prelude::*;
use crate::card::{ExtraEffect, ExtraStatusEffect, PassiveSkillCastingCondition, RaceEnum};
use crate::ui_data::{
    FieldUnitDeathInfo, FieldUnitHarmfulStatusInfo, FieldUnitHealthPointInfo, PlayerIndexMap,
};

verus! {

/// Asks the session store for the value kept under a key.
#[derive(Clone, Debug, PartialEq, Eq)]
pub struct GetValueWithKeyRequest {
    pub key: String,
}

impl GetValueWithKeyRequest {
    pub fn new(key: String) -> (r: Self)
        ensures
            r == (GetValueWithKeyRequest { key }),
    {
        GetValueWithKeyRequest { key }
    }
}

/// Asks whether an account owns the turn.
#[derive(Clone, Copy, Debug, PartialEq, Eq, Structural)]
pub struct IsThisYourTurnRequest {
    pub account_unique_id: i32,
}

impl IsThisYourTurnRequest {
    pub fn new(account_unique_id: i32) -> (r: Self)
        ensures
            r == (IsThisYourTurnRequest { account_unique_id }),
    {
        IsThisYourTurnRequest { account_unique_id }
    }
}

/// Records that a unit has used its action of the turn.
#[derive(Clone, Copy, Debug, PartialEq, Eq, Structural)]
pub struct ExecuteTurnActionRequest {
    pub account_unique_id: i32,
    pub unit_card_index: i32,
}

impl ExecuteTurnActionRequest {
    pub fn new(account_unique_id: i32, unit_card_index: i32) -> (r: Self)
        ensures
            r == (ExecuteTurnActionRequest { account_unique_id, unit_card_index }),
    {
        ExecuteTurnActionRequest { account_unique_id, unit_card_index }
    }
}

/// Asks for the card of the unit that uses a skill.
#[derive(Clone, Copy, Debug, PartialEq, Eq, Structural)]
pub struct FindActiveSkillUsageUnitIdByIndexRequest {
    pub account_unique_id: i32,
    pub unit_card_index: i32,
}

impl FindActiveSkillUsageUnitIdByIndexRequest {
    pub fn new(account_unique_id: i32, unit_card_index: i32) -> (r: Self)
        ensures
            r == (FindActiveSkillUsageUnitIdByIndexRequest { account_unique_id, unit_card_index }),
    {
        FindActiveSkillUsageUnitIdByIndexRequest { account_unique_id, unit_card_index }
    }
}

/// Asks for the card of the unit at an index.
#[derive(Clone, Copy, Debug, PartialEq, Eq, Structural)]
pub struct FindTargetUnitIdByIndexRequest {
    pub account_unique_id: i32,
    pub unit_card_index: i32,
}

impl FindTargetUnitIdByIndexRequest {
    pub fn new(account_unique_id: i32, unit_card_index: i32) -> (r: Self)
        ensures
            r == (FindTargetUnitIdByIndexRequest { account_unique_id, unit_card_index }),
    {
        FindTargetUnitIdByIndexRequest { account_unique_id, unit_card_index }
    }
}

/// Asks whether a unit holds the energy a skill needs, race by race.
#[derive(Clone, Debug, PartialEq, Eq)]
pub struct IsUsingActiveSkillPossibleRequest {
    pub account_unique_id: i32,
    pub field_unit_index: i32,
    pub skill_required_energy_map: HashMap<RaceEnum, i32>,
}

impl IsUsingActiveSkillPossibleRequest {
    pub fn new(
        account_unique_id: i32,
        field_unit_index: i32,
        skill_required_energy_map: HashMap<RaceEnum, i32>,
    ) -> (r: Self)
        ensures
            r == (IsUsingActiveSkillPossibleRequest {
                account_unique_id,
                field_unit_index,
                skill_required_energy_map,
            }),
    {
        IsUsingActiveSkillPossibleRequest {
            account_unique_id,
            field_unit_index,
            skill_required_energy_map,
        }
    }
}

/// Records that a unit has used one of its passive skills.
#[derive(Clone, Copy, Debug, PartialEq, Eq, Structural)]
pub struct ExecuteIndexPassiveOfUnitRequest {
    pub account_unique_id: i32,
    pub unit_card_index: i32,
    pub passive_skill_index: i32,
}

impl ExecuteIndexPassiveOfUnitRequest {
    pub fn new(account_unique_id: i32, unit_card_index: i32, passive_skill_index: i32) -> (r: Self)
        ensures
            r == (ExecuteIndexPassiveOfUnitRequest {
                account_unique_id,
                unit_card_index,
                passive_skill_index,
            }),
    {
        ExecuteIndexPassiveOfUnitRequest {
            account_unique_id,
            unit_card_index,
            passive_skill_index,
        }
    }
}

/// Asks the catalog for one passive skill of a unit card.
#[derive(Clone, Copy, Debug, PartialEq, Eq, Structural)]
pub struct SummaryPassiveSkillEffectByIndexRequest {
    pub unit_card_id: i32,
    pub usage_skill_index: i32,
}

impl SummaryPassiveSkillEffectByIndexRequest {
    pub fn new(unit_card_id: i32, usage_skill_index: i32) -> (r: Self)
        ensures
            r == (SummaryPassiveSkillEffectByIndexRequest { unit_card_id, usage_skill_index }),
    {
        SummaryPassiveSkillEffectByIndexRequest { unit_card_id, usage_skill_index }
    }
}

/// Asks the catalog for the passive skills of a unit card.
#[derive(Clone, Copy, Debug, PartialEq, Eq, Structural)]
pub struct SummaryDeployPassiveSkillEffectRequest {
    pub unit_card_id: i32,
}

impl SummaryDeployPassiveSkillEffectRequest {
    pub fn new(unit_card_id: i32) -> (r: Self)
        ensures
            r == (SummaryDeployPassiveSkillEffectRequest { unit_card_id }),
    {
        SummaryDeployPassiveSkillEffectRequest { unit_card_id }
    }
}

/// Asks for the opponent of an account.
#[derive(Clone, Copy, Debug, PartialEq, Eq, Structural)]
pub struct FindOpponentByAccountIdRequest {
    pub account_unique_id: i32,
}

impl FindOpponentByAccountIdRequest {
    pub fn new(account_unique_id: i32) -> (r: Self)
        ensures
            r == (FindOpponentByAccountIdRequest { account_unique_id }),
    {
        FindOpponentByAccountIdRequest { account_unique_id }
    }
}

/// Asks for the extra effects that the blows of a unit carry.
#[derive(Clone, Copy, Debug, PartialEq, Eq, Structural)]
pub struct AcquireUnitExtraEffectRequest {
    pub account_unique_id: i32,
    pub unit_index: i32,
}

impl AcquireUnitExtraEffectRequest {
    pub fn new(account_unique_id: i32, unit_index: i32) -> (r: Self)
        ensures
            r == (AcquireUnitExtraEffectRequest { account_unique_id, unit_index }),
    {
        AcquireUnitExtraEffectRequest { account_unique_id, unit_index }
    }
}

/// Damage to one unit of the opponent.
#[derive(Clone, Copy, Debug, PartialEq, Eq, Structural)]
pub struct ApplyDamageToTargetUnitIndexRequest {
    pub opponent_unique_id: i32,
    pub opponent_target_unit_index: i32,
    pub damage: i32,
}

impl ApplyDamageToTargetUnitIndexRequest {
    pub fn new(opponent_unique_id: i32, opponent_target_unit_index: i32, damage: i32) -> (r: Self)
        ensures
            r == (ApplyDamageToTargetUnitIndexRequest {
                opponent_unique_id,
                opponent_target_unit_index,
                damage,
            }),
    {
        ApplyDamageToTargetUnitIndexRequest {
            opponent_unique_id,
            opponent_target_unit_index,
            damage,
        }
    }
}

/// A blow with extra effects on every unit of the opponent.
#[derive(Clone, Debug, PartialEq, Eq)]
pub struct AttackEveryUnitWithExtraEffectRequest {
    pub opponent_unique_id: i32,
    pub damage: i32,
    pub extra_status_effect_list: Vec<ExtraStatusEffect>,
}

impl AttackEveryUnitWithExtraEffectRequest {
    pub fn new(
        opponent_unique_id: i32,
        damage: i32,
        extra_status_effect_list: Vec<ExtraStatusEffect>,
    ) -> (r: Self)
        ensures
            r == (AttackEveryUnitWithExtraEffectRequest {
                opponent_unique_id,
                damage,
                extra_status_effect_list,
            }),
    {
        AttackEveryUnitWithExtraEffectRequest {
            opponent_unique_id,
            damage,
            extra_status_effect_list,
        }
    }
}

/// Damage to every unit of the opponent, whatever immunity it has.
#[derive(Clone, Copy, Debug, PartialEq, Eq, Structural)]
pub struct ApplyCatastrophicDamageToFieldUnitRequest {
    pub opponent_unique_id: i32,
    pub damage: i32,
}

impl ApplyCatastrophicDamageToFieldUnitRequest {
    pub fn new(opponent_unique_id: i32, damage: i32) -> (r: Self)
        ensures
            r == (ApplyCatastrophicDamageToFieldUnitRequest { opponent_unique_id, damage }),
    {
        ApplyCatastrophicDamageToFieldUnitRequest { opponent_unique_id, damage }
    }
}

/// Death judgment on every unit of an account.
#[derive(Clone, Copy, Debug, PartialEq, Eq, Structural)]
pub struct JudgeDeathOfEveryUnitRequest {
    pub account_unique_id: i32,
}

impl JudgeDeathOfEveryUnitRequest {
    pub fn new(account_unique_id: i32) -> (r: Self)
        ensures
            r == (JudgeDeathOfEveryUnitRequest { account_unique_id }),
    {
        JudgeDeathOfEveryUnitRequest { account_unique_id }
    }
}

/// Puts the cards of dead units in the tomb of an account.
#[derive(Clone, Debug, PartialEq, Eq)]
pub struct AddDeadUnitListToTombRequest {
    pub account_unique_id: i32,
    pub dead_unit_list: Vec<i32>,
}

impl AddDeadUnitListToTombRequest {
    pub fn new(account_unique_id: i32, dead_unit_list: Vec<i32>) -> (r: Self)
        ensures
            r == (AddDeadUnitListToTombRequest { account_unique_id, dead_unit_list }),
    {
        AddDeadUnitListToTombRequest { account_unique_id, dead_unit_list }
    }
}

/// Asks whether a unit may use a passive skill under its casting conditions.
#[derive(Clone, Debug, PartialEq, Eq)]
pub struct IsUsingDeployPassiveSkillPossibleRequest {
    pub account_unique_id: i32,
    pub unit_index: i32,
    pub usage_skill_index: i32,
    pub passive_skill_casting_condition: Vec<PassiveSkillCastingCondition>,
}

impl IsUsingDeployPassiveSkillPossibleRequest {
    pub fn new(
        account_unique_id: i32,
        unit_index: i32,
        usage_skill_index: i32,
        passive_skill_casting_condition: Vec<PassiveSkillCastingCondition>,
    ) -> (r: Self)
        ensures
            r == (IsUsingDeployPassiveSkillPossibleRequest {
                account_unique_id,
                unit_index,
                usage_skill_index,
                passive_skill_casting_condition,
            }),
    {
        IsUsingDeployPassiveSkillPossibleRequest {
            account_unique_id,
            unit_index,
            usage_skill_index,
            passive_skill_casting_condition,
        }
    }
}

/// Asks which passive skills of a unit can be used.
#[derive(Clone, Copy, Debug, PartialEq, Eq, Structural)]
pub struct GetPassiveSkillUsableRequest {
    pub account_unique_id: i32,
    pub unit_index: i32,
}

impl GetPassiveSkillUsableRequest {
    pub fn new(account_unique_id: i32, unit_index: i32) -> (r: Self)
        ensures
            r == (GetPassiveSkillUsableRequest { account_unique_id, unit_index }),
    {
        GetPassiveSkillUsableRequest { account_unique_id, unit_index }
    }
}

/// Asks for the harmful statuses of every unit of an account.
#[derive(Clone, Copy, Debug, PartialEq, Eq, Structural)]
pub struct AcquireHarmfulStatusEffectOfAllUnitRequest {
    pub account_unique_id: i32,
}

impl AcquireHarmfulStatusEffectOfAllUnitRequest {
    pub fn new(account_unique_id: i32) -> (r: Self)
        ensures
            r == (AcquireHarmfulStatusEffectOfAllUnitRequest { account_unique_id }),
    {
        AcquireHarmfulStatusEffectOfAllUnitRequest { account_unique_id }
    }
}

/// Puts one card in the tomb of an account.
#[derive(Clone, Copy, Debug, PartialEq, Eq, Structural)]
pub struct PlaceToTombRequest {
    pub account_unique_id: i32,
    pub used_card_id: i32,
}

impl PlaceToTombRequest {
    pub fn new(account_unique_id: i32, used_card_id: i32) -> (r: Self)
        ensures
            r == (PlaceToTombRequest { account_unique_id, used_card_id }),
    {
        PlaceToTombRequest { account_unique_id, used_card_id }
    }
}

/// Asks for the health of every unit of an account.
#[derive(Clone, Copy, Debug, PartialEq, Eq, Structural)]
pub struct GetCurrentHealthPointOfAllFieldUnitRequest {
    pub account_unique_id: i32,
}

impl GetCurrentHealthPointOfAllFieldUnitRequest {
    pub fn new(account_unique_id: i32) -> (r: Self)
        ensures
            r == (GetCurrentHealthPointOfAllFieldUnitRequest { account_unique_id }),
    {
        GetCurrentHealthPointOfAllFieldUnitRequest { account_unique_id }
    }
}

/// Asks for the harmful statuses of one unit.
#[derive(Clone, Copy, Debug, PartialEq, Eq, Structural)]
pub struct AcquireUnitHarmfulStatusEffectRequest {
    pub account_unique_id: i32,
    pub unit_index: i32,
}

impl AcquireUnitHarmfulStatusEffectRequest {
    pub fn new(account_unique_id: i32, unit_index: i32) -> (r: Self)
        ensures
            r == (AcquireUnitHarmfulStatusEffectRequest { account_unique_id, unit_index }),
    {
        AcquireUnitHarmfulStatusEffectRequest { account_unique_id, unit_index }
    }
}

/// Health by unit index, to be shown to both players.
#[derive(Clone, Debug, PartialEq, Eq)]
pub struct GenerateOpponentMultipleUnitHealthPointDataRequest {
    pub opponent_unit_health_point_tuple_list: Vec<(i32, i32)>,
}

impl GenerateOpponentMultipleUnitHealthPointDataRequest {
    pub fn new(opponent_unit_health_point_tuple_list: Vec<(i32, i32)>) -> (r: Self)
        ensures
            r == (GenerateOpponentMultipleUnitHealthPointDataRequest {
                opponent_unit_health_point_tuple_list,
            }),
    {
        GenerateOpponentMultipleUnitHealthPointDataRequest {
            opponent_unit_health_point_tuple_list,
        }
    }
}

/// Harmful statuses by unit index, to be shown to both players.
#[derive(Clone, Debug, PartialEq, Eq)]
pub struct GenerateOpponentMultipleUnitHarmfulEffectDataRequest {
    pub opponent_unit_harmful_effect_tuple_list: Vec<(i32, Vec<ExtraEffect>)>,
}

impl GenerateOpponentMultipleUnitHarmfulEffectDataRequest {
    pub fn new(opponent_unit_harmful_effect_tuple_list: Vec<(i32, Vec<ExtraEffect>)>) -> (r: Self)
        ensures
            r == (GenerateOpponentMultipleUnitHarmfulEffectDataRequest {
                opponent_unit_harmful_effect_tuple_list,
            }),
    {
        GenerateOpponentMultipleUnitHarmfulEffectDataRequest {
            opponent_unit_harmful_effect_tuple_list,
        }
    }
}

/// The indices of dead units, to be shown to both players.
#[derive(Clone, Debug, PartialEq, Eq)]
pub struct GenerateOpponentMultipleUnitDeathDataRequest {
    pub opponent_dead_unit_index_list: Vec<i32>,
}

impl GenerateOpponentMultipleUnitDeathDataRequest {
    pub fn new(opponent_dead_unit_index_list: Vec<i32>) -> (r: Self)
        ensures
            r == (GenerateOpponentMultipleUnitDeathDataRequest { opponent_dead_unit_index_list }),
    {
        GenerateOpponentMultipleUnitDeathDataRequest { opponent_dead_unit_index_list }
    }
}

/// Tells the opponent what a passive skill on all its units has changed.
#[derive(Clone, Debug, PartialEq, Eq)]
pub struct NoticeDeployNonTargetingAttackPassiveSkillRequest {
    pub opponent_unique_id: i32,
    pub player_field_unit_health_point_map: PlayerIndexMap<FieldUnitHealthPointInfo>,
    pub player_field_unit_harmful_effect_map: PlayerIndexMap<FieldUnitHarmfulStatusInfo>,
    pub player_field_unit_death_map: PlayerIndexMap<FieldUnitDeathInfo>,
}

impl NoticeDeployNonTargetingAttackPassiveSkillRequest {
    pub fn new(
        opponent_unique_id: i32,
        player_field_unit_health_point_map: PlayerIndexMap<FieldUnitHealthPointInfo>,
        player_field_unit_harmful_effect_map: PlayerIndexMap<FieldUnitHarmfulStatusInfo>,
        player_field_unit_death_map: PlayerIndexMap<FieldUnitDeathInfo>,
    ) -> (r: Self)
        ensures
            r == (NoticeDeployNonTargetingAttackPassiveSkillRequest {
                opponent_unique_id,
                player_field_unit_health_point_map,
                player_field_unit_harmful_effect_map,
                player_field_unit_death_map,
            }),
    {
        NoticeDeployNonTargetingAttackPassiveSkillRequest {
            opponent_unique_id,
            player_field_unit_health_point_map,
            player_field_unit_harmful_effect_map,
            player_field_unit_death_map,
        }
    }
}

/// Puts cards of the hand back on the deck.
#[derive(Clone, Debug, PartialEq, Eq)]
pub struct PutCardsOnDeckRequest {
    pub session_id: String,
    pub will_be_changed_card_list: Vec<String>,
}

impl PutCardsOnDeckRequest {
    pub fn new(session_id: String, will_be_changed_card_list: Vec<String>) -> (r: Self)
        ensures
            r == (PutCardsOnDeckRequest { session_id, will_be_changed_card_list }),
    {
        PutCardsOnDeckRequest { session_id, will_be_changed_card_list }
    }
}

/// Draws again as many cards as were put back.
#[derive(Clone, Debug, PartialEq, Eq)]
pub struct GameDeckCardRedrawRequest {
    pub session_id: String,
    pub redraw_card_count: i32,
}

impl GameDeckCardRedrawRequest {
    pub fn new(session_id: String, redraw_card_count: i32) -> (r: Self)
        ensures
            r == (GameDeckCardRedrawRequest { session_id, redraw_card_count }),
    {
        GameDeckCardRedrawRequest { session_id, redraw_card_count }
    }
}

/// Asks whether the hand holds every card of a list.
#[derive(Clone, Debug, PartialEq, Eq)]
pub struct CheckCardsFromHandRequest {
    pub session_id: String,
    pub hand_card_list: Vec<i32>,
}

impl CheckCardsFromHandRequest {
    pub fn new(session_id: String, hand_card_list: Vec<i32>) -> (r: Self)
        ensures
            r == (CheckCardsFromHandRequest { session_id, hand_card_list }),
    {
        CheckCardsFromHandRequest { session_id, hand_card_list }
    }
}

/// Lets the statuses of every unit of an account deal their damage.
#[derive(Clone, Copy, Debug, PartialEq, Eq, Structural)]
pub struct ApplyStatusEffectDamageIterativelyRequest {
    pub account_unique_id: i32,
}

impl ApplyStatusEffectDamageIterativelyRequest {
    pub fn new(account_unique_id: i32) -> (r: Self)
        ensures
            r == (ApplyStatusEffectDamageIterativelyRequest { account_unique_id }),
    {
        ApplyStatusEffectDamageIterativelyRequest { account_unique_id }
    }
}

/// Passes the turn on from an account.
#[derive(Clone, Copy, Debug, PartialEq, Eq, Structural)]
pub struct NextTurnRequest {
    pub account_unique_id: i32,
}

impl NextTurnRequest {
    pub fn new(account_unique_id: i32) -> (r: Self)
        ensures
            r == (NextTurnRequest { account_unique_id }),
    {
        NextTurnRequest { account_unique_id }
    }
}

/// Counts the round on where it is over.
#[derive(Clone, Debug, PartialEq, Eq)]
pub struct NextGameRoundRequest {
    pub session_id: String,
}

impl NextGameRoundRequest {
    pub fn new(session_id: String) -> (r: Self)
        ensures
            r == (NextGameRoundRequest { session_id }),
    {
        NextGameRoundRequest { session_id }
    }
}

/// Draws cards from the deck of an account.
#[derive(Clone, Copy, Debug, PartialEq, Eq, Structural)]
pub struct DrawCardsFromDeckRequest {
    pub account_unique_id: i32,
    pub draw_count: i32,
}

impl DrawCardsFromDeckRequest {
    pub fn new(account_unique_id: i32, draw_count: i32) -> (r: Self)
        ensures
            r == (DrawCardsFromDeckRequest { account_unique_id, draw_count }),
    {
        DrawCardsFromDeckRequest { account_unique_id, draw_count }
    }
}

/// Grants field energy to an account.
#[derive(Clone, Copy, Debug, PartialEq, Eq, Structural)]
pub struct AddFieldEnergyWithAmountRequest {
    pub account_unique_id: i32,
    pub amount: i32,
}

impl AddFieldEnergyWithAmountRequest {
    pub fn new(account_unique_id: i32, amount: i32) -> (r: Self)
        ensures
            r == (AddFieldEnergyWithAmountRequest { account_unique_id, amount }),
    {
        AddFieldEnergyWithAmountRequest { account_unique_id, amount }
    }
}

} // verus!
