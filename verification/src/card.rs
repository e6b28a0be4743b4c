//! Card attributes and the templates a catalog records for each card id.

use vstd::prelude::*;

verus! {

/// What a card is used as.
#[derive(Clone, Copy, Debug, PartialEq, Eq, Structural)]
pub enum CardKind {
    Dummy,
    Unit,
    Item,
    Trap,
    Support,
    Tool,
    Energy,
    Environment,
    Token,
}

/// The race a unit belongs to.
#[derive(Clone, Copy, Debug, PartialEq, Eq, Hash, Structural)]
pub enum RaceEnum {
    Dummy,
    Undead,
    Human,
    Trent,
    Angel,
    Machine,
    Chaos,
}

/// Rarity of a card. `Mythical` units are gated by the round number.
#[derive(Clone, Copy, Debug, PartialEq, Eq, Structural)]
pub enum GradeEnum {
    Dummy,
    Common,
    Uncommon,
    Hero,
    Legend,
    Mythical,
}

/// A standing property of a unit that does not wear off.
#[derive(Clone, Copy, Debug, PartialEq, Eq, Structural)]
pub enum PassiveStatus {
    Dummy,
    /// Basic attacks cannot hit the unit, and nothing strikes back at it.
    PhysicalImmunity,
}

/// The kind of a timed status effect.
#[derive(Clone, Copy, Debug, PartialEq, Eq, Structural)]
pub enum ExtraEffect {
    Dummy,
    DarkFire,
    Freeze,
}

/// A timed status effect: what it is, for how many turns it lasts and how much
/// damage it deals each time its bearer's owner ends a turn.
#[derive(Clone, Copy, Debug, PartialEq, Eq, Structural)]
pub struct ExtraStatusEffect {
    pub extra_effect: ExtraEffect,
    pub status_duration_turn: i32,
    pub effect_damage: i32,
    pub reuse_turn: i32,
}

impl ExtraStatusEffect {
    pub fn new(
        extra_effect: ExtraEffect,
        status_duration_turn: i32,
        effect_damage: i32,
        reuse_turn: i32,
    ) -> (r: Self)
        ensures
            r == (ExtraStatusEffect { extra_effect, status_duration_turn, effect_damage, reuse_turn }),
    {
        ExtraStatusEffect { extra_effect, status_duration_turn, effect_damage, reuse_turn }
    }
}

/// Energy a unit needs for its basic attack and for each of its skills.
#[derive(Clone, Copy, Debug, PartialEq, Eq, Structural)]
pub struct RequiredEnergy {
    pub basic_attack: i32,
    pub first_skill: i32,
    pub second_skill: i32,
    pub third_skill: i32,
}

impl RequiredEnergy {
    /// Energy for the skill numbered `skill_index` (1, 2 or 3); for any other
    /// number, the energy of the basic attack.
    pub open spec fn of_skill(self, skill_index: i32) -> i32 {
        if skill_index == 1 {
            self.first_skill
        } else if skill_index == 2 {
            self.second_skill
        } else if skill_index == 3 {
            self.third_skill
        } else {
            self.basic_attack
        }
    }

    /// Computes [`RequiredEnergy::of_skill`].
    pub fn for_skill(&self, skill_index: i32) -> (r: i32)
        ensures
            r == self.of_skill(skill_index),
    {
        if skill_index == 1 {
            self.first_skill
        } else if skill_index == 2 {
            self.second_skill
        } else if skill_index == 3 {
            self.third_skill
        } else {
            self.basic_attack
        }
    }
}

/// When a passive skill may be cast.
#[derive(Clone, Copy, Debug, PartialEq, Eq, Structural)]
pub enum PassiveSkillCastingCondition {
    Dummy,
    /// In the round in which the unit entered the field.
    Deploy,
    /// In a round after the one in which the unit entered the field.
    TurnStart,
}

/// How far a passive skill reaches.
#[derive(Clone, Copy, Debug, PartialEq, Eq, Structural)]
pub enum PassiveSkillType {
    Dummy,
    SingleTarget,
    BroadArea,
}

/// What a passive skill does.
#[derive(Clone, Copy, Debug, PartialEq, Eq, Structural)]
pub enum PassiveSkillEffect {
    /// Damage to one unit of the opponent, chosen by its index.
    TargetDamage { damage: i32 },
    /// Damage to every unit of the opponent, with the caster's extra effects.
    NonTargetingDamage { damage: i32 },
    /// A further extra effect for the caster's own blows.
    AttachExtraEffect { effect: ExtraStatusEffect },
    /// Damage of a fixed size to every unit of the opponent, whatever
    /// immunity it has.
    CatastrophicDamage { damage: i32 },
}

impl PassiveSkillEffect {
    pub open spec fn skill_type(self) -> PassiveSkillType {
        match self {
            PassiveSkillEffect::TargetDamage { .. } => PassiveSkillType::SingleTarget,
            PassiveSkillEffect::NonTargetingDamage { .. } => PassiveSkillType::BroadArea,
            PassiveSkillEffect::AttachExtraEffect { .. } => PassiveSkillType::Dummy,
            PassiveSkillEffect::CatastrophicDamage { .. } => PassiveSkillType::BroadArea,
        }
    }

    /// How far the effect reaches.
    pub fn get_skill_type(&self) -> (r: PassiveSkillType)
        ensures
            r == self.skill_type(),
    {
        match self {
            PassiveSkillEffect::TargetDamage { .. } => PassiveSkillType::SingleTarget,
            PassiveSkillEffect::NonTargetingDamage { .. } => PassiveSkillType::BroadArea,
            PassiveSkillEffect::AttachExtraEffect { .. } => PassiveSkillType::Dummy,
            PassiveSkillEffect::CatastrophicDamage { .. } => PassiveSkillType::BroadArea,
        }
    }
}

/// A passive skill of a unit card.
#[derive(Clone, Debug)]
pub struct PassiveSkill {
    pub casting_conditions: Vec<PassiveSkillCastingCondition>,
    pub effect: PassiveSkillEffect,
}

/// The statistics a unit card brings to the field.
#[derive(Clone, Debug)]
pub struct UnitStats {
    pub race: RaceEnum,
    pub grade: GradeEnum,
    pub attack_point: i32,
    pub health_point: i32,
    pub required_energy: RequiredEnergy,
    pub has_first_passive_skill: bool,
    pub has_second_passive_skill: bool,
    pub has_third_passive_skill: bool,
    pub passive_status_list: Vec<PassiveStatus>,
}

/// What the catalog records of one card.
#[derive(Clone, Debug)]
pub struct CardEntry {
    pub card_id: i32,
    pub kind: CardKind,
    /// Statistics, for a unit card.
    pub stats: Option<UnitStats>,
    /// Passive skills, the first in front.
    pub passive_skills: Vec<PassiveSkill>,
}

/// The card catalog: for each card id the first entry that carries it.
#[derive(Clone, Debug)]
pub struct CardCatalog {
    pub entries: Vec<CardEntry>,
}

impl CardCatalog {
    /// `i` is the place of the first entry for `card_id`.
    pub open spec fn is_place_of(&self, card_id: i32, i: int) -> bool {
        &&& 0 <= i < self.entries@.len()
        &&& self.entries@[i].card_id == card_id
        &&& forall|j: int| 0 <= j < i ==> self.entries@[j].card_id != card_id
    }

    pub open spec fn knows(&self, card_id: i32) -> bool {
        exists|i: int| self.is_place_of(card_id, i)
    }

    /// The place of the first entry for `card_id`.
    pub open spec fn place_of(&self, card_id: i32) -> int {
        choose|i: int| self.is_place_of(card_id, i)
    }

    /// The entry for a card the catalog knows.
    pub open spec fn entry(&self, card_id: i32) -> CardEntry {
        self.entries@[self.place_of(card_id)]
    }

    /// The kind of a card; `Dummy` for a card the catalog does not know.
    pub open spec fn kind_of(&self, card_id: i32) -> CardKind {
        if self.knows(card_id) {
            self.entry(card_id).kind
        } else {
            CardKind::Dummy
        }
    }

    /// The statistics of a unit card the catalog knows.
    pub open spec fn stats_of(&self, card_id: i32) -> Option<UnitStats> {
        if self.knows(card_id) {
            self.entry(card_id).stats
        } else {
            None
        }
    }

    /// The passive skills of a card; none for a card the catalog does not
    /// know.
    pub open spec fn skills_of(&self, card_id: i32) -> Seq<PassiveSkill> {
        if self.knows(card_id) {
            self.entry(card_id).passive_skills@
        } else {
            Seq::empty()
        }
    }

    pub fn new(entries: Vec<CardEntry>) -> (r: Self)
        ensures
            r.entries == entries,
    {
        CardCatalog { entries }
    }

    /// Two places of the first entry for one card are one place.
    pub proof fn lemma_place_is_unique(&self, card_id: i32, i: int, j: int)
        requires
            self.is_place_of(card_id, i),
            self.is_place_of(card_id, j),
        ensures
            i == j,
    {
    }

    /// Finds the first entry for `card_id`.
    pub fn find(&self, card_id: i32) -> (r: Option<usize>)
        ensures
            r.is_some() == self.knows(card_id),
            r.is_some() ==> r.unwrap() == self.place_of(card_id) && self.is_place_of(
                card_id,
                r.unwrap() as int,
            ),
    {
        let mut i: usize = 0;
        while i < self.entries.len()
            invariant
                i <= self.entries@.len(),
                forall|j: int| 0 <= j < i ==> self.entries@[j].card_id != card_id,
            decreases self.entries@.len() - i,
        {
            if self.entries[i].card_id == card_id {
                proof {
                    assert(self.is_place_of(card_id, i as int));
                    self.lemma_place_is_unique(card_id, i as int, self.place_of(card_id));
                }
                return Some(i);
            }
            i += 1;
        }
        assert(!self.knows(card_id)) by {
            if self.knows(card_id) {
                let k = self.place_of(card_id);
                assert(self.is_place_of(card_id, k));
            }
        }
        None
    }

    /// The kind of a card; `Dummy` for a card the catalog does not know.
    pub fn card_kind(&self, card_id: i32) -> (r: CardKind)
        ensures
            r == self.kind_of(card_id),
    {
        match self.find(card_id) {
            Some(i) => self.entries[i].kind,
            None => CardKind::Dummy,
        }
    }

    /// The statistics of a unit card.
    pub fn unit_stats(&self, card_id: i32) -> (r: Option<&UnitStats>)
        ensures
            r.is_some() == self.stats_of(card_id).is_some(),
            r.is_some() ==> *r.unwrap() == self.stats_of(card_id).unwrap(),
    {
        match self.find(card_id) {
            Some(i) => self.entries[i].stats.as_ref(),
            None => None,
        }
    }

    /// The passive skills of a card, the first in front.
    pub fn passive_skills(&self, card_id: i32) -> (r: &[PassiveSkill])
        ensures
            r@ == self.skills_of(card_id),
    {
        match self.find(card_id) {
            Some(i) => self.entries[i].passive_skills.as_slice(),
            None => &[],
        }
    }
}

/// Copies a list of effects.
pub fn copy_effects(list: &Vec<ExtraStatusEffect>) -> (r: Vec<ExtraStatusEffect>)
    ensures
        r@ == list@,
{
    let r = list.clone();
    assert(r@ =~= list@);
    r
}

} // verus!
