//! Damage classifications and the sub-effects an aura can carry.
use crate::moment::Moment;
use crate::seqs::copy_vec;
use vstd::prelude::*;

verus! {

/// The element of magic damage.
#[derive(Clone, Copy, PartialEq, Eq, Structural, Debug)]
pub enum Element {
    Fire,
    Earth,
    Unaspected,
}

/// The kind of damage a hit deals.
#[derive(Clone, Copy, PartialEq, Eq, Structural, Debug)]
pub enum DamageType {
    Blunt,
    Slashing,
    Piercing,
    Magic(Element),
}

/// The kind of ability behind a hit.
#[derive(Clone, Copy, PartialEq, Eq, Structural, Debug)]
pub enum SkillType {
    Auto,
    Skill,
    Spell,
}

/// What an aura does while it is attached.
#[derive(Debug)]
#[allow(inconsistent_fields)]
pub enum AuraEffect {
    /// Damage over time: one periodic hit for each pending tick that the
    /// clock passes. `ticks` holds the ticks still pending, in order.
    DoT { id: u32, ticks: Vec<Moment>, potency: u32, skill_type: SkillType, damage_type: DamageType },
    DamageModifier { damage_type: Vec<DamageType>, modifier: i32 },
    PotencyModifier { damage_type: Vec<DamageType>, modifier: i32 },
}

/// The mathematical value of an [`AuraEffect`].
#[allow(inconsistent_fields)]
pub enum AuraEffectModel {
    DoT { id: u32, ticks: Seq<Moment>, potency: u32, skill_type: SkillType, damage_type: DamageType },
    DamageModifier { damage_type: Seq<DamageType>, modifier: int },
    PotencyModifier { damage_type: Seq<DamageType>, modifier: int },
}

/// How many pending ticks, counted from the front, lie strictly before
/// `moment`.
pub open spec fn passed_ticks(ticks: Seq<Moment>, moment: Moment) -> nat
    decreases ticks.len(),
{
    if ticks.len() > 0 && ticks[0].before(moment) {
        1 + passed_ticks(ticks.skip(1), moment)
    } else {
        0
    }
}

impl AuraEffectModel {
    /// The periodic hits this sub-effect owes at `moment`.
    pub open spec fn due(self, moment: Moment) -> nat {
        match self {
            AuraEffectModel::DoT { ticks, .. } => passed_ticks(ticks, moment),
            _ => 0,
        }
    }

    /// The sub-effect once the ticks that `moment` has passed are consumed.
    pub open spec fn consumed(self, moment: Moment) -> AuraEffectModel {
        match self {
            AuraEffectModel::DoT { id, ticks, potency, skill_type, damage_type } => {
                AuraEffectModel::DoT {
                    id,
                    ticks: ticks.skip(passed_ticks(ticks, moment) as int),
                    potency,
                    skill_type,
                    damage_type,
                }
            },
            _ => self,
        }
    }
}

impl View for AuraEffect {
    type V = AuraEffectModel;

    open spec fn view(&self) -> AuraEffectModel {
        match *self {
            AuraEffect::DoT { id, ticks, potency, skill_type, damage_type } => {
                AuraEffectModel::DoT { id, ticks: ticks@, potency, skill_type, damage_type }
            },
            AuraEffect::DamageModifier { damage_type, modifier } => {
                AuraEffectModel::DamageModifier { damage_type: damage_type@, modifier: modifier as int }
            },
            AuraEffect::PotencyModifier { damage_type, modifier } => {
                AuraEffectModel::PotencyModifier {
                    damage_type: damage_type@,
                    modifier: modifier as int,
                }
            },
        }
    }
}

/// `passed_ticks` never counts more ticks than are pending, every counted
/// tick lies before `moment`, and the first tick left, if any, does not.
pub proof fn lemma_passed_ticks(ticks: Seq<Moment>, moment: Moment)
    ensures
        passed_ticks(ticks, moment) <= ticks.len(),
        forall|i: int| 0 <= i < passed_ticks(ticks, moment) ==> (#[trigger] ticks[i]).before(moment),
        passed_ticks(ticks, moment) < ticks.len() ==> !ticks[passed_ticks(ticks, moment) as int].before(
            moment,
        ),
    decreases ticks.len(),
{
    if ticks.len() > 0 && ticks[0].before(moment) {
        let rest = ticks.skip(1);
        lemma_passed_ticks(rest, moment);
        let n = passed_ticks(ticks, moment);
        assert forall|i: int| 0 <= i < n implies (#[trigger] ticks[i]).before(moment) by {
            if i > 0 {
                assert(ticks[i] == rest[i - 1]);
            }
        }
    }
}

impl Clone for AuraEffect {
    fn clone(&self) -> (r: AuraEffect)
        ensures
            r@ == self@,
    {
        match self {
            AuraEffect::DoT { id, ticks, potency, skill_type, damage_type } => AuraEffect::DoT {
                id: *id,
                ticks: copy_vec(ticks),
                potency: *potency,
                skill_type: *skill_type,
                damage_type: *damage_type,
            },
            AuraEffect::DamageModifier { damage_type, modifier } => AuraEffect::DamageModifier {
                damage_type: copy_vec(damage_type),
                modifier: *modifier,
            },
            AuraEffect::PotencyModifier { damage_type, modifier } => AuraEffect::PotencyModifier {
                damage_type: copy_vec(damage_type),
                modifier: *modifier,
            },
        }
    }
}

} // verus!
