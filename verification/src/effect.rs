//! Effects: descriptions of a change to the world. An effect never applies
//! itself; the engine does.
use crate::action::Action;
use crate::aura::{DamageType, SkillType};
use crate::entity::{Entity, EntityModel};
use crate::moment::Moment;
use vstd::prelude::*;

verus! {

/// A pending change. The entities inside are records of the participants
/// as they were when the effect was generated; the engine finds the live
/// entity by the record's id.
///
/// A cast and an aura run from the time at which the engine applies the
/// effect, for the effect's `duration`. An animation lock runs from the
/// effect's own `start`, the moment at which the action resolved, for its
/// `duration`; idling runs from the effect's `start`.
#[derive(Debug)]
#[allow(inconsistent_fields)]
pub enum Effect {
    ApplyAura { source: Entity, target: Entity, aura: u32, duration: Moment },
    RemoveAura { source: Entity, target: Entity, aura: u32 },
    Damage {
        source: Entity,
        target: Entity,
        action: u32,
        potency: u32,
        skill_type: SkillType,
        damage_type: DamageType,
        periodic: bool,
    },
    ModifyResource { target: Entity, resource: String, amount: i32 },
    BeginCast { source: Entity, target: Entity, action: Action, duration: Moment },
    BeginAnimationLock { action: Action, target: Entity, start: Moment, duration: Moment },
    BeginIdle { target: Entity, start: Moment },
}

/// The mathematical value of an [`Effect`].
#[allow(inconsistent_fields)]
pub enum EffectModel {
    ApplyAura { source: EntityModel, target: EntityModel, aura: u32, duration: Moment },
    RemoveAura { source: EntityModel, target: EntityModel, aura: u32 },
    Damage {
        source: EntityModel,
        target: EntityModel,
        action: u32,
        potency: u32,
        skill_type: SkillType,
        damage_type: DamageType,
        periodic: bool,
    },
    ModifyResource { target: EntityModel, resource: Seq<char>, amount: int },
    BeginCast { source: EntityModel, target: EntityModel, action: Action, duration: Moment },
    BeginAnimationLock { action: Action, target: EntityModel, start: Moment, duration: Moment },
    BeginIdle { target: EntityModel, start: Moment },
}

impl View for Effect {
    type V = EffectModel;

    open spec fn view(&self) -> EffectModel {
        match *self {
            Effect::ApplyAura { source, target, aura, duration } => EffectModel::ApplyAura {
                source: source@,
                target: target@,
                aura,
                duration,
            },
            Effect::RemoveAura { source, target, aura } => EffectModel::RemoveAura {
                source: source@,
                target: target@,
                aura,
            },
            Effect::Damage { source, target, action, potency, skill_type, damage_type, periodic } => {
                EffectModel::Damage {
                    source: source@,
                    target: target@,
                    action,
                    potency,
                    skill_type,
                    damage_type,
                    periodic,
                }
            },
            Effect::ModifyResource { target, resource, amount } => EffectModel::ModifyResource {
                target: target@,
                resource: resource@,
                amount: amount as int,
            },
            Effect::BeginCast { source, target, action, duration } => EffectModel::BeginCast {
                source: source@,
                target: target@,
                action,
                duration,
            },
            Effect::BeginAnimationLock { action, target, start, duration } => {
                EffectModel::BeginAnimationLock { action, target: target@, start, duration }
            },
            Effect::BeginIdle { target, start } => EffectModel::BeginIdle { target: target@, start },
        }
    }
}

/// The values of a list of effects, in order.
pub open spec fn effect_models(effects: Seq<Effect>) -> Seq<EffectModel> {
    Seq::new(effects.len(), |i: int| effects[i]@)
}

/// Appending to a list of effects appends to its value.
pub proof fn lemma_effect_models_push(effects: Seq<Effect>, effect: Effect)
    ensures
        effect_models(effects.push(effect)) == effect_models(effects).push(effect@),
{
}

/// Joining two lists of effects joins their values.
pub proof fn lemma_effect_models_add(a: Seq<Effect>, b: Seq<Effect>)
    ensures
        effect_models(a + b) == effect_models(a) + effect_models(b),
{
}

impl Clone for Effect {
    fn clone(&self) -> (r: Effect)
        ensures
            r@ == self@,
    {
        match self {
            Effect::ApplyAura { source, target, aura, duration } => Effect::ApplyAura {
                source: source.snapshot(),
                target: target.snapshot(),
                aura: *aura,
                duration: *duration,
            },
            Effect::RemoveAura { source, target, aura } => Effect::RemoveAura {
                source: source.snapshot(),
                target: target.snapshot(),
                aura: *aura,
            },
            Effect::Damage { source, target, action, potency, skill_type, damage_type, periodic } => {
                Effect::Damage {
                    source: source.snapshot(),
                    target: target.snapshot(),
                    action: *action,
                    potency: *potency,
                    skill_type: *skill_type,
                    damage_type: *damage_type,
                    periodic: *periodic,
                }
            },
            Effect::ModifyResource { target, resource, amount } => Effect::ModifyResource {
                target: target.snapshot(),
                resource: resource.clone(),
                amount: *amount,
            },
            Effect::BeginCast { source, target, action, duration } => Effect::BeginCast {
                source: source.snapshot(),
                target: target.snapshot(),
                action: action.clone(),
                duration: *duration,
            },
            Effect::BeginAnimationLock { action, target, start, duration } => {
                Effect::BeginAnimationLock {
                    action: action.clone(),
                    target: target.snapshot(),
                    start: *start,
                    duration: *duration,
                }
            },
            Effect::BeginIdle { target, start } => Effect::BeginIdle {
                target: target.snapshot(),
                start: *start,
            },
        }
    }
}

} // verus!
