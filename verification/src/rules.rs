//! What the named rules of an action mean, and how they are evaluated
//! against an actor.
use crate::action::{
    Action, AvailabilityRule, CastModifier, CastTimeRule, Generator, Recipient, TargetSelector,
};
use crate::effect::{effect_models, lemma_effect_models_add, Effect, EffectModel};
use crate::entity::{entity_models, with_name, Entity, EntityModel};
use crate::moment::Moment;
use crate::seqs::{first_match, lemma_filter_none, lemma_first_match_at};
use vstd::prelude::*;

verus! {

/// The values of a list of borrowed entities, in order.
pub open spec fn target_models(targets: Seq<&Entity>) -> Seq<EntityModel> {
    Seq::new(targets.len(), |i: int| targets[i]@)
}

impl AvailabilityRule {
    /// Whether the rule lets `actor` use the action.
    pub open spec fn holds(self, actor: EntityModel) -> bool {
        match self {
            AvailabilityRule::Always => true,
            AvailabilityRule::Never => false,
            AvailabilityRule::WithOwnAura(aura) => actor.own_aura(aura) is Some,
            AvailabilityRule::WithoutOwnAura(aura) => actor.own_aura(aura) is None,
        }
    }

    /// Whether the rule lets `actor` use the action.
    pub fn check(&self, actor: &Entity) -> (r: bool)
        ensures
            r == self.holds(actor@),
    {
        match self {
            AvailabilityRule::Always => true,
            AvailabilityRule::Never => false,
            AvailabilityRule::WithOwnAura(aura) => actor.find_own_aura(*aura).is_some(),
            AvailabilityRule::WithoutOwnAura(aura) => actor.find_own_aura(*aura).is_none(),
        }
    }
}

impl CastModifier {
    /// The cast time after this step, given the time computed so far.
    pub open spec fn apply(self, actor: EntityModel, so_far: Moment) -> Moment {
        match self {
            CastModifier::InstantWithOwnAura(aura) => if actor.own_aura(aura) is Some {
                Moment { s: 0, m: 0 }
            } else {
                so_far
            },
            CastModifier::Fixed(time) => time,
        }
    }

    /// The cast time after this step, given the time computed so far.
    pub fn adjust(&self, actor: &Entity, so_far: Moment) -> (r: Moment)
        ensures
            r == self.apply(actor@, so_far),
    {
        match self {
            CastModifier::InstantWithOwnAura(aura) => if actor.find_own_aura(*aura).is_some() {
                Moment::new(0, 0)
            } else {
                so_far
            },
            CastModifier::Fixed(time) => *time,
        }
    }
}

impl CastTimeRule {
    /// The cast time for `actor`: the base time, rewritten by each
    /// modifier in the order in which the modifiers were put on.
    pub open spec fn eval(&self, actor: EntityModel) -> Moment
        decreases self,
    {
        match *self {
            CastTimeRule::Base(time) => time,
            CastTimeRule::Modified { prior, modifier } => modifier.apply(actor, (*prior).eval(actor)),
        }
    }

    /// The cast time for `actor`.
    pub fn cast_time(&self, actor: &Entity) -> (r: Moment)
        ensures
            r == self.eval(actor@),
        decreases self,
    {
        match self {
            CastTimeRule::Base(time) => *time,
            CastTimeRule::Modified { prior, modifier } => {
                let so_far = prior.cast_time(actor);
                modifier.adjust(actor, so_far)
            },
        }
    }
}

impl Generator {
    /// Whom a leaf rule addresses.
    pub open spec fn recipients(self, actor: EntityModel, targets: Seq<EntityModel>) -> Seq<EntityModel> {
        match self {
            Generator::ApplyAura { recipient, .. }
            | Generator::RemoveAura { recipient, .. }
            | Generator::ModifyResource { recipient, .. } => match recipient {
                Recipient::Actor => seq![actor],
                Recipient::Targets => targets,
            },
            Generator::Damage { .. } => targets,
            _ => Seq::empty(),
        }
    }

    /// The one effect that a leaf rule produces for one recipient.
    pub open spec fn emit(self, actor: EntityModel, recipient: EntityModel) -> EffectModel {
        match self {
            Generator::ApplyAura { aura, duration, .. } => EffectModel::ApplyAura {
                source: actor,
                target: recipient,
                aura,
                duration,
            },
            Generator::RemoveAura { aura, .. } => EffectModel::RemoveAura {
                source: actor,
                target: recipient,
                aura,
            },
            Generator::Damage { action, potency, skill_type, damage_type } => EffectModel::Damage {
                source: actor,
                target: recipient,
                action,
                potency,
                skill_type,
                damage_type,
                periodic: false,
            },
            Generator::ModifyResource { resource, amount, .. } => EffectModel::ModifyResource {
                target: recipient,
                resource: resource@,
                amount: amount as int,
            },
            _ => arbitrary(),
        }
    }

    /// The effects the rule produces for `actor` acting on `targets`, in
    /// order. A leaf rule produces one effect per recipient; a sequence
    /// produces what its first part does, then what its second part does.
    pub open spec fn eval(&self, actor: EntityModel, targets: Seq<EntityModel>) -> Seq<EffectModel>
        decreases self,
    {
        match *self {
            Generator::Nothing => Seq::empty(),
            Generator::UnlessOwnAura { aura, inner } => if actor.own_aura(aura) is Some {
                Seq::empty()
            } else {
                (*inner).eval(actor, targets)
            },
            Generator::Sequence { first, second } => (*first).eval(actor, targets) + (*second).eval(
                actor,
                targets,
            ),
            _ => {
                let to = self.recipients(actor, targets);
                Seq::new(to.len(), |i: int| self.emit(actor, to[i]))
            },
        }
    }

    /// The effect of a leaf rule for one recipient.
    fn emit_for(&self, actor: &Entity, recipient: &Entity) -> (r: Effect)
        requires
            self is ApplyAura || self is RemoveAura || self is Damage || self is ModifyResource,
        ensures
            r@ == self.emit(actor@, recipient@),
    {
        match self {
            Generator::ApplyAura { aura, duration, .. } => Effect::ApplyAura {
                source: actor.snapshot(),
                target: recipient.snapshot(),
                aura: *aura,
                duration: *duration,
            },
            Generator::RemoveAura { aura, .. } => Effect::RemoveAura {
                source: actor.snapshot(),
                target: recipient.snapshot(),
                aura: *aura,
            },
            Generator::Damage { action, potency, skill_type, damage_type } => Effect::Damage {
                source: actor.snapshot(),
                target: recipient.snapshot(),
                action: *action,
                potency: *potency,
                skill_type: *skill_type,
                damage_type: *damage_type,
                periodic: false,
            },
            Generator::ModifyResource { resource, amount, .. } => Effect::ModifyResource {
                target: recipient.snapshot(),
                resource: resource.clone(),
                amount: *amount,
            },
            _ => vstd::pervasive::unreached(),
        }
    }

    /// Whether a leaf rule addresses the actor rather than the targets.
    fn addresses_actor(&self) -> (r: bool)
        ensures
            r == (match *self {
                Generator::ApplyAura { recipient, .. }
                | Generator::RemoveAura { recipient, .. }
                | Generator::ModifyResource { recipient, .. } => recipient == Recipient::Actor,
                _ => false,
            }),
    {
        match self {
            Generator::ApplyAura { recipient, .. } => matches!(recipient, Recipient::Actor),
            Generator::RemoveAura { recipient, .. } => matches!(recipient, Recipient::Actor),
            Generator::ModifyResource { recipient, .. } => matches!(recipient, Recipient::Actor),
            _ => false,
        }
    }

    /// Produces the effects of the rule for `actor` acting on `targets`.
    pub fn generate(&self, actor: &Entity, targets: &Vec<&Entity>) -> (r: Vec<Effect>)
        ensures
            effect_models(r@) == self.eval(actor@, target_models(targets@)),
        decreases self,
    {
        match self {
            Generator::Nothing => {
                let out: Vec<Effect> = Vec::new();
                out
            },
            Generator::UnlessOwnAura { aura, inner } => {
                if actor.find_own_aura(*aura).is_some() {
                    let out: Vec<Effect> = Vec::new();
                    out
                } else {
                    inner.generate(actor, targets)
                }
            },
            Generator::Sequence { first, second } => {
                let mut out = first.generate(actor, targets);
                let mut more = second.generate(actor, targets);
                proof {
                    lemma_effect_models_add(out@, more@);
                }
                out.append(&mut more);
                out
            },
            _ => {
                let mut out: Vec<Effect> = Vec::new();
                if self.addresses_actor() {
                    let one = self.emit_for(actor, actor);
                    out.push(one);
                } else {
                    let ghost to = target_models(targets@);
                    let mut i: usize = 0;
                    while i < targets.len()
                        invariant
                            i <= targets.len(),
                            self is ApplyAura || self is RemoveAura || self is Damage
                                || self is ModifyResource,
                            to == target_models(targets@),
                            out@.len() == i,
                            forall|k: int|
                                0 <= k < i ==> (#[trigger] out@[k])@ == self.emit(actor@, to[k]),
                        decreases targets.len() - i,
                    {
                        let one = self.emit_for(actor, targets[i]);
                        out.push(one);
                        i += 1;
                    }
                }
                out
            },
        }
    }
}

impl TargetSelector {
    /// The id the selector proposes, if any. The proposal need not be in
    /// the roster.
    pub open spec fn pick(self, actor: EntityModel, roster: Seq<EntityModel>) -> Option<u128> {
        match self {
            TargetSelector::Named(name) => match first_match(roster, with_name(name@)) {
                Some(e) => Some(e.id),
                None => None,
            },
            TargetSelector::Itself => Some(actor.id),
            TargetSelector::Id(id) => Some(id),
        }
    }

    /// The id the selector proposes, if any.
    pub fn select(&self, actor: &Entity, roster: &Vec<Entity>) -> (r: Option<u128>)
        ensures
            r == self.pick(actor@, entity_models(roster@)),
    {
        match self {
            TargetSelector::Named(name) => {
                let ghost models = entity_models(roster@);
                let mut i: usize = 0;
                while i < roster.len()
                    invariant
                        i <= roster.len(),
                        *self == TargetSelector::Named(*name),
                        models == entity_models(roster@),
                        forall|j: int| 0 <= j < i ==> !with_name(name@)(#[trigger] models[j]),
                    decreases roster.len() - i,
                {
                    if roster[i].name == *name {
                        proof {
                            lemma_first_match_at(models, with_name(name@), i as int);
                        }
                        return Some(roster[i].id);
                    }
                    i += 1;
                }
                proof {
                    lemma_filter_none(models, with_name(name@));
                }
                None
            },
            TargetSelector::Itself => Some(actor.id),
            TargetSelector::Id(id) => Some(*id),
        }
    }
}

/// Decorating an action's generator keeps what was there and appends: an
/// action extended first by `g1` and then by `g2` produces, for any actor
/// and targets, what its own generator produces, then what `g1` produces,
/// then what `g2` produces.
pub proof fn lemma_effect_modifiers_append_in_order(
    action: Action,
    g1: Generator,
    g2: Generator,
    actor: EntityModel,
    targets: Seq<EntityModel>,
)
    ensures
        (*action.extended(g1).extended(g2).effect).eval(actor, targets) == (*action.effect).eval(
            actor,
            targets,
        ) + g1.eval(actor, targets) + g2.eval(actor, targets),
        action.extended(g1).extended(g2) == (Action {
            effect: action.extended(g1).extended(g2).effect,
            ..action
        }),
{
    reveal_with_fuel(Generator::eval, 3);
}

/// Decorating an action's cast time feeds each modifier the result of all
/// modifiers put on before it: after `m1` then `m2`, the cast time is `m2`
/// applied to `m1` applied to the action's own cast time.
pub proof fn lemma_cast_modifiers_nest_in_order(
    action: Action,
    m1: CastModifier,
    m2: CastModifier,
    actor: EntityModel,
)
    ensures
        (*action.recast(m1).recast(m2).cast_time).eval(actor) == m2.apply(
            actor,
            m1.apply(actor, (*action.cast_time).eval(actor)),
        ),
{
    reveal_with_fuel(CastTimeRule::eval, 3);
}

/// What a generator can produce: an aura applied or removed, a resource
/// adjusted, or a hit that is not periodic. A generator never begins a
/// cast, a lock or idling, and never deals a periodic hit.
pub open spec fn is_generated(effect: EffectModel) -> bool {
    match effect {
        EffectModel::ApplyAura { .. } => true,
        EffectModel::RemoveAura { .. } => true,
        EffectModel::ModifyResource { .. } => true,
        EffectModel::Damage { periodic, .. } => !periodic,
        _ => false,
    }
}

/// Every effect that a generator produces is of a kind that generators
/// produce.
pub proof fn lemma_generators_keep_to_their_kinds(
    g: &Generator,
    actor: EntityModel,
    targets: Seq<EntityModel>,
)
    ensures
        forall|k: int|
            0 <= k < g.eval(actor, targets).len() ==> is_generated(
                #[trigger] g.eval(actor, targets)[k],
            ),
    decreases g,
{
    let made = g.eval(actor, targets);
    if g is UnlessOwnAura {
        lemma_generators_keep_to_their_kinds(&*g->inner, actor, targets);
        assert forall|k: int| 0 <= k < made.len() implies is_generated(#[trigger] made[k]) by {
            assert(made == g->inner.eval(actor, targets));
        }
    } else if g is Sequence {
        let first = g->first.eval(actor, targets);
        let second = g->second.eval(actor, targets);
        lemma_generators_keep_to_their_kinds(&*g->first, actor, targets);
        lemma_generators_keep_to_their_kinds(&*g->second, actor, targets);
        assert(made == first + second);
        assert forall|k: int| 0 <= k < made.len() implies is_generated(#[trigger] made[k]) by {
            if k < first.len() {
                assert(made[k] == first[k]);
            } else {
                assert(made[k] == second[k - first.len()]);
            }
        }
    } else if g is Nothing {
        assert(made.len() == 0);
    } else {
        let to = g.recipients(actor, targets);
        assert forall|k: int| 0 <= k < made.len() implies is_generated(#[trigger] made[k]) by {
            assert(made[k] == g.emit(actor, to[k]));
        }
    }
}

} // verus!
