//! The per-entity state machine: what an entity does at a given moment,
//! computed from a roster that it only reads.
use crate::action::{Action, ConditionalAction};
use crate::aura::{lemma_passed_ticks, passed_ticks, AuraEffect, AuraEffectModel};
use crate::effect::{
    effect_models, lemma_effect_models_add, lemma_effect_models_push, Effect, EffectModel,
};
use crate::entity::{
    aura_effect_models, entity_models, lemma_aura_model, lemma_entity_auras, with_id, Aura,
    AuraModel, Entity, EntityModel, Status, StatusModel,
};
use crate::error::SimError;
use crate::moment::Moment;
use crate::rules::{is_generated, lemma_generators_keep_to_their_kinds, target_models};
use crate::seqs::{first_match, lemma_filter_none, lemma_first_match_at};
use vstd::prelude::*;

verus! {

/// Picks the actions with one id.
pub open spec fn with_action_id(id: u32) -> spec_fn(Action) -> bool {
    |a: Action| a.id == id
}

impl AuraModel {
    /// The periodic hit that one damage-over-time sub-effect deals.
    pub open spec fn hit(self, effect: AuraEffectModel) -> EffectModel {
        match effect {
            AuraEffectModel::DoT { potency, skill_type, damage_type, .. } => EffectModel::Damage {
                source: self.source,
                target: self.target,
                action: self.id,
                potency,
                skill_type,
                damage_type,
                periodic: true,
            },
            _ => arbitrary(),
        }
    }

    /// The hits that one sub-effect owes at `moment`: one for each pending
    /// tick the moment has passed.
    pub open spec fn hits_of(self, effect: AuraEffectModel, moment: Moment) -> Seq<EffectModel> {
        Seq::new(effect.due(moment), |i: int| self.hit(effect))
    }

    /// The hits owed by the first `upto` sub-effects, in order.
    pub open spec fn hits(self, moment: Moment, upto: int) -> Seq<EffectModel>
        decreases upto,
    {
        if upto <= 0 {
            Seq::empty()
        } else {
            self.hits(moment, upto - 1) + self.hits_of(self.effects[upto - 1], moment)
        }
    }

    /// The aura once every tick that `moment` has passed is consumed.
    pub open spec fn consumed(self, moment: Moment) -> AuraModel {
        AuraModel {
            effects: Seq::new(self.effects.len(), |i: int| self.effects[i].consumed(moment)),
            ..self
        }
    }
}

/// The hits owed at `moment` by the first `upto` of a list of auras.
pub open spec fn hits_upto(auras: Seq<AuraModel>, moment: Moment, upto: int) -> Seq<EffectModel>
    decreases upto,
{
    if upto <= 0 {
        Seq::empty()
    } else {
        hits_upto(auras, moment, upto - 1) + auras[upto - 1].hits(
            moment,
            auras[upto - 1].effects.len() as int,
        )
    }
}

impl EntityModel {
    /// The action that the catalog lists under an id.
    pub open spec fn known_action(self, spell: u32) -> Option<Action> {
        first_match(self.catalog, with_action_id(spell))
    }

    /// What a decision-list entry comes to: its action and target, if the
    /// action is in the catalog and available, and the selector names an
    /// entity that is in the roster.
    pub open spec fn offer(self, entry: ConditionalAction, roster: Seq<EntityModel>) -> Option<
        (Action, EntityModel),
    > {
        match entry {
            ConditionalAction::Cast { spell, selector } => match self.known_action(spell) {
                Some(action) => if action.available.holds(self) {
                    match selector.pick(self, roster) {
                        Some(id) => match first_match(roster, with_id(id)) {
                            Some(target) => Some((action, target)),
                            None => None,
                        },
                        None => None,
                    }
                } else {
                    None
                },
                None => None,
            },
        }
    }

    /// The first entry at or after `from` that comes to something.
    pub open spec fn choice(self, roster: Seq<EntityModel>, from: int) -> Option<
        (Action, EntityModel),
    >
        decreases self.decisions.len() - from,
    {
        if from < 0 || from >= self.decisions.len() {
            None
        } else {
            match self.offer(self.decisions[from], roster) {
                Some(found) => Some(found),
                None => self.choice(roster, from + 1),
            }
        }
    }

    /// What ends an action: an animation lock if the action has an
    /// animation delay, else idling, from `at` on.
    pub open spec fn closing(self, action: Action, at: Moment) -> EffectModel {
        match action.animation_delay {
            Some(delay) => EffectModel::BeginAnimationLock {
                action,
                target: self,
                start: at,
                duration: delay,
            },
            None => EffectModel::BeginIdle { target: self, start: at },
        }
    }

    /// What using `action` on `target` at `moment` produces: the start of
    /// a cast if the action takes time, else its effects and its closing.
    pub open spec fn perform(self, action: Action, target: EntityModel, moment: Moment) -> Seq<
        EffectModel,
    > {
        let cast_time = (*action.cast_time).eval(self);
        if (Moment { s: 0, m: 0 }).before(cast_time) {
            seq![EffectModel::BeginCast { source: self, target, action, duration: cast_time }]
        } else {
            (*action.effect).eval(self, seq![target]).push(self.closing(action, moment))
        }
    }

    /// What the entity's status gives rise to at `moment`.
    pub open spec fn status_effects(self, moment: Moment, roster: Seq<EntityModel>) -> Seq<
        EffectModel,
    > {
        match self.status {
            StatusModel::AnimationLocked { end_time, .. } => if end_time.at_or_before(moment) {
                seq![EffectModel::BeginIdle { target: self, start: moment }]
            } else {
                Seq::empty()
            },
            StatusModel::Casting { source, target, spell, end_time, .. } => if end_time.at_or_before(
                moment,
            ) {
                (*spell.effect).eval(*source, seq![*target]).push(self.closing(spell, end_time))
            } else {
                Seq::empty()
            },
            StatusModel::Idle { start_time } => if start_time.at_or_before(moment) {
                match self.choice(roster, 0) {
                    Some((action, target)) => self.perform(action, target, moment),
                    None => Seq::empty(),
                }
            } else {
                Seq::empty()
            },
        }
    }

    /// The periodic hits that the attached auras owe at `moment`.
    pub open spec fn dot_effects(self, moment: Moment) -> Seq<EffectModel> {
        hits_upto(self.auras, moment, self.auras.len() as int)
    }

    /// Everything the entity produces at `moment`: what its status gives
    /// rise to, then the periodic hits of its auras.
    pub open spec fn effects_at(self, moment: Moment, roster: Seq<EntityModel>) -> Seq<EffectModel> {
        self.status_effects(moment, roster) + self.dot_effects(moment)
    }

    /// The entity once every tick that `moment` has passed is consumed.
    pub open spec fn with_dots_consumed(self, moment: Moment) -> EntityModel {
        EntityModel {
            auras: Seq::new(self.auras.len(), |i: int| self.auras[i].consumed(moment)),
            ..self
        }
    }
}

impl AuraEffect {
    /// How many periodic hits the sub-effect owes at `moment`.
    pub fn due_hits(&self, moment: &Moment) -> (r: usize)
        ensures
            r == self@.due(*moment),
    {
        match self {
            AuraEffect::DoT { ticks, .. } => {
                let mut i: usize = 0;
                assert(ticks@.skip(0) == ticks@);
                while i < ticks.len() && ticks[i].is_before(moment)
                    invariant
                        i <= ticks.len(),
                        passed_ticks(ticks@, *moment) == i + passed_ticks(ticks@.skip(i as int), *moment),
                    decreases ticks.len() - i,
                {
                    assert(ticks@.skip(i as int).skip(1) == ticks@.skip(i + 1));
                    i += 1;
                }
                i
            },
            _ => 0,
        }
    }

    /// Drops the pending ticks that `moment` has passed.
    pub fn consume(&mut self, moment: &Moment)
        ensures
            final(self)@ == old(self)@.consumed(*moment),
    {
        let n = self.due_hits(moment);
        match self {
            AuraEffect::DoT { ticks, .. } => {
                let ghost before = ticks@;
                proof {
                    lemma_passed_ticks(before, *moment);
                }
                let mut rest: Vec<Moment> = Vec::new();
                let mut i: usize = n;
                while i < ticks.len()
                    invariant
                        n <= i <= ticks.len(),
                        ticks@ == before,
                        rest@ == before.subrange(n as int, i as int),
                    decreases ticks.len() - i,
                {
                    rest.push(ticks[i]);
                    i += 1;
                }
                *ticks = rest;
            },
            _ => {},
        }
    }
}

impl Aura {
    /// The periodic hits the aura owes at `moment`.
    pub fn dot_hits(&self, moment: &Moment) -> (r: Vec<Effect>)
        ensures
            effect_models(r@) == self@.hits(*moment, self@.effects.len() as int),
    {
        proof {
            lemma_aura_model(*self);
        }
        let mut out: Vec<Effect> = Vec::new();
        let mut i: usize = 0;
        while i < self.effects.len()
            invariant
                i <= self.effects.len(),
                self@.effects == aura_effect_models(self.effects@),
                self@.source == self.source@,
                self@.target == self.target@,
                self@.id == self.id,
                effect_models(out@) == self@.hits(*moment, i as int),
            decreases self.effects.len() - i,
        {
            let n = self.effects[i].due_hits(moment);
            let ghost model = self.effects@[i as int]@;
            let ghost so_far = out@;
            let mut k: usize = 0;
            while k < n
                invariant
                    k <= n,
                    i < self.effects.len(),
                    n == model.due(*moment),
                    model == self.effects@[i as int]@,
                    self@.source == self.source@,
                    self@.target == self.target@,
                    self@.id == self.id,
                    out@.len() == so_far.len() + k,
                    forall|j: int| 0 <= j < so_far.len() ==> out@[j] == so_far[j],
                    forall|j: int|
                        so_far.len() <= j < out@.len() ==> (#[trigger] out@[j])@ == self@.hit(model),
                decreases n - k,
            {
                match &self.effects[i] {
                    AuraEffect::DoT { potency, skill_type, damage_type, .. } => {
                        out.push(
                            Effect::Damage {
                                source: self.source.snapshot(),
                                target: self.target.snapshot(),
                                action: self.id,
                                potency: *potency,
                                skill_type: *skill_type,
                                damage_type: *damage_type,
                                periodic: true,
                            },
                        );
                    },
                    _ => {},
                }
                k += 1;
            }
            i += 1;
        }
        out
    }

    /// Drops, in every sub-effect, the pending ticks that `moment` has
    /// passed.
    pub fn consume_dots(&mut self, moment: &Moment)
        ensures
            final(self)@ == old(self)@.consumed(*moment),
    {
        let mut i: usize = 0;
        while i < self.effects.len()
            invariant
                i <= self.effects.len(),
                self.effects.len() == old(self).effects.len(),
                *self == (Aura { effects: self.effects, ..*old(self) }),
                forall|j: int|
                    0 <= j < i ==> (#[trigger] self.effects@[j])@ == old(self).effects@[j]@.consumed(
                        *moment,
                    ),
                forall|j: int| i <= j < self.effects.len() ==> self.effects@[j] == old(self).effects@[j],
            decreases self.effects.len() - i,
        {
            self.effects[i].consume(moment);
            i += 1;
        }
        proof {
            lemma_aura_model(*self);
            lemma_aura_model(*old(self));
            assert(self@.effects =~= old(self)@.consumed(*moment).effects);
        }
    }
}

/// Where the entity with this id stands in a roster.
pub fn find_entity(roster: &Vec<Entity>, id: u128) -> (r: Option<usize>)
    ensures
        match r {
            Some(i) => i < roster.len() && roster@[i as int].id == id && first_match(
                entity_models(roster@),
                with_id(id),
            ) == Some(roster@[i as int]@) && forall|j: int| 0 <= j < i ==> roster@[j].id != id,
            None => first_match(entity_models(roster@), with_id(id)) is None && forall|j: int|
                0 <= j < roster.len() ==> roster@[j].id != id,
        },
{
    let ghost models = entity_models(roster@);
    let mut i: usize = 0;
    while i < roster.len()
        invariant
            i <= roster.len(),
            models == entity_models(roster@),
            forall|j: int| 0 <= j < i ==> roster@[j].id != id,
        decreases roster.len() - i,
    {
        if roster[i].id == id {
            proof {
                assert forall|j: int| 0 <= j < i implies !with_id(id)(#[trigger] models[j]) by {}
                lemma_first_match_at(models, with_id(id), i as int);
            }
            return Some(i);
        }
        i += 1;
    }
    proof {
        assert forall|j: int| 0 <= j < models.len() implies !with_id(id)(#[trigger] models[j]) by {}
        lemma_filter_none(models, with_id(id));
    }
    None
}

impl Entity {
    /// Where the catalog lists an action under this id.
    pub fn find_action(&self, spell: u32) -> (r: Option<usize>)
        ensures
            match r {
                Some(i) => i < self@.catalog.len() && self@.known_action(spell) == Some(
                    self@.catalog[i as int],
                ),
                None => self@.known_action(spell) is None,
            },
    {
        let catalog: &Vec<Action> = &self.action_repository;
        let mut i: usize = 0;
        while i < catalog.len()
            invariant
                i <= catalog.len(),
                catalog@ == self@.catalog,
                forall|j: int| 0 <= j < i ==> !with_action_id(spell)(#[trigger] catalog@[j]),
            decreases catalog.len() - i,
        {
            if catalog[i].id == spell {
                proof {
                    lemma_first_match_at(catalog@, with_action_id(spell), i as int);
                }
                return Some(i);
            }
            i += 1;
        }
        proof {
            lemma_filter_none(catalog@, with_action_id(spell));
        }
        None
    }

    /// What one decision-list entry comes to: where its action stands in
    /// the catalog and its target in the roster.
    fn weigh(&self, entry: &ConditionalAction, roster: &Vec<Entity>) -> (r: Option<(usize, usize)>)
        ensures
            match r {
                Some((a, t)) => a < self@.catalog.len() && t < roster.len() && self@.offer(
                    *entry,
                    entity_models(roster@),
                ) == Some((self@.catalog[a as int], roster@[t as int]@)),
                None => self@.offer(*entry, entity_models(roster@)) is None,
            },
    {
        match entry {
            ConditionalAction::Cast { spell, selector } => {
                match self.find_action(*spell) {
                    Some(a) => {
                        let catalog: &Vec<Action> = &self.action_repository;
                        if catalog[a].available.check(self) {
                            match selector.select(self, roster) {
                                Some(id) => match find_entity(roster, id) {
                                    Some(t) => Some((a, t)),
                                    None => None,
                                },
                                None => None,
                            }
                        } else {
                            None
                        }
                    },
                    None => None,
                }
            },
        }
    }

    /// The first decision-list entry that comes to something.
    pub fn decide(&self, roster: &Vec<Entity>) -> (r: Option<(usize, usize)>)
        ensures
            match r {
                Some((a, t)) => a < self@.catalog.len() && t < roster.len() && self@.choice(
                    entity_models(roster@),
                    0,
                ) == Some((self@.catalog[a as int], roster@[t as int]@)),
                None => self@.choice(entity_models(roster@), 0) is None,
            },
    {
        let ghost models = entity_models(roster@);
        let mut i: usize = 0;
        while i < self.action_list.len()
            invariant
                i <= self.action_list.len(),
                models == entity_models(roster@),
                self@.choice(models, 0) == self@.choice(models, i as int),
            decreases self.action_list.len() - i,
        {
            match self.weigh(&self.action_list[i], roster) {
                Some(found) => {
                    return Some(found);
                },
                None => {},
            }
            i += 1;
        }
        None
    }

    /// The effect that ends an action.
    fn close(&self, action: &Action, at: Moment) -> (r: Effect)
        ensures
            r@ == self@.closing(*action, at),
    {
        match action.animation_delay {
            Some(delay) => Effect::BeginAnimationLock {
                action: action.clone(),
                target: self.snapshot(),
                start: at,
                duration: delay,
            },
            None => Effect::BeginIdle { target: self.snapshot(), start: at },
        }
    }

    /// The periodic hits that the attached auras owe at `moment`: for each
    /// aura, oldest first, and each of its damage-over-time sub-effects,
    /// one hit per pending tick that lies before `moment`. Nothing is
    /// consumed; see [`Entity::consume_dots`].
    pub fn process_dots(&self, moment: Moment) -> (r: Vec<Effect>)
        ensures
            effect_models(r@) == self@.dot_effects(moment),
    {
        proof {
            lemma_entity_auras(*self);
        }
        let mut out: Vec<Effect> = Vec::new();
        let mut i: usize = 0;
        while i < self.auras.len()
            invariant
                i <= self.auras.len(),
                self@.auras.len() == self.auras.len(),
                forall|j: int| 0 <= j < self.auras.len() ==> self@.auras[j] == self.auras@[j]@,
                effect_models(out@) == hits_upto(self@.auras, moment, i as int),
            decreases self.auras.len() - i,
        {
            let mut more = self.auras[i].dot_hits(&moment);
            proof {
                lemma_effect_models_add(out@, more@);
            }
            out.append(&mut more);
            i += 1;
        }
        out
    }

    /// Drops, from every aura, the pending ticks that `moment` has passed:
    /// the ticks for which [`Entity::process_dots`] reports a hit.
    pub fn consume_dots(&mut self, moment: Moment)
        ensures
            final(self)@ == old(self)@.with_dots_consumed(moment),
    {
        let mut i: usize = 0;
        while i < self.auras.len()
            invariant
                i <= self.auras.len(),
                self.auras.len() == old(self).auras.len(),
                *self == (Entity { auras: self.auras, ..*old(self) }),
                forall|j: int|
                    0 <= j < i ==> (#[trigger] self.auras@[j])@ == old(self).auras@[j]@.consumed(moment),
                forall|j: int| i <= j < self.auras.len() ==> self.auras@[j] == old(self).auras@[j],
            decreases self.auras.len() - i,
        {
            self.auras[i].consume_dots(&moment);
            i += 1;
        }
        proof {
            lemma_entity_auras(*self);
            lemma_entity_auras(*old(self));
            assert(self@.auras =~= old(self)@.with_dots_consumed(moment).auras);
        }
    }

    /// What the entity does at `moment`, given the roster as it stands.
    /// Nothing is changed: the result only describes what should happen.
    pub fn effects_at(&self, moment: Moment, entities: &Vec<Entity>) -> (r: Result<
        Vec<Effect>,
        SimError,
    >)
        ensures
            r matches Ok(effects) && effect_models(effects@) == self@.effects_at(
                moment,
                entity_models(entities@),
            ),
    {
        let mut new_effects: Vec<Effect> = Vec::new();
        match &self.status {
            Status::AnimationLocked { end_time, .. } => {
                if end_time.is_at_or_before(&moment) {
                    let idle = Effect::BeginIdle { target: self.snapshot(), start: moment };
                    proof {
                        lemma_effect_models_push(new_effects@, idle);
                    }
                    new_effects.push(idle);
                }
            },
            Status::Casting { source, target, spell, end_time, .. } => {
                if end_time.is_at_or_before(&moment) {
                    let targets: Vec<&Entity> = vec![&**target];
                    assert(target_models(targets@) =~= seq![target@]);
                    new_effects = spell.effect.generate(source, &targets);
                    let last = self.close(spell, *end_time);
                    proof {
                        lemma_effect_models_push(new_effects@, last);
                    }
                    new_effects.push(last);
                }
            },
            Status::Idle { start_time } => {
                if start_time.is_at_or_before(&moment) {
                    match self.decide(entities) {
                        Some((a, t)) => {
                            let catalog: &Vec<Action> = &self.action_repository;
                            let action = &catalog[a];
                            let cast_time = action.cast_time.cast_time(self);
                            if Moment::zero().is_before(&cast_time) {
                                let cast = Effect::BeginCast {
                                    source: self.snapshot(),
                                    target: entities[t].snapshot(),
                                    action: action.clone(),
                                    duration: cast_time,
                                };
                                proof {
                                    lemma_effect_models_push(new_effects@, cast);
                                }
                                new_effects.push(cast);
                            } else {
                                let targets: Vec<&Entity> = vec![&entities[t]];
                                assert(target_models(targets@) =~= seq![entities@[t as int]@]);
                                new_effects = action.effect.generate(self, &targets);
                                let last = self.close(action, moment);
                                proof {
                                    lemma_effect_models_push(new_effects@, last);
                                }
                                new_effects.push(last);
                            }
                        },
                        None => {},
                    }
                }
            },
        }
        let mut dots = self.process_dots(moment);
        proof {
            lemma_effect_models_add(new_effects@, dots@);
        }
        new_effects.append(&mut dots);
        Ok(new_effects)
    }
}

/// Ticks are consumed one for one: a damage-over-time sub-effect owes one
/// hit for each pending tick before `moment`, consuming removes exactly
/// those ticks from the front, and once they are consumed nothing more is
/// owed at that moment.
pub proof fn lemma_ticks_are_consumed_one_for_one(
    aura: AuraModel,
    effect: AuraEffectModel,
    moment: Moment,
)
    requires
        effect is DoT,
    ensures
        aura.hits_of(effect, moment).len() == passed_ticks(effect->ticks, moment),
        effect.consumed(moment) is DoT,
        effect.consumed(moment)->ticks == effect->ticks.skip(
            passed_ticks(effect->ticks, moment) as int,
        ),
        effect->ticks.len() == passed_ticks(effect->ticks, moment) + effect.consumed(
            moment,
        )->ticks.len(),
        effect.consumed(moment).due(moment) == 0,
        aura.hits_of(effect.consumed(moment), moment).len() == 0,
{
    lemma_passed_ticks(effect->ticks, moment);
}

/// What an entity does at a moment is a function of its value and of the
/// values in the roster: two evaluations on the same state and moment give
/// the same effects, and neither fails.
pub proof fn lemma_effects_at_is_determined(
    a: Entity,
    b: Entity,
    moment: Moment,
    roster_a: Vec<Entity>,
    roster_b: Vec<Entity>,
    first: Result<Vec<Effect>, SimError>,
    second: Result<Vec<Effect>, SimError>,
)
    requires
        a@ == b@,
        entity_models(roster_a@) == entity_models(roster_b@),
        call_ensures(Entity::effects_at, (&a, moment, &roster_a), first),
        call_ensures(Entity::effects_at, (&b, moment, &roster_b), second),
    ensures
        first is Ok,
        second is Ok,
        effect_models(first->Ok_0@) == effect_models(second->Ok_0@),
{
}

/// A periodic hit.
pub open spec fn is_periodic_hit(effect: EffectModel) -> bool {
    effect matches EffectModel::Damage { periodic, .. } && periodic
}

/// An effect that gives `e` itself a new status.
pub open spec fn is_own_status_change(e: EntityModel, effect: EffectModel) -> bool {
    match effect {
        EffectModel::BeginIdle { target, .. } => target.id == e.id,
        EffectModel::BeginCast { source, .. } => source.id == e.id,
        EffectModel::BeginAnimationLock { target, .. } => target.id == e.id,
        _ => false,
    }
}

impl EntityModel {
    /// Where, among the effects of the entity at `moment`, the hits of
    /// sub-effect `j` of aura `i` begin: behind what the status gives rise
    /// to, the hits of the auras before `i`, and the hits of the
    /// sub-effects of aura `i` before `j`.
    pub open spec fn hits_offset(self, moment: Moment, roster: Seq<EntityModel>, i: int, j: int) -> int {
        (self.status_effects(moment, roster).len() + hits_upto(self.auras, moment, i).len()
            + self.auras[i].hits(moment, j).len()) as int
    }
}

/// What an entity's status gives rise to is what a generator produces or
/// a change of the entity's own status: never a periodic hit, and never a
/// new status for another entity.
pub proof fn lemma_status_effects_keep_to_their_kinds(
    e: EntityModel,
    moment: Moment,
    roster: Seq<EntityModel>,
)
    ensures
        forall|k: int|
            0 <= k < e.status_effects(moment, roster).len() ==> is_generated(
                #[trigger] e.status_effects(moment, roster)[k],
            ) || is_own_status_change(e, e.status_effects(moment, roster)[k]),
{
    match e.status {
        StatusModel::Casting { source, target, spell, end_time, .. } => {
            lemma_generators_keep_to_their_kinds(&*spell.effect, *source, seq![*target]);
        },
        StatusModel::Idle { start_time } => {
            if start_time.at_or_before(moment) && e.choice(roster, 0) is Some {
                let (action, target) = e.choice(roster, 0)->Some_0;
                lemma_generators_keep_to_their_kinds(&*action.effect, e, seq![target]);
            }
        },
        _ => {},
    }
}

/// The hits of an aura's first sub-effects come first among the hits of
/// more of its sub-effects.
pub proof fn lemma_hits_grow(aura: AuraModel, moment: Moment, fewer: int, more: int)
    requires
        0 <= fewer <= more,
    ensures
        aura.hits(moment, fewer).is_prefix_of(aura.hits(moment, more)),
    decreases more - fewer,
{
    if fewer < more {
        lemma_hits_grow(aura, moment, fewer, more - 1);
    }
}

/// The hits of the first auras come first among the hits of more auras.
pub proof fn lemma_hits_upto_grow(auras: Seq<AuraModel>, moment: Moment, fewer: int, more: int)
    requires
        0 <= fewer <= more,
    ensures
        hits_upto(auras, moment, fewer).is_prefix_of(hits_upto(auras, moment, more)),
    decreases more - fewer,
{
    if fewer < more {
        lemma_hits_upto_grow(auras, moment, fewer, more - 1);
    }
}

/// Every damage-over-time sub-effect has its own place among the effects
/// of its entity, whatever the entity's status and however many auras and
/// sub-effects it carries: the hits that the sub-effect owes stand
/// together at its offset, one for each pending tick that the moment has
/// passed.
pub proof fn lemma_hits_have_their_place(
    e: EntityModel,
    moment: Moment,
    roster: Seq<EntityModel>,
    i: int,
    j: int,
)
    requires
        0 <= i < e.auras.len(),
        0 <= j < e.auras[i].effects.len(),
    ensures
        e.hits_offset(moment, roster, i, j) + e.auras[i].effects[j].due(moment) <= e.effects_at(
            moment,
            roster,
        ).len(),
        e.effects_at(moment, roster).subrange(
            e.hits_offset(moment, roster, i, j),
            e.hits_offset(moment, roster, i, j) + e.auras[i].effects[j].due(moment),
        ) == e.auras[i].hits_of(e.auras[i].effects[j], moment),
        forall|p: int|
            e.hits_offset(moment, roster, i, j) <= p < e.hits_offset(moment, roster, i, j)
                + e.auras[i].effects[j].due(moment) ==> #[trigger] e.effects_at(moment, roster)[p]
                == e.auras[i].hit(e.auras[i].effects[j]),
{
    let aura = e.auras[i];
    let effect = aura.effects[j];
    let own = aura.hits_of(effect, moment);
    let status = e.status_effects(moment, roster);
    let earlier = hits_upto(e.auras, moment, i);
    let within = aura.hits(moment, j);
    let all = e.effects_at(moment, roster);
    lemma_hits_grow(aura, moment, j + 1, aura.effects.len() as int);
    lemma_hits_upto_grow(e.auras, moment, i + 1, e.auras.len() as int);
    let of_aura = aura.hits(moment, aura.effects.len() as int);
    let through = hits_upto(e.auras, moment, i + 1);
    assert(aura.hits(moment, j + 1) == within + own);
    assert(through == earlier + of_aura);
    let base = e.hits_offset(moment, roster, i, j);
    assert forall|p: int| base <= p < base + own.len() implies #[trigger] all[p] == own[p - base]
        && own[p - base] == aura.hit(effect) by {
        let k = p - base;
        assert(aura.hits(moment, j + 1)[within.len() + k] == own[k]);
        assert(of_aura[within.len() + k] == own[k]);
        assert(through[earlier.len() + within.len() + k] == own[k]);
        assert(e.dot_effects(moment)[earlier.len() + within.len() + k] == own[k]);
    }
    assert(all.subrange(base, base + own.len()) =~= own);
}

/// When the moment has passed the first pending tick of a damage-over-time
/// sub-effect and no further one, the sub-effect owes exactly one hit: the
/// entity's effects hold, at the sub-effect's offset, one periodic hit
/// from the aura's source on the aura's target; the hits of the next
/// sub-effect begin one place further on; and consuming leaves the ticks
/// behind the first.
pub proof fn lemma_one_passed_tick_owes_one_hit(
    e: EntityModel,
    moment: Moment,
    roster: Seq<EntityModel>,
    i: int,
    j: int,
)
    requires
        0 <= i < e.auras.len(),
        0 <= j < e.auras[i].effects.len(),
        e.auras[i].effects[j] is DoT,
        e.auras[i].effects[j]->ticks.len() > 0,
        e.auras[i].effects[j]->ticks[0].before(moment),
        e.auras[i].effects[j]->ticks.len() > 1 ==> !e.auras[i].effects[j]->ticks[1].before(moment),
    ensures
        e.auras[i].effects[j].due(moment) == 1,
        e.auras[i].hits_of(e.auras[i].effects[j], moment) == seq![
            e.auras[i].hit(e.auras[i].effects[j]),
        ],
        e.hits_offset(moment, roster, i, j) < e.effects_at(moment, roster).len(),
        e.effects_at(moment, roster)[e.hits_offset(moment, roster, i, j)] == e.auras[i].hit(
            e.auras[i].effects[j],
        ),
        is_periodic_hit(e.auras[i].hit(e.auras[i].effects[j])),
        e.auras[i].hit(e.auras[i].effects[j]) matches EffectModel::Damage { source, target, action, .. }
            && source == e.auras[i].source && target == e.auras[i].target && action
            == e.auras[i].id,
        e.hits_offset(moment, roster, i, j + 1) == e.hits_offset(moment, roster, i, j) + 1,
        e.auras[i].effects[j].consumed(moment)->ticks == e.auras[i].effects[j]->ticks.skip(1),
{
    let ticks = e.auras[i].effects[j]->ticks;
    assert(passed_ticks(ticks, moment) == 1) by {
        reveal_with_fuel(passed_ticks, 2);
        if ticks.len() > 1 {
            assert(ticks.skip(1)[0] == ticks[1]);
        }
    }
    lemma_hits_have_their_place(e, moment, roster, i, j);
    assert(e.auras[i].hits_of(e.auras[i].effects[j], moment) =~= seq![
        e.auras[i].hit(e.auras[i].effects[j]),
    ]);
}

} // verus!
