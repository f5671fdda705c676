//! The tick driver: owns the roster and the logical clock, gathers what
//! every entity does next, applies it, and commits the new time.
use crate::decision::{find_entity, hits_upto, lemma_ticks_are_consumed_one_for_one};
use crate::effect::{effect_models, lemma_effect_models_add, Effect, EffectModel};
use crate::entity::{
    entity_models, not_removed, unexpired, with_id, Aura, AuraModel, Entity, EntityModel, Status,
    StatusModel,
};
use crate::error::SimError;
use crate::moment::{lemma_order_is_clock_order, lemma_sum_is_normalized, Moment};
use crate::seqs::{first_match, lemma_filter_none, lemma_first_match_at};
use vstd::prelude::*;

verus! {

/// The id of the entity that an effect changes; `None` for an effect that
/// changes no entity.
pub open spec fn subject(effect: EffectModel) -> Option<u128> {
    match effect {
        EffectModel::BeginIdle { target, .. } => Some(target.id),
        EffectModel::ApplyAura { target, .. } => Some(target.id),
        EffectModel::RemoveAura { target, .. } => Some(target.id),
        EffectModel::ModifyResource { target, .. } => Some(target.id),
        EffectModel::BeginAnimationLock { target, .. } => Some(target.id),
        EffectModel::BeginCast { source, .. } => Some(source.id),
        EffectModel::Damage { .. } => None,
    }
}

/// The span of time that an effect adds to the clock, if it has one.
pub open spec fn span(effect: EffectModel) -> Option<Moment> {
    match effect {
        EffectModel::ApplyAura { duration, .. } => Some(duration),
        EffectModel::BeginCast { duration, .. } => Some(duration),
        EffectModel::BeginAnimationLock { duration, .. } => Some(duration),
        _ => None,
    }
}

/// The moment from which an effect's span runs when the effect is
/// applied at `time`: an animation lock runs from its own `start`, a cast
/// and an aura from the time of application.
pub open spec fn origin(time: Moment, effect: EffectModel) -> Moment {
    match effect {
        EffectModel::BeginAnimationLock { start, .. } => start,
        _ => time,
    }
}

/// Why an effect cannot be applied to a roster at `time`, if it cannot:
/// its subject is not in the roster, or its span does not lead from its
/// origin to a moment.
pub open spec fn refusal(roster: Seq<EntityModel>, time: Moment, effect: EffectModel) -> Option<
    SimError,
> {
    match subject(effect) {
        None => None,
        Some(id) => if first_match(roster, with_id(id)) is None {
            Some(SimError::UnresolvedTarget)
        } else {
            match span(effect) {
                Some(duration) => if origin(time, effect).after(duration) is None {
                    Some(SimError::InvalidDuration)
                } else {
                    None
                },
                None => None,
            }
        },
    }
}

/// Picks the effects that cannot be applied to a roster at `time`.
pub open spec fn refused(roster: Seq<EntityModel>, time: Moment) -> spec_fn(EffectModel) -> bool {
    |effect: EffectModel| refusal(roster, time, effect) is Some
}

/// The error of the first of a list of effects that cannot be applied.
pub open spec fn first_refusal(roster: Seq<EntityModel>, time: Moment, effects: Seq<EffectModel>) -> Option<
    SimError,
> {
    match first_match(effects, refused(roster, time)) {
        Some(effect) => refusal(roster, time, effect),
        None => None,
    }
}

/// The subject of an effect after the effect is applied at `time`.
pub open spec fn changed(e: EntityModel, time: Moment, effect: EffectModel) -> EntityModel {
    match effect {
        EffectModel::BeginIdle { start, .. } => EntityModel {
            status: StatusModel::Idle { start_time: start },
            ..e
        },
        EffectModel::ApplyAura { source, target, aura, duration } => EntityModel {
            auras: e.auras.push(
                AuraModel {
                    id: aura,
                    source,
                    target,
                    start_time: time,
                    end_time: time.plus(duration),
                    effects: Seq::empty(),
                },
            ),
            ..e
        },
        EffectModel::RemoveAura { source, aura, .. } => EntityModel {
            auras: e.auras.filter(not_removed(aura, Some(source.id))),
            ..e
        },
        EffectModel::ModifyResource { resource, amount, .. } => e.with_resource_modified(
            resource,
            amount,
        ),
        EffectModel::BeginCast { source, target, action, duration } => EntityModel {
            status: StatusModel::Casting {
                source: Box::new(source),
                target: Box::new(target),
                spell: action,
                start_time: time,
                end_time: time.plus(duration),
            },
            ..e
        },
        EffectModel::BeginAnimationLock { action, start, duration, .. } => EntityModel {
            status: StatusModel::AnimationLocked {
                action,
                start_time: start,
                end_time: start.plus(duration),
            },
            ..e
        },
        EffectModel::Damage { .. } => e,
    }
}

/// The roster after one effect is applied at `time`: the effect's subject
/// is changed, every other entity is as it was.
pub open spec fn applied(roster: Seq<EntityModel>, time: Moment, effect: EffectModel) -> Seq<
    EntityModel,
> {
    match subject(effect) {
        Some(id) => Seq::new(
            roster.len(),
            |i: int|
                if roster[i].id == id {
                    changed(roster[i], time, effect)
                } else {
                    roster[i]
                },
        ),
        None => roster,
    }
}

/// The roster after a list of effects is applied at `time`, in order.
pub open spec fn applied_all(roster: Seq<EntityModel>, time: Moment, effects: Seq<EffectModel>) -> Seq<
    EntityModel,
>
    decreases effects.len(),
{
    if effects.len() == 0 {
        roster
    } else {
        applied(applied_all(roster, time, effects.drop_last()), time, effects.last())
    }
}

/// What the first `upto` entities of a roster produce at `time`, each
/// reading the whole roster, in roster order.
pub open spec fn gathered(roster: Seq<EntityModel>, time: Moment, upto: int) -> Seq<EffectModel>
    decreases upto,
{
    if upto <= 0 {
        Seq::empty()
    } else {
        gathered(roster, time, upto - 1) + roster[upto - 1].effects_at(time, roster)
    }
}

/// An entity at the end of a tick: passed ticks consumed, ended auras
/// detached.
pub open spec fn settled(e: EntityModel, time: Moment) -> EntityModel {
    EntityModel { auras: e.with_dots_consumed(time).auras.filter(unexpired(time)), ..e }
}

/// No two entities of a roster share an id.
pub open spec fn distinct_ids(roster: Seq<Entity>) -> bool {
    forall|i: int, j: int| 0 <= i < j < roster.len() ==> roster[i].id != roster[j].id
}

/// No two values of a roster share an id.
pub open spec fn distinct_model_ids(roster: Seq<EntityModel>) -> bool {
    forall|i: int, j: int| 0 <= i < j < roster.len() ==> roster[i].id != roster[j].id
}

/// The mathematical value of an [`Engine`].
pub struct EngineModel {
    pub entities: Seq<EntityModel>,
    pub current_time: Moment,
}

impl EngineModel {
    /// The roster with `e` enrolled: in the place of the entity that has
    /// its id, or at the end where none has.
    pub open spec fn enrolled(self, e: EntityModel) -> EngineModel {
        if first_match(self.entities, with_id(e.id)) is Some {
            EngineModel {
                entities: Seq::new(
                    self.entities.len(),
                    |i: int|
                        if self.entities[i].id == e.id {
                            e
                        } else {
                            self.entities[i]
                        },
                ),
                ..self
            }
        } else {
            EngineModel { entities: self.entities.push(e), ..self }
        }
    }

    /// Everything the roster produces at `time`.
    pub open spec fn pending(self, time: Moment) -> Seq<EffectModel> {
        gathered(self.entities, time, self.entities.len() as int)
    }

    /// The engine after a list of effects is applied at `time`, or the
    /// error of the first effect that cannot be applied.
    pub open spec fn after_effects(self, time: Moment, effects: Seq<EffectModel>) -> Result<
        EngineModel,
        SimError,
    > {
        match first_refusal(self.entities, time, effects) {
            Some(error) => Err(error),
            None => Ok(EngineModel { entities: applied_all(self.entities, time, effects), ..self }),
        }
    }

    /// The engine one tick of `interval` later, or the reason why the
    /// tick cannot be made.
    pub open spec fn after_tick(self, interval: Moment) -> Result<EngineModel, SimError> {
        match self.current_time.after(interval) {
            None => Err(SimError::InvalidDuration),
            Some(next) => match self.after_effects(next, self.pending(next)) {
                Err(error) => Err(error),
                Ok(acted) => Ok(
                    EngineModel {
                        entities: Seq::new(
                            acted.entities.len(),
                            |i: int| settled(acted.entities[i], next),
                        ),
                        current_time: next,
                    },
                ),
            },
        }
    }
}

/// Owner of the roster and of the clock.
pub struct Engine {
    entities: Vec<Entity>,
    current_time: Moment,
}

impl View for Engine {
    type V = EngineModel;

    closed spec fn view(&self) -> EngineModel {
        EngineModel { entities: entity_models(self.entities@), current_time: self.current_time }
    }
}

/// Why one effect cannot be applied to a roster at `time`, if it cannot.
fn check_effect(roster: &Vec<Entity>, time: Moment, effect: &Effect) -> (r: Option<SimError>)
    ensures
        r == refusal(entity_models(roster@), time, effect@),
{
    let id = match effect {
        Effect::BeginIdle { target, .. } => target.id,
        Effect::ApplyAura { target, .. } => target.id,
        Effect::RemoveAura { target, .. } => target.id,
        Effect::ModifyResource { target, .. } => target.id,
        Effect::BeginAnimationLock { target, .. } => target.id,
        Effect::BeginCast { source, .. } => source.id,
        Effect::Damage { .. } => {
            return None;
        },
    };
    if find_entity(roster, id).is_none() {
        return Some(SimError::UnresolvedTarget);
    }
    let (from, duration) = match effect {
        Effect::ApplyAura { duration, .. } => (time, *duration),
        Effect::BeginCast { duration, .. } => (time, *duration),
        Effect::BeginAnimationLock { start, duration, .. } => (*start, *duration),
        _ => {
            return None;
        },
    };
    if from.checked_after(duration).is_none() {
        Some(SimError::InvalidDuration)
    } else {
        None
    }
}

/// The error of the first effect that cannot be applied to a roster at
/// `time`.
fn check_effects(roster: &Vec<Entity>, time: Moment, effects: &Vec<Effect>) -> (r: Option<SimError>)
    ensures
        r == first_refusal(entity_models(roster@), time, effect_models(effects@)),
{
    let ghost models = entity_models(roster@);
    let ghost pending = effect_models(effects@);
    let mut i: usize = 0;
    while i < effects.len()
        invariant
            i <= effects.len(),
            models == entity_models(roster@),
            pending == effect_models(effects@),
            forall|j: int| 0 <= j < i ==> !refused(models, time)(#[trigger] pending[j]),
        decreases effects.len() - i,
    {
        let verdict = check_effect(roster, time, &effects[i]);
        if verdict.is_some() {
            proof {
                lemma_first_match_at(pending, refused(models, time), i as int);
            }
            return verdict;
        }
        i += 1;
    }
    proof {
        lemma_filter_none(pending, refused(models, time));
    }
    None
}

/// Applies one effect to a roster at `time`.
fn apply_effect(roster: &mut Vec<Entity>, time: Moment, effect: &Effect)
    requires
        distinct_ids(old(roster)@),
        refusal(entity_models(old(roster)@), time, effect@) is None,
    ensures
        entity_models(final(roster)@) == applied(entity_models(old(roster)@), time, effect@),
        final(roster)@.len() == old(roster)@.len(),
        forall|i: int| 0 <= i < old(roster)@.len() ==> final(roster)@[i].id == old(roster)@[i].id,
{
    match effect {
        Effect::BeginIdle { target, start } => {
            match find_entity(roster, target.id) {
                Some(i) => {
                    roster[i].set_status(Status::Idle { start_time: *start });
                },
                None => {},
            }
        },
        Effect::ApplyAura { source, target, aura, duration } => {
            match (find_entity(roster, target.id), time.checked_after(*duration)) {
                (Some(i), Some(end_time)) => {
                    let made = Aura {
                        id: *aura,
                        source: source.snapshot(),
                        target: target.snapshot(),
                        start_time: time,
                        end_time,
                        effects: Vec::new(),
                    };
                    assert(made@.effects =~= Seq::empty());
                    roster[i].add_aura(made);
                },
                _ => {},
            }
        },
        Effect::RemoveAura { source, target, aura } => {
            match find_entity(roster, target.id) {
                Some(i) => {
                    roster[i].remove_aura(aura, Some(source.id));
                },
                None => {},
            }
        },
        Effect::Damage { .. } => {},
        Effect::ModifyResource { target, resource, amount } => {
            match find_entity(roster, target.id) {
                Some(i) => {
                    roster[i].modify_resource(resource.clone(), *amount);
                },
                None => {},
            }
        },
        Effect::BeginCast { source, target, action, duration } => {
            match (find_entity(roster, source.id), time.checked_after(*duration)) {
                (Some(i), Some(end_time)) => {
                    roster[i].set_status(
                        Status::Casting {
                            source: Box::new(source.snapshot()),
                            target: Box::new(target.snapshot()),
                            spell: action.clone(),
                            start_time: time,
                            end_time,
                        },
                    );
                },
                _ => {},
            }
        },
        Effect::BeginAnimationLock { target, action, start, duration } => {
            match (find_entity(roster, target.id), start.checked_after(*duration)) {
                (Some(i), Some(end_time)) => {
                    roster[i].set_status(
                        Status::AnimationLocked {
                            action: action.clone(),
                            start_time: *start,
                            end_time,
                        },
                    );
                },
                _ => {},
            }
        },
    }
}

/// Applies a list of effects to a roster at `time`, in order.
fn apply_effects(roster: &mut Vec<Entity>, time: Moment, effects: &Vec<Effect>)
    requires
        distinct_ids(old(roster)@),
        first_refusal(entity_models(old(roster)@), time, effect_models(effects@)) is None,
    ensures
        entity_models(final(roster)@) == applied_all(
            entity_models(old(roster)@),
            time,
            effect_models(effects@),
        ),
        final(roster)@.len() == old(roster)@.len(),
        forall|i: int| 0 <= i < old(roster)@.len() ==> final(roster)@[i].id == old(roster)@[i].id,
        distinct_ids(final(roster)@),
{
    let ghost before = entity_models(roster@);
    let ghost pending = effect_models(effects@);
    proof {
        if first_match(pending, refused(before, time)) is Some {
            Seq::lemma_filter_pred(pending, refused(before, time), 0);
        }
        assert forall|j: int| 0 <= j < pending.len() implies !refused(before, time)(
            #[trigger] pending[j],
        ) by {
            if refused(before, time)(pending[j]) {
                Seq::lemma_filter_contains(pending, refused(before, time), j);
            }
        }
    }
    let mut i: usize = 0;
    while i < effects.len()
        invariant
            i <= effects.len(),
            before == entity_models(old(roster)@),
            pending == effect_models(effects@),
            roster@.len() == old(roster)@.len(),
            forall|k: int| 0 <= k < roster@.len() ==> roster@[k].id == old(roster)@[k].id,
            distinct_ids(roster@),
            forall|j: int| 0 <= j < pending.len() ==> !refused(before, time)(#[trigger] pending[j]),
            entity_models(roster@) == applied_all(before, time, pending.take(i as int)),
        decreases effects.len() - i,
    {
        proof {
            lemma_refusal_reads_ids(before, entity_models(roster@), time, pending[i as int]);
            assert(pending.take(i + 1).drop_last() == pending.take(i as int));
        }
        apply_effect(roster, time, &effects[i]);
        i += 1;
    }
    proof {
        assert(pending.take(i as int) == pending);
    }
}

/// Whether an effect can be applied depends on the ids in the roster and
/// on nothing else in it.
pub proof fn lemma_refusal_reads_ids(
    a: Seq<EntityModel>,
    b: Seq<EntityModel>,
    time: Moment,
    effect: EffectModel,
)
    requires
        a.len() == b.len(),
        forall|i: int| 0 <= i < a.len() ==> a[i].id == b[i].id,
    ensures
        refusal(a, time, effect) == refusal(b, time, effect),
{
    match subject(effect) {
        Some(id) => {
            lemma_presence_reads_ids(a, b, id);
        },
        None => {},
    }
}

/// Whether an id is in a roster depends on the ids in the roster alone.
pub proof fn lemma_presence_reads_ids(a: Seq<EntityModel>, b: Seq<EntityModel>, id: u128)
    requires
        a.len() == b.len(),
        forall|i: int| 0 <= i < a.len() ==> a[i].id == b[i].id,
    ensures
        first_match(a, with_id(id)) is Some <==> first_match(b, with_id(id)) is Some,
{
    if exists|i: int| 0 <= i < a.len() && a[i].id == id {
        let i = choose|i: int| 0 <= i < a.len() && a[i].id == id;
        Seq::lemma_filter_contains(a, with_id(id), i);
        Seq::lemma_filter_contains(b, with_id(id), i);
    } else {
        lemma_filter_none(a, with_id(id));
        lemma_filter_none(b, with_id(id));
    }
}

impl Engine {
    /// No two enrolled entities share an id, and the clock stands at a
    /// normalized moment that is not negative.
    #[verifier::type_invariant]
    spec fn well_formed(self) -> bool {
        &&& distinct_ids(self.entities@)
        &&& self.current_time.normalized()
        &&& self.current_time.s >= 0
    }

    /// An engine with an empty roster, its clock at zero.
    pub fn new() -> (r: Engine)
        ensures
            r@ == (EngineModel { entities: Seq::empty(), current_time: Moment { s: 0, m: 0 } }),
    {
        let r = Engine { entities: Vec::new(), current_time: Moment::new(0, 0) };
        assert(r@.entities =~= Seq::<EntityModel>::empty());
        r
    }

    /// The committed time. It is normalized and never negative.
    pub fn current_time(&self) -> (r: Moment)
        ensures
            r == self@.current_time,
            r.normalized(),
            r.s >= 0,
    {
        proof {
            use_type_invariant(self);
        }
        self.current_time
    }

    /// The roster, in the order in which the entities were enrolled. No
    /// two of its entities share an id.
    pub fn entities(&self) -> (r: &Vec<Entity>)
        ensures
            entity_models(r@) == self@.entities,
            distinct_ids(r@),
            distinct_model_ids(self@.entities),
    {
        proof {
            use_type_invariant(self);
            assert forall|i: int, j: int| 0 <= i < j < self@.entities.len() implies self@.entities[i].id
                != self@.entities[j].id by {
                assert(self@.entities[i].id == self.entities@[i].id);
                assert(self@.entities[j].id == self.entities@[j].id);
            }
        }
        &self.entities
    }

    /// The entity with this id, if it is enrolled.
    pub fn entity(&self, id: u128) -> (r: Option<&Entity>)
        ensures
            match r {
                Some(e) => first_match(self@.entities, with_id(id)) == Some(e@),
                None => first_match(self@.entities, with_id(id)) is None,
            },
    {
        match find_entity(&self.entities, id) {
            Some(i) => Some(&self.entities[i]),
            None => None,
        }
    }

    /// Enrolls an entity. An entity that is enrolled under the same id is
    /// replaced and keeps its place in the roster.
    pub fn add_entity(&mut self, e: Entity)
        ensures
            final(self)@ == old(self)@.enrolled(e@),
    {
        proof {
            use_type_invariant(&*self);
        }
        let ghost before = entity_models(self.entities@);
        let mut roster: Vec<Entity> = Vec::new();
        core::mem::swap(&mut self.entities, &mut roster);
        match find_entity(&roster, e.id) {
            Some(i) => {
                roster[i] = e;
                proof {
                    assert(entity_models(roster@) =~= old(self)@.enrolled(e@).entities);
                }
            },
            None => {
                roster.push(e);
                proof {
                    assert(entity_models(roster@) =~= before.push(e@));
                }
            },
        }
        self.entities = roster;
    }

    /// Everything the roster produces at `time`: what each entity does,
    /// in roster order, each reading the roster as it stands. Nothing is
    /// changed.
    pub fn pending_effects(&self, time: Moment) -> (r: Result<Vec<Effect>, SimError>)
        ensures
            r matches Ok(effects) && effect_models(effects@) == self@.pending(time),
    {
        let ghost models = entity_models(self.entities@);
        let mut all: Vec<Effect> = Vec::new();
        let mut i: usize = 0;
        while i < self.entities.len()
            invariant
                i <= self.entities.len(),
                models == entity_models(self.entities@),
                effect_models(all@) == gathered(models, time, i as int),
            decreases self.entities.len() - i,
        {
            match self.entities[i].effects_at(time, &self.entities) {
                Ok(mut effects) => {
                    proof {
                        lemma_effect_models_add(all@, effects@);
                    }
                    all.append(&mut effects);
                },
                Err(error) => {
                    return Err(error);
                },
            }
            i += 1;
        }
        Ok(all)
    }

    /// Applies a list of effects at `time`, in order. Either every effect
    /// is applied or, where one of them cannot be, none is.
    pub fn process_effects(&mut self, time: Moment, effects: Vec<Effect>) -> (r: Result<(), SimError>)
        ensures
            match old(self)@.after_effects(time, effect_models(effects@)) {
                Ok(acted) => r is Ok && final(self)@ == acted,
                Err(error) => r == Err::<(), SimError>(error) && final(self)@ == old(self)@,
            },
    {
        proof {
            use_type_invariant(&*self);
        }
        match check_effects(&self.entities, time, &effects) {
            Some(error) => Err(error),
            None => {
                let mut roster: Vec<Entity> = Vec::new();
                core::mem::swap(&mut self.entities, &mut roster);
                apply_effects(&mut roster, time, &effects);
                self.entities = roster;
                Ok(())
            },
        }
    }

    /// Advances the simulation by one tick of `interval`: gathers what
    /// every entity does at the new time from the roster as committed,
    /// applies it, lets every entity consume passed ticks and drop ended
    /// auras, and commits the new time. A tick that fails changes nothing.
    pub fn crank_by(&mut self, interval: Moment) -> (r: Result<(), SimError>)
        ensures
            match old(self)@.after_tick(interval) {
                Ok(next) => r is Ok && final(self)@ == next,
                Err(error) => r == Err::<(), SimError>(error) && final(self)@ == old(self)@,
            },
    {
        match self.crank_through(interval) {
            Ok(_) => Ok(()),
            Err(error) => Err(error),
        }
    }

    /// One tick, as [`Engine::crank_by`] makes it, handing out the effects
    /// that the tick applied, in the order in which it applied them. This
    /// is how damage effects, which change no entity, reach whatever works
    /// out their magnitudes.
    pub fn crank_through(&mut self, interval: Moment) -> (r: Result<Vec<Effect>, SimError>)
        ensures
            match old(self)@.after_tick(interval) {
                Ok(next) => r matches Ok(effects) && final(self)@ == next && effect_models(effects@)
                    == old(self)@.pending(next.current_time),
                Err(error) => r matches Err(e) && e == error && final(self)@ == old(self)@,
            },
    {
        proof {
            use_type_invariant(&*self);
        }
        let new_time = match self.current_time.checked_after(interval) {
            Some(time) => time,
            None => {
                return Err(SimError::InvalidDuration);
            },
        };
        let effects = match self.pending_effects(new_time) {
            Ok(effects) => effects,
            Err(error) => {
                return Err(error);
            },
        };
        match check_effects(&self.entities, new_time, &effects) {
            Some(error) => {
                return Err(error);
            },
            None => {},
        }
        let mut roster: Vec<Entity> = Vec::new();
        core::mem::swap(&mut self.entities, &mut roster);
        apply_effects(&mut roster, new_time, &effects);
        let ghost acted = entity_models(roster@);
        let mut i: usize = 0;
        while i < roster.len()
            invariant
                i <= roster.len(),
                acted.len() == roster.len(),
                distinct_ids(roster@),
                forall|k: int| 0 <= k < i ==> (#[trigger] roster@[k])@ == settled(acted[k], new_time),
                forall|k: int| i <= k < roster.len() ==> (#[trigger] roster@[k])@ == acted[k],
                forall|k: int| 0 <= k < roster.len() ==> roster@[k].id == acted[k].id,
            decreases roster.len() - i,
        {
            roster[i].consume_dots(new_time);
            roster[i].cleanup(new_time);
            i += 1;
        }
        proof {
            assert(entity_models(roster@) =~= Seq::new(
                acted.len(),
                |k: int| settled(acted[k], new_time),
            ));
        }
        self.entities = roster;
        self.current_time = new_time;
        Ok(effects)
    }
}

/// Applying effects changes entities in place: the roster keeps its
/// length, its order and its ids.
pub proof fn lemma_effects_keep_the_roster(
    roster: Seq<EntityModel>,
    time: Moment,
    effects: Seq<EffectModel>,
)
    ensures
        applied_all(roster, time, effects).len() == roster.len(),
        forall|i: int|
            0 <= i < roster.len() ==> (#[trigger] applied_all(roster, time, effects)[i]).id
                == roster[i].id,
    decreases effects.len(),
{
    if effects.len() > 0 {
        lemma_effects_keep_the_roster(roster, time, effects.drop_last());
    }
}

/// A tick that succeeds moves the clock by the interval and keeps the
/// roster's length, order and ids; a tick that fails is refused before
/// anything is applied, so there is no engine after it.
pub proof fn lemma_tick_keeps_the_roster(engine: EngineModel, interval: Moment)
    requires
        engine.after_tick(interval) is Ok,
    ensures
        Some(engine.after_tick(interval)->Ok_0.current_time) == engine.current_time.after(interval),
        engine.after_tick(interval)->Ok_0.entities.len() == engine.entities.len(),
        forall|i: int|
            0 <= i < engine.entities.len() ==> (#[trigger] engine.after_tick(
                interval,
            )->Ok_0.entities[i]).id == engine.entities[i].id,
{
    let next = engine.current_time.after(interval)->Some_0;
    lemma_effects_keep_the_roster(engine.entities, next, engine.pending(next));
}

/// The clock never runs back: a tick that succeeds commits a normalized
/// time that is not before the time it started from.
pub proof fn lemma_clock_never_runs_back(engine: EngineModel, interval: Moment)
    requires
        engine.current_time.normalized(),
        engine.after_tick(interval) is Ok,
    ensures
        engine.after_tick(interval)->Ok_0.current_time.normalized(),
        engine.current_time.at_or_before(engine.after_tick(interval)->Ok_0.current_time),
        interval.non_negative(),
{
    let next = engine.after_tick(interval)->Ok_0.current_time;
    lemma_sum_is_normalized(engine.current_time, interval);
    lemma_order_is_clock_order(engine.current_time, next);
}

/// An aura whose sub-effects owe nothing owes no hits.
proof fn lemma_no_hits(aura: AuraModel, moment: Moment, upto: int)
    requires
        upto <= aura.effects.len(),
        forall|j: int| 0 <= j < upto ==> (#[trigger] aura.effects[j]).due(moment) == 0,
    ensures
        aura.hits(moment, upto) == Seq::<EffectModel>::empty(),
    decreases upto,
{
    if upto > 0 {
        lemma_no_hits(aura, moment, upto - 1);
    }
}

/// Auras none of which owes a hit owe no hits together.
proof fn lemma_no_hits_upto(auras: Seq<AuraModel>, moment: Moment, upto: int)
    requires
        upto <= auras.len(),
        forall|i: int|
            0 <= i < upto ==> (#[trigger] auras[i]).hits(moment, auras[i].effects.len() as int)
                == Seq::<EffectModel>::empty(),
    ensures
        hits_upto(auras, moment, upto) == Seq::<EffectModel>::empty(),
    decreases upto,
{
    if upto > 0 {
        lemma_no_hits_upto(auras, moment, upto - 1);
    }
}

/// At the end of a tick every aura still attached ends after the tick's
/// time, and no periodic hit is owed at that time any more: the ticks
/// that the tick passed are consumed, and the rest lie ahead.
pub proof fn lemma_settled_entity_owes_nothing(e: EntityModel, time: Moment)
    ensures
        forall|i: int|
            0 <= i < settled(e, time).auras.len() ==> time.before(
                (#[trigger] settled(e, time).auras[i]).end_time,
            ),
        settled(e, time).dot_effects(time) == Seq::<EffectModel>::empty(),
{
    let spent = e.with_dots_consumed(time).auras;
    let left = settled(e, time).auras;
    assert forall|i: int| 0 <= i < left.len() implies time.before((#[trigger] left[i]).end_time)
        && left[i].hits(time, left[i].effects.len() as int) == Seq::<EffectModel>::empty() by {
        Seq::lemma_filter_pred(spent, unexpired(time), i);
        Seq::lemma_filter_contains_rev(spent, unexpired(time), left[i]);
        let k = choose|k: int| 0 <= k < spent.len() && spent[k] == left[i];
        let aura = e.auras[k];
        assert forall|j: int| 0 <= j < left[i].effects.len() implies (#[trigger] left[i].effects[j]).due(
            time,
        ) == 0 by {
            let effect = aura.effects[j];
            if effect is DoT {
                lemma_ticks_are_consumed_one_for_one(aura, effect, time);
            }
        }
        lemma_no_hits(left[i], time, left[i].effects.len() as int);
    }
    lemma_no_hits_upto(left, time, left.len() as int);
}

/// What a roster produces at a time is a function of the engine's value:
/// gathering twice from the same committed state gives the same effects,
/// and gathering does not fail.
pub proof fn lemma_pending_effects_are_determined(
    a: Engine,
    b: Engine,
    time: Moment,
    first: Result<Vec<Effect>, SimError>,
    second: Result<Vec<Effect>, SimError>,
)
    requires
        a@ == b@,
        call_ensures(Engine::pending_effects, (&a, time), first),
        call_ensures(Engine::pending_effects, (&b, time), second),
    ensures
        first is Ok,
        second is Ok,
        effect_models(first->Ok_0@) == effect_models(second->Ok_0@),
{
}

} // verus!
