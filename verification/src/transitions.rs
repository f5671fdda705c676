//! The state machine across a tick: who can change an entity's status,
//! and with what status an entity leaves a tick.
use crate::action::Action;
use crate::decision::{hits_upto, lemma_status_effects_keep_to_their_kinds};
use crate::effect::EffectModel;
use crate::engine::{
    applied, applied_all, changed, distinct_model_ids, gathered, lemma_effects_keep_the_roster,
    subject, EngineModel,
};
use crate::entity::{AuraModel, EntityModel, StatusModel};
use crate::moment::Moment;
use crate::rules::lemma_generators_keep_to_their_kinds;
use vstd::prelude::*;

verus! {

/// An effect that gives its subject a new status.
pub open spec fn sets_status(effect: EffectModel) -> bool {
    effect is BeginIdle || effect is BeginCast || effect is BeginAnimationLock
}

/// The status that the closing of an action leaves: locked from `at` for
/// the action's animation delay, or idle from `at` where it has none.
pub open spec fn status_after_closing(action: Action, at: Moment) -> StatusModel {
    match action.animation_delay {
        Some(delay) => StatusModel::AnimationLocked {
            action,
            start_time: at,
            end_time: at.plus(delay),
        },
        None => StatusModel::Idle { start_time: at },
    }
}

/// Applying one list of effects and then another is applying the two
/// lists joined.
pub proof fn lemma_effects_apply_in_turn(
    roster: Seq<EntityModel>,
    time: Moment,
    first: Seq<EffectModel>,
    second: Seq<EffectModel>,
)
    ensures
        applied_all(roster, time, first + second) == applied_all(
            applied_all(roster, time, first),
            time,
            second,
        ),
    decreases second.len(),
{
    if second.len() == 0 {
        assert(first + second == first);
    } else {
        lemma_effects_apply_in_turn(roster, time, first, second.drop_last());
        assert((first + second).drop_last() == first + second.drop_last());
        assert((first + second).last() == second.last());
    }
}

/// Effects none of which gives entity `k` a new status leave the status
/// of entity `k` as it is.
pub proof fn lemma_status_stays(roster: Seq<EntityModel>, time: Moment, effects: Seq<EffectModel>, k: int)
    requires
        0 <= k < roster.len(),
        forall|x: int|
            0 <= x < effects.len() ==> !(sets_status(#[trigger] effects[x]) && subject(effects[x])
                == Some(roster[k].id)),
    ensures
        applied_all(roster, time, effects).len() == roster.len(),
        applied_all(roster, time, effects)[k].status == roster[k].status,
        applied_all(roster, time, effects)[k].id == roster[k].id,
    decreases effects.len(),
{
    lemma_effects_keep_the_roster(roster, time, effects);
    if effects.len() > 0 {
        let before = effects.drop_last();
        assert forall|x: int| 0 <= x < before.len() implies !(sets_status(#[trigger] before[x])
            && subject(before[x]) == Some(roster[k].id)) by {
            assert(before[x] == effects[x]);
        }
        lemma_status_stays(roster, time, before, k);
        lemma_effects_keep_the_roster(roster, time, before);
        let last = effects.last();
        assert(last == effects[effects.len() - 1]);
        assert(!(sets_status(last) && subject(last) == Some(roster[k].id)));
    }
}

/// Whatever gives an entity a new status comes from that entity: among
/// the effects of entity `e`, those that set a status address `e`, and
/// periodic hits set none.
pub proof fn lemma_status_changes_are_ones_own(e: EntityModel, moment: Moment, roster: Seq<EntityModel>)
    ensures
        forall|x: int|
            0 <= x < e.effects_at(moment, roster).len() && sets_status(
                #[trigger] e.effects_at(moment, roster)[x],
            ) ==> subject(e.effects_at(moment, roster)[x]) == Some(e.id) && x < e.status_effects(
                moment,
                roster,
            ).len(),
{
    let status = e.status_effects(moment, roster);
    let dots = e.dot_effects(moment);
    let all = e.effects_at(moment, roster);
    lemma_status_effects_keep_to_their_kinds(e, moment, roster);
    lemma_dot_effects_are_periodic_hits(e.auras, moment, e.auras.len() as int);
    assert forall|x: int| 0 <= x < all.len() && sets_status(#[trigger] all[x]) implies subject(all[x])
        == Some(e.id) && x < status.len() by {
        if x < status.len() {
            assert(all[x] == status[x]);
        } else {
            assert(all[x] == dots[x - status.len()]);
        }
    }
}

/// The hits that auras owe are periodic hits and nothing else.
pub proof fn lemma_dot_effects_are_periodic_hits(auras: Seq<AuraModel>, moment: Moment, upto: int)
    requires
        upto <= auras.len(),
    ensures
        forall|x: int|
            0 <= x < hits_upto(auras, moment, upto).len() ==> !sets_status(
                #[trigger] hits_upto(auras, moment, upto)[x],
            ),
    decreases upto,
{
    if upto > 0 {
        lemma_dot_effects_are_periodic_hits(auras, moment, upto - 1);
        let aura = auras[upto - 1];
        lemma_aura_hits_are_periodic_hits(aura, moment, aura.effects.len() as int);
        let before = hits_upto(auras, moment, upto - 1);
        let own = aura.hits(moment, aura.effects.len() as int);
        let all = hits_upto(auras, moment, upto);
        assert forall|x: int| 0 <= x < all.len() implies !sets_status(#[trigger] all[x]) by {
            if x < before.len() {
                assert(all[x] == before[x]);
            } else {
                assert(all[x] == own[x - before.len()]);
            }
        }
    }
}

/// The hits that one aura owes are periodic hits and nothing else.
pub proof fn lemma_aura_hits_are_periodic_hits(aura: AuraModel, moment: Moment, upto: int)
    requires
        upto <= aura.effects.len(),
    ensures
        forall|x: int|
            0 <= x < aura.hits(moment, upto).len() ==> !sets_status(
                #[trigger] aura.hits(moment, upto)[x],
            ),
    decreases upto,
{
    if upto > 0 {
        lemma_aura_hits_are_periodic_hits(aura, moment, upto - 1);
        let before = aura.hits(moment, upto - 1);
        let effect = aura.effects[upto - 1];
        let own = aura.hits_of(effect, moment);
        let all = aura.hits(moment, upto);
        assert forall|x: int| 0 <= x < all.len() implies !sets_status(#[trigger] all[x]) by {
            if x < before.len() {
                assert(all[x] == before[x]);
            } else {
                assert(all[x] == own[x - before.len()]);
                assert(effect.due(moment) > 0);
                assert(effect is DoT);
            }
        }
    }
}

/// What the entities other than `k` produce gives entity `k` no new
/// status, in a roster without shared ids.
proof fn lemma_others_leave_the_status(roster: Seq<EntityModel>, time: Moment, k: int, m: int)
    requires
        distinct_model_ids(roster),
        0 <= k < roster.len(),
        0 <= m < roster.len(),
        m != k,
    ensures
        forall|x: int|
            0 <= x < roster[m].effects_at(time, roster).len() ==> !(sets_status(
                #[trigger] roster[m].effects_at(time, roster)[x],
            ) && subject(roster[m].effects_at(time, roster)[x]) == Some(roster[k].id)),
{
    lemma_status_changes_are_ones_own(roster[m], time, roster);
    if m < k {
        assert(roster[m].id != roster[k].id);
    } else {
        assert(roster[k].id != roster[m].id);
    }
}

/// The status that an effect which sets one gives its subject when it is
/// applied at `time`.
pub open spec fn status_set_by(time: Moment, effect: EffectModel) -> StatusModel
    recommends
        sets_status(effect),
{
    match effect {
        EffectModel::BeginIdle { start, .. } => StatusModel::Idle { start_time: start },
        EffectModel::BeginCast { source, target, action, duration } => StatusModel::Casting {
            source: Box::new(source),
            target: Box::new(target),
            spell: action,
            start_time: time,
            end_time: time.plus(duration),
        },
        EffectModel::BeginAnimationLock { action, start, duration, .. } => {
            StatusModel::AnimationLocked {
                action,
                start_time: start,
                end_time: start.plus(duration),
            }
        },
        _ => arbitrary(),
    }
}

/// What the first `upto` entities produce leaves the status of entity `k`
/// as it is, so long as entity `k` is not among them or what its own
/// status gives rise to sets no status.
proof fn lemma_status_is_kept_through(roster: Seq<EntityModel>, time: Moment, k: int, upto: int)
    requires
        distinct_model_ids(roster),
        0 <= k < roster.len(),
        0 <= upto <= roster.len(),
        upto <= k || forall|x: int|
            0 <= x < roster[k].status_effects(time, roster).len() ==> !sets_status(
                #[trigger] roster[k].status_effects(time, roster)[x],
            ),
    ensures
        applied_all(roster, time, gathered(roster, time, upto)).len() == roster.len(),
        applied_all(roster, time, gathered(roster, time, upto))[k].status == roster[k].status,
        applied_all(roster, time, gathered(roster, time, upto))[k].id == roster[k].id,
    decreases upto,
{
    if upto <= 0 {
        lemma_status_stays(roster, time, Seq::<EffectModel>::empty(), k);
    } else {
        let before = gathered(roster, time, upto - 1);
        let own = roster[upto - 1].effects_at(time, roster);
        let so_far = applied_all(roster, time, before);
        lemma_status_is_kept_through(roster, time, k, upto - 1);
        lemma_effects_apply_in_turn(roster, time, before, own);
        if upto - 1 == k {
            lemma_status_changes_are_ones_own(roster[k], time, roster);
            assert forall|x: int| 0 <= x < own.len() implies !sets_status(#[trigger] own[x]) by {
                if sets_status(own[x]) {
                    assert(own[x] == roster[k].status_effects(time, roster)[x]);
                }
            }
        } else {
            lemma_others_leave_the_status(roster, time, k, upto - 1);
        }
        lemma_status_stays(so_far, time, own, k);
    }
}

/// What entity `k` itself produces, when what its status gives rise to
/// ends in the one effect that sets a status, leaves it with the status
/// which that effect sets.
proof fn lemma_own_effects_set_the_status(
    roster: Seq<EntityModel>,
    before: Seq<EntityModel>,
    time: Moment,
    k: int,
    made: Seq<EffectModel>,
    last: EffectModel,
)
    requires
        0 <= k < roster.len(),
        before.len() == roster.len(),
        before[k].id == roster[k].id,
        roster[k].status_effects(time, roster) == made.push(last),
        forall|x: int| 0 <= x < made.len() ==> !sets_status(#[trigger] made[x]),
        sets_status(last),
        subject(last) == Some(roster[k].id),
    ensures
        applied_all(before, time, roster[k].effects_at(time, roster)).len() == roster.len(),
        applied_all(before, time, roster[k].effects_at(time, roster))[k].status == status_set_by(
            time,
            last,
        ),
        applied_all(before, time, roster[k].effects_at(time, roster))[k].id == roster[k].id,
{
    let e = roster[k];
    let status = e.status_effects(time, roster);
    let dots = e.dot_effects(time);
    assert(status.drop_last() == made);
    assert(status.last() == last);
    lemma_status_stays(before, time, made, k);
    let generated = applied_all(before, time, made);
    let closed = applied_all(before, time, status);
    assert(closed == applied(generated, time, last));
    assert(closed[k] == changed(generated[k], time, last));
    assert(closed[k].status == status_set_by(time, last));
    lemma_effects_keep_the_roster(before, time, status);
    lemma_dot_effects_are_periodic_hits(e.auras, time, e.auras.len() as int);
    lemma_status_stays(closed, time, dots, k);
    lemma_effects_apply_in_turn(before, time, status, dots);
}

/// What the first `upto` entities produce, entity `k` among them, leaves
/// entity `k` with the status that its own last status effect sets.
proof fn lemma_status_is_set_through(
    roster: Seq<EntityModel>,
    time: Moment,
    k: int,
    upto: int,
    made: Seq<EffectModel>,
    last: EffectModel,
)
    requires
        distinct_model_ids(roster),
        0 <= k < upto <= roster.len(),
        roster[k].status_effects(time, roster) == made.push(last),
        forall|x: int| 0 <= x < made.len() ==> !sets_status(#[trigger] made[x]),
        sets_status(last),
        subject(last) == Some(roster[k].id),
    ensures
        applied_all(roster, time, gathered(roster, time, upto)).len() == roster.len(),
        applied_all(roster, time, gathered(roster, time, upto))[k].status == status_set_by(
            time,
            last,
        ),
        applied_all(roster, time, gathered(roster, time, upto))[k].id == roster[k].id,
    decreases upto,
{
    let before = gathered(roster, time, upto - 1);
    let own = roster[upto - 1].effects_at(time, roster);
    let so_far = applied_all(roster, time, before);
    lemma_effects_apply_in_turn(roster, time, before, own);
    if upto == k + 1 {
        lemma_status_is_kept_through(roster, time, k, k);
        lemma_own_effects_set_the_status(roster, so_far, time, k, made, last);
    } else {
        lemma_status_is_set_through(roster, time, k, upto - 1, made, last);
        lemma_others_leave_the_status(roster, time, k, upto - 1);
        lemma_status_stays(so_far, time, own, k);
    }
}

/// Only an entity itself changes its status. When a tick succeeds, an
/// entity whose status gives rise to no effect that sets a status leaves
/// the tick with the status it had, and an entity whose status gives rise
/// to such an effect leaves it with the status that the effect sets,
/// whatever else the tick applies and whatever the other entities do.
pub proof fn lemma_tick_sets_the_status(engine: EngineModel, interval: Moment, k: int)
    requires
        distinct_model_ids(engine.entities),
        0 <= k < engine.entities.len(),
        engine.after_tick(interval) is Ok,
    ensures
        engine.after_tick(interval)->Ok_0.entities.len() == engine.entities.len(),
        engine.after_tick(interval)->Ok_0.entities[k].id == engine.entities[k].id,
        engine.after_tick(interval)->Ok_0.entities[k].status == ({
            let next = engine.after_tick(interval)->Ok_0.current_time;
            let made = engine.entities[k].status_effects(next, engine.entities);
            if made.len() > 0 && sets_status(made.last()) {
                status_set_by(next, made.last())
            } else {
                engine.entities[k].status
            }
        }),
{
    let roster = engine.entities;
    let e = roster[k];
    let next = engine.current_time.after(interval)->Some_0;
    let made = e.status_effects(next, roster);
    lemma_status_effects_end_in_the_status_change(e, next, roster);
    if made.len() > 0 && sets_status(made.last()) {
        assert(made == made.drop_last().push(made.last()));
        lemma_status_is_set_through(
            roster,
            next,
            k,
            roster.len() as int,
            made.drop_last(),
            made.last(),
        );
    } else {
        lemma_status_is_kept_through(roster, next, k, roster.len() as int);
    }
}

/// Of what an entity's status gives rise to, only the last effect can set
/// a status, and it sets the entity's own.
pub proof fn lemma_status_effects_end_in_the_status_change(
    e: EntityModel,
    moment: Moment,
    roster: Seq<EntityModel>,
)
    ensures
        forall|x: int|
            0 <= x < e.status_effects(moment, roster).len() - 1 ==> !sets_status(
                #[trigger] e.status_effects(moment, roster)[x],
            ),
        e.status_effects(moment, roster).len() > 0 && sets_status(
            e.status_effects(moment, roster).last(),
        ) ==> subject(e.status_effects(moment, roster).last()) == Some(e.id),
{
    let made = e.status_effects(moment, roster);
    match e.status {
        StatusModel::Casting { source, target, spell, end_time, .. } => {
            lemma_generators_keep_to_their_kinds(&*spell.effect, *source, seq![*target]);
            if end_time.at_or_before(moment) {
                let generated = spell.effect.eval(*source, seq![*target]);
                assert forall|x: int| 0 <= x < made.len() - 1 implies !sets_status(
                    #[trigger] made[x],
                ) by {
                    assert(made[x] == generated[x]);
                }
            }
        },
        StatusModel::Idle { start_time } => {
            if start_time.at_or_before(moment) && e.choice(roster, 0) is Some {
                let (action, target) = e.choice(roster, 0)->Some_0;
                lemma_generators_keep_to_their_kinds(&*action.effect, e, seq![target]);
                if !(Moment { s: 0, m: 0 }).before(action.cast_time.eval(e)) {
                    let generated = action.effect.eval(e, seq![target]);
                    assert forall|x: int| 0 <= x < made.len() - 1 implies !sets_status(
                        #[trigger] made[x],
                    ) by {
                        assert(made[x] == generated[x]);
                    }
                }
            }
        },
        _ => {},
    }
}

/// A cast ends in the tick that reaches its end. When a tick succeeds and
/// its new time is at or past the end of an entity's cast, the entity
/// leaves the tick locked by the spell from the cast's end for the
/// spell's animation delay, or idle from the cast's end where the spell
/// has no delay. Until then it goes on casting.
pub proof fn lemma_finished_cast_closes(
    engine: EngineModel,
    interval: Moment,
    k: int,
    spell: Action,
    end_time: Moment,
)
    requires
        distinct_model_ids(engine.entities),
        0 <= k < engine.entities.len(),
        engine.entities[k].status matches StatusModel::Casting { spell: s, end_time: t, .. } && s
            == spell && t == end_time,
        engine.after_tick(interval) is Ok,
    ensures
        end_time.at_or_before(engine.after_tick(interval)->Ok_0.current_time) ==> engine.after_tick(
            interval,
        )->Ok_0.entities[k].status == status_after_closing(spell, end_time),
        !end_time.at_or_before(engine.after_tick(interval)->Ok_0.current_time)
            ==> engine.after_tick(interval)->Ok_0.entities[k].status == engine.entities[k].status,
{
    lemma_tick_sets_the_status(engine, interval, k);
}

/// An animation lock ends in the tick that reaches its end: the entity
/// leaves that tick idle from the tick's time. Until then it stays
/// locked.
pub proof fn lemma_finished_lock_idles(engine: EngineModel, interval: Moment, k: int, end_time: Moment)
    requires
        distinct_model_ids(engine.entities),
        0 <= k < engine.entities.len(),
        engine.entities[k].status matches StatusModel::AnimationLocked { end_time: t, .. } && t
            == end_time,
        engine.after_tick(interval) is Ok,
    ensures
        end_time.at_or_before(engine.after_tick(interval)->Ok_0.current_time) ==> engine.after_tick(
            interval,
        )->Ok_0.entities[k].status == (StatusModel::Idle {
            start_time: engine.after_tick(interval)->Ok_0.current_time,
        }),
        !end_time.at_or_before(engine.after_tick(interval)->Ok_0.current_time)
            ==> engine.after_tick(interval)->Ok_0.entities[k].status == engine.entities[k].status,
{
    lemma_tick_sets_the_status(engine, interval, k);
}

/// An idle entity acts in the first tick that reaches its idle time and in
/// which an entry of its decision list comes to something: it leaves the
/// tick casting where the chosen action takes time, with itself and the
/// chosen target on record as they stood before the tick, and else with
/// the status that closes the action at the tick's time. An entity that
/// is not yet due, or for which no entry comes to anything, stays idle as
/// it was.
pub proof fn lemma_idle_entity_acts(engine: EngineModel, interval: Moment, k: int, start_time: Moment)
    requires
        distinct_model_ids(engine.entities),
        0 <= k < engine.entities.len(),
        engine.entities[k].status == (StatusModel::Idle { start_time }),
        engine.after_tick(interval) is Ok,
    ensures
        engine.after_tick(interval)->Ok_0.entities[k].status == ({
            let e = engine.entities[k];
            let next = engine.after_tick(interval)->Ok_0.current_time;
            if start_time.at_or_before(next) && e.choice(engine.entities, 0) is Some {
                let (action, target) = e.choice(engine.entities, 0)->Some_0;
                let cast_time = action.cast_time.eval(e);
                if (Moment { s: 0, m: 0 }).before(cast_time) {
                    StatusModel::Casting {
                        source: Box::new(e),
                        target: Box::new(target),
                        spell: action,
                        start_time: next,
                        end_time: next.plus(cast_time),
                    }
                } else {
                    status_after_closing(action, next)
                }
            } else {
                e.status
            }
        }),
{
    lemma_tick_sets_the_status(engine, interval, k);
}

} // verus!
