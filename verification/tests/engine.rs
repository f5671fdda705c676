use simxiv::{
    Action, Aura, AuraEffect, CastModifier, ConditionalAction, DamageType, Effect, Engine, Entity,
    Generator, Job, Moment, Recipient, Resource, SimError, SkillType, Status, TargetSelector,
};
use std::sync::Arc;

struct State(Moment, u128, String);

fn verify_states(mut engine: Engine, cranking_speed: Moment, mut states: Vec<State>) {
    states.sort_by(|a, b| a.0.partial_cmp(&b.0).unwrap());
    let mut filter = move |current_time: &Moment| -> Option<Vec<State>> {
        if states.len() == 0 {
            return None;
        }
        let mut output = vec![];
        let mut i = 0;
        while i != states.len() {
            if &states[i].0 < current_time {
                output.push(states.remove(i));
            } else {
                i += 1;
            }
        }
        Some(output)
    };
    let mut done = false;
    while !done {
        engine.crank_by(cranking_speed.clone()).unwrap();
        let filter_states = filter(&engine.current_time());
        if filter_states.is_none() {
            println!("Done");
            done = true;
        }
        for state in filter_states.or(Some(vec![])).unwrap() {
            // Verify the state
            println!("Verifying state");
            assert_eq!(
                engine.entity(state.1).map(|e| match state.2.as_str() {
                    "idle" => match e.status {
                        Status::Idle { .. } => {
                            println!("Target is idling");
                            true
                        }
                        _ => {
                            println!("Target is not idling when it should be");
                            false
                        }
                    },
                    "casting" => match e.status {
                        Status::Casting { .. } => {
                            println!("Target is casting");
                            true
                        }
                        _ => {
                            println!("Target is not casting when it should be");
                            false
                        }
                    },
                    "locked" => match e.status {
                        Status::AnimationLocked { .. } => {
                            println!("Target is animation locked");
                            true
                        }
                        _ => {
                            println!("Target is not animation locked when it should be");
                            false
                        }
                    },
                    _ => false,
                }),
                Some(true)
            );
        }
    }
}

fn dualcast_generate(action: Action) -> Action {
    action.with_effect_modifier(Generator::UnlessOwnAura {
        aura: 2,
        inner: Arc::new(Generator::ApplyAura {
            recipient: Recipient::Actor,
            aura: 2,
            duration: Moment::new(12, 0),
        }),
    })
}

fn dualcast_consume(action: Action) -> Action {
    action
        .with_cast_modifier(CastModifier::InstantWithOwnAura(2))
        .with_effect_modifier(Generator::RemoveAura { recipient: Recipient::Actor, aura: 2 })
}

fn red_mage_and_big_bad() -> (Entity, Entity) {
    let red_mage = Entity::create(
        "red_mage".to_string(),
        Some(Job::RDM),
        70,
        vec![ConditionalAction::Cast {
            spell: 1,
            selector: TargetSelector::Named("big_bad".to_string()),
        }],
        Arc::new(vec![dualcast_generate(dualcast_consume(
            Action::new(1, Moment::new(2, 500)).with_animation_delay(Some(Moment::new(0, 750))),
        ))]),
    );
    let big_bad = Entity::create("big_bad".to_string(), None, 70, Vec::new(), Arc::new(vec![]));
    (red_mage, big_bad)
}

#[test]
fn basic_cast_anim_lock_to_idle() {
    let mut engine = Engine::new();
    let (red_mage, big_bad) = red_mage_and_big_bad();
    let red_mage_id = red_mage.id.clone();
    let _big_bad_id = big_bad.id.clone();
    engine.add_entity(red_mage);
    engine.add_entity(big_bad);
    verify_states(
        engine,
        Moment::new(0, 100),
        vec![
            State(Moment::new(1, 0), red_mage_id.clone(), "casting".to_string()),
            State(Moment::new(2, 750), red_mage_id.clone(), "locked".to_string()),
            State(Moment::new(4, 250), red_mage_id.clone(), "idle".to_string()),
        ],
    )
}

#[test]
fn test_dualcast() {
    let mut engine = Engine::new();
    let (red_mage, big_bad) = red_mage_and_big_bad();
    let red_mage_id = red_mage.id.clone();
    let _big_bad_id = big_bad.id.clone();
    engine.add_entity(red_mage);
    engine.add_entity(big_bad);
    verify_states(
        engine,
        Moment::new(0, 100),
        vec![
            State(Moment::new(1, 0), red_mage_id.clone(), "casting".to_string()),
            State(Moment::new(2, 750), red_mage_id.clone(), "locked".to_string()),
            // A dualcast should have two locked periods one after the other
            State(Moment::new(3, 400), red_mage_id.clone(), "locked".to_string()),
        ],
    )
}

#[test]
fn handle_aura_cast_time_interactions() {}

fn plain(id: u128, name: &str) -> Entity {
    Entity::with_id(id, name.to_string(), None, 70, vec![], Arc::new(vec![]))
}

fn caster(id: u128, action: Action) -> Entity {
    Entity::with_id(
        id,
        "caster".to_string(),
        Some(Job::RDM),
        70,
        vec![ConditionalAction::Cast { spell: action.id, selector: TargetSelector::Named("foe".to_string()) }],
        Arc::new(vec![action]),
    )
}

fn kind(status: &Status) -> &'static str {
    match status {
        Status::Idle { .. } => "idle",
        Status::Casting { .. } => "casting",
        Status::AnimationLocked { .. } => "locked",
    }
}

#[test]
fn new_engine_is_empty_at_time_zero() {
    let engine = Engine::new();
    assert_eq!(engine.current_time(), Moment::new(0, 0));
    assert!(engine.entities().is_empty());
    assert!(engine.entity(1).is_none());
}

#[test]
fn add_entity_keeps_enrolment_order_and_replaces_by_id() {
    let mut engine = Engine::new();
    engine.add_entity(plain(3, "c"));
    engine.add_entity(plain(1, "a"));
    engine.add_entity(plain(2, "b"));
    let names: Vec<String> = engine.entities().iter().map(|e| e.name.clone()).collect();
    assert_eq!(names, vec!["c".to_string(), "a".to_string(), "b".to_string()]);
    engine.add_entity(plain(1, "renamed"));
    let names: Vec<String> = engine.entities().iter().map(|e| e.name.clone()).collect();
    assert_eq!(names, vec!["c".to_string(), "renamed".to_string(), "b".to_string()]);
    assert_eq!(engine.entity(1).unwrap().name, "renamed");
    assert_eq!(engine.entity(2).unwrap().name, "b");
    assert!(engine.entity(9).is_none());
}

#[test]
fn cast_lock_idle_happen_at_the_exact_ticks() {
    let action = Action::new(1, Moment::new(2, 500)).with_animation_delay(Some(Moment::new(0, 750)));
    let mut engine = Engine::new();
    engine.add_entity(caster(1, action));
    engine.add_entity(plain(2, "foe"));
    let step = Moment::new(0, 100);
    let mut seen: Vec<(Moment, &'static str)> = vec![];
    let mut last = "idle";
    for _ in 0..70 {
        engine.crank_by(step).unwrap();
        let now = kind(&engine.entity(1).unwrap().status);
        if now != last {
            seen.push((engine.current_time(), now));
            last = now;
        }
    }
    assert_eq!(engine.current_time(), Moment::new(7, 0));
    assert_eq!(
        seen,
        vec![
            (Moment::new(0, 100), "casting"),
            (Moment::new(2, 600), "locked"),
            (Moment::new(3, 400), "idle"),
            (Moment::new(3, 500), "casting"),
            (Moment::new(6, 0), "locked"),
            (Moment::new(6, 800), "idle"),
            (Moment::new(6, 900), "casting"),
        ]
    );
    match &engine.entity(1).unwrap().status {
        Status::Casting { source, target, spell, start_time, end_time } => {
            assert_eq!(source.id, 1);
            assert_eq!(target.id, 2);
            assert_eq!(spell.id, 1);
            assert_eq!(*start_time, Moment::new(6, 900));
            assert_eq!(*end_time, Moment::new(9, 400));
        }
        _ => panic!("should be casting"),
    }
    // The target never acts.
    assert_eq!(kind(&engine.entity(2).unwrap().status), "idle");
}

#[test]
fn instant_action_without_delay_goes_straight_back_to_idle() {
    let action = Action::new(1, Moment::new(0, 0))
        .with_effects(Generator::ApplyAura { recipient: Recipient::Targets, aura: 9, duration: Moment::new(1, 0) });
    let mut engine = Engine::new();
    engine.add_entity(caster(1, action));
    engine.add_entity(plain(2, "foe"));
    engine.crank_by(Moment::new(0, 500)).unwrap();
    match &engine.entity(1).unwrap().status {
        Status::Idle { start_time } => assert_eq!(*start_time, Moment::new(0, 500)),
        _ => panic!("should idle"),
    }
    let foe = engine.entity(2).unwrap();
    assert_eq!(foe.auras.len(), 1);
    assert_eq!(foe.auras[0].id, 9);
    assert_eq!(foe.auras[0].source.id, 1);
    assert_eq!(foe.auras[0].target.id, 2);
    assert_eq!(foe.auras[0].start_time, Moment::new(0, 500));
    assert_eq!(foe.auras[0].end_time, Moment::new(1, 500));
    assert!(foe.auras[0].effects.is_empty());
    // The aura lasts through 1.0 and is gone once the clock reaches its end.
    engine.crank_by(Moment::new(0, 500)).unwrap();
    assert_eq!(engine.entity(2).unwrap().auras.len(), 2);
    engine.crank_by(Moment::new(0, 500)).unwrap();
    let ends: Vec<Moment> = engine.entity(2).unwrap().auras.iter().map(|a| a.end_time).collect();
    assert_eq!(ends, vec![Moment::new(2, 0), Moment::new(2, 500)]);
}

#[test]
fn phase_one_reads_the_committed_roster_only() {
    // Both entities are idle and both pick the other by name. If the second
    // saw what the first did in the same tick, nothing would change for it;
    // what matters is that each records the other as it was before the tick.
    let spell = || Action::new(1, Moment::new(1, 0));
    let a = Entity::with_id(
        1,
        "a".to_string(),
        None,
        70,
        vec![ConditionalAction::Cast { spell: 1, selector: TargetSelector::Named("b".to_string()) }],
        Arc::new(vec![spell()]),
    );
    let b = Entity::with_id(
        2,
        "b".to_string(),
        None,
        70,
        vec![ConditionalAction::Cast { spell: 1, selector: TargetSelector::Named("a".to_string()) }],
        Arc::new(vec![spell()]),
    );
    let mut engine = Engine::new();
    engine.add_entity(a);
    engine.add_entity(b);
    engine.crank_by(Moment::new(0, 100)).unwrap();
    match &engine.entity(2).unwrap().status {
        Status::Casting { target, .. } => {
            assert_eq!(target.id, 1);
            assert_eq!(kind(&target.status), "idle");
        }
        _ => panic!("b should cast"),
    }
    match &engine.entity(1).unwrap().status {
        Status::Casting { target, .. } => {
            assert_eq!(target.id, 2);
            assert_eq!(kind(&target.status), "idle");
        }
        _ => panic!("a should cast"),
    }
}

#[test]
fn pending_effects_follow_roster_order_and_change_nothing() {
    let spell = Action::new(1, Moment::new(1, 0));
    let mut engine = Engine::new();
    engine.add_entity(plain(5, "foe"));
    engine.add_entity(caster(9, spell.clone()));
    engine.add_entity(caster(4, spell));
    let effects = engine.pending_effects(Moment::new(0, 100)).ok().unwrap();
    let sources: Vec<u128> = effects
        .iter()
        .map(|e| match e {
            Effect::BeginCast { source, .. } => source.id,
            _ => panic!("only casts expected"),
        })
        .collect();
    assert_eq!(sources, vec![9, 4]);
    assert_eq!(engine.current_time(), Moment::new(0, 0));
    assert_eq!(kind(&engine.entity(9).unwrap().status), "idle");
    let again = engine.pending_effects(Moment::new(0, 100)).ok().unwrap();
    assert_eq!(format!("{:?}", effects), format!("{:?}", again));
}

fn dot_aura(owner: &Entity, target: &Entity, ticks: Vec<Moment>, end: Moment) -> Aura {
    Aura {
        id: 77,
        source: owner.clone(),
        target: target.clone(),
        start_time: Moment::new(0, 0),
        end_time: end,
        effects: vec![AuraEffect::DoT {
            id: 1,
            ticks,
            potency: 40,
            skill_type: SkillType::Spell,
            damage_type: DamageType::Magic(simxiv::Element::Fire),
        }],
    }
}

fn pending_ticks(engine: &Engine, id: u128) -> Vec<Moment> {
    match &engine.entity(id).unwrap().auras[0].effects[0] {
        AuraEffect::DoT { ticks, .. } => ticks.clone(),
        _ => panic!("a DoT was attached"),
    }
}

#[test]
fn dot_ticks_are_consumed_as_the_clock_passes_them() {
    let owner = plain(1, "owner");
    let mut victim = plain(2, "victim");
    let ticks = vec![Moment::new(3, 0), Moment::new(6, 0), Moment::new(9, 0)];
    victim.add_aura(dot_aura(&owner, &victim, ticks, Moment::new(10, 0)));
    let mut engine = Engine::new();
    engine.add_entity(owner);
    engine.add_entity(victim);
    let step = Moment::new(1, 0);
    // Up to and including 3.0 the first tick has not been passed.
    for _ in 0..3 {
        assert!(engine.pending_effects(engine.current_time() + step).ok().unwrap().is_empty());
        engine.crank_by(step).unwrap();
    }
    assert_eq!(pending_ticks(&engine, 2).len(), 3);
    // The tick to 4.0 passes 3.0: exactly one periodic hit, two ticks left.
    let due = engine.pending_effects(Moment::new(4, 0)).ok().unwrap();
    assert_eq!(due.len(), 1);
    match &due[0] {
        Effect::Damage { source, target, action, potency, periodic, .. } => {
            assert_eq!(source.id, 1);
            assert_eq!(target.id, 2);
            assert_eq!(*action, 77);
            assert_eq!(*potency, 40);
            assert!(*periodic);
        }
        _ => panic!("a periodic hit was due"),
    }
    engine.crank_by(step).unwrap();
    assert_eq!(pending_ticks(&engine, 2), vec![Moment::new(6, 0), Moment::new(9, 0)]);
    assert!(engine.pending_effects(Moment::new(5, 0)).ok().unwrap().is_empty());
    // On to 9.0: the tick at 6.0 is passed on the way, the one at 9.0 is not.
    for _ in 0..5 {
        engine.crank_by(step).unwrap();
    }
    assert_eq!(engine.current_time(), Moment::new(9, 0));
    assert_eq!(pending_ticks(&engine, 2), vec![Moment::new(9, 0)]);
    // The tick to 10.0 passes 9.0 and reaches the aura's end: it is purged.
    assert_eq!(engine.pending_effects(Moment::new(10, 0)).ok().unwrap().len(), 1);
    engine.crank_by(step).unwrap();
    assert!(engine.entity(2).unwrap().auras.is_empty());
}

#[test]
fn one_long_tick_consumes_every_tick_it_passes() {
    let owner = plain(1, "owner");
    let mut victim = plain(2, "victim");
    let ticks = vec![Moment::new(3, 0), Moment::new(6, 0), Moment::new(9, 0)];
    victim.add_aura(dot_aura(&owner, &victim, ticks, Moment::new(30, 0)));
    let mut engine = Engine::new();
    engine.add_entity(victim);
    assert_eq!(engine.pending_effects(Moment::new(7, 0)).ok().unwrap().len(), 2);
    engine.crank_by(Moment::new(7, 0)).unwrap();
    assert_eq!(pending_ticks(&engine, 2), vec![Moment::new(9, 0)]);
}

#[test]
fn process_effects_applies_each_kind() {
    let mut me = plain(1, "me");
    me.set_resource(Resource::new("mana".to_string(), 50, 100));
    let foe = plain(2, "foe");
    let spell = Action::new(4, Moment::new(2, 0));
    let mut engine = Engine::new();
    engine.add_entity(me.clone());
    engine.add_entity(foe.clone());
    let now = Moment::new(5, 250);
    let effects = vec![
        Effect::ModifyResource { target: me.clone(), resource: "mana".to_string(), amount: -70 },
        Effect::ApplyAura { source: me.clone(), target: foe.clone(), aura: 3, duration: Moment::new(1, 900) },
        Effect::ApplyAura { source: foe.clone(), target: foe.clone(), aura: 3, duration: Moment::new(0, 1) },
        Effect::Damage {
            source: me.clone(),
            target: foe.clone(),
            action: 4,
            potency: 100,
            skill_type: SkillType::Spell,
            damage_type: DamageType::Blunt,
            periodic: false,
        },
        Effect::BeginCast { source: me.clone(), target: foe.clone(), action: spell.clone(), duration: Moment::new(2, 0) },
        Effect::BeginAnimationLock {
            action: spell.clone(),
            target: foe.clone(),
            start: Moment::new(1, 0),
            duration: Moment::new(0, 750),
        },
    ];
    assert_eq!(engine.process_effects(now, effects), Ok(()));
    assert_eq!(engine.current_time(), Moment::new(0, 0));
    let me_now = engine.entity(1).unwrap();
    assert_eq!(me_now.resources[0].current_value, 0);
    match &me_now.status {
        Status::Casting { source, target, spell, start_time, end_time } => {
            assert_eq!((source.id, target.id, spell.id), (1, 2, 4));
            assert_eq!(*start_time, now);
            assert_eq!(*end_time, Moment::new(7, 250));
        }
        _ => panic!("me should cast"),
    }
    let foe_now = engine.entity(2).unwrap();
    let auras: Vec<(u32, u128, Moment, Moment)> =
        foe_now.auras.iter().map(|a| (a.id, a.source.id, a.start_time, a.end_time)).collect();
    assert_eq!(
        auras,
        vec![(3, 1, now, Moment::new(7, 150)), (3, 2, now, Moment::new(5, 251))]
    );
    match &foe_now.status {
        Status::AnimationLocked { action, start_time, end_time } => {
            assert_eq!(action.id, 4);
            assert_eq!(*start_time, Moment::new(1, 0));
            assert_eq!(*end_time, Moment::new(1, 750));
        }
        _ => panic!("foe should be locked"),
    }
    let more = vec![
        Effect::RemoveAura { source: me.clone(), target: foe.clone(), aura: 3 },
        Effect::BeginIdle { target: me.clone(), start: Moment::new(8, 0) },
    ];
    assert_eq!(engine.process_effects(now, more), Ok(()));
    let left: Vec<u128> = engine.entity(2).unwrap().auras.iter().map(|a| a.source.id).collect();
    assert_eq!(left, vec![2]);
    match &engine.entity(1).unwrap().status {
        Status::Idle { start_time } => assert_eq!(*start_time, Moment::new(8, 0)),
        _ => panic!("me should idle"),
    }
}

#[test]
fn process_effects_refuses_an_unknown_subject_and_applies_nothing() {
    let me = plain(1, "me");
    let ghost = plain(99, "ghost");
    let mut engine = Engine::new();
    engine.add_entity(me.clone());
    let effects = vec![
        Effect::ApplyAura { source: me.clone(), target: me.clone(), aura: 3, duration: Moment::new(1, 0) },
        Effect::BeginIdle { target: ghost.clone(), start: Moment::new(1, 0) },
    ];
    assert_eq!(engine.process_effects(Moment::new(1, 0), effects), Err(SimError::UnresolvedTarget));
    assert!(engine.entity(1).unwrap().auras.is_empty());
    // A cast is looked up by its source, not by its target.
    let spell = Action::new(4, Moment::new(2, 0));
    let by_ghost =
        vec![Effect::BeginCast { source: ghost.clone(), target: me.clone(), action: spell.clone(), duration: Moment::new(1, 0) }];
    assert_eq!(engine.process_effects(Moment::new(1, 0), by_ghost), Err(SimError::UnresolvedTarget));
    let at_ghost =
        vec![Effect::BeginCast { source: me.clone(), target: ghost.clone(), action: spell, duration: Moment::new(1, 0) }];
    assert_eq!(engine.process_effects(Moment::new(1, 0), at_ghost), Ok(()));
    // Damage changes no entity, so it needs none.
    let hit = vec![Effect::Damage {
        source: ghost.clone(),
        target: ghost.clone(),
        action: 1,
        potency: 1,
        skill_type: SkillType::Auto,
        damage_type: DamageType::Piercing,
        periodic: true,
    }];
    assert_eq!(engine.process_effects(Moment::new(1, 0), hit), Ok(()));
}

#[test]
fn process_effects_refuses_a_span_that_leads_nowhere() {
    let me = plain(1, "me");
    let mut engine = Engine::new();
    engine.add_entity(me.clone());
    let negative = vec![
        Effect::BeginIdle { target: me.clone(), start: Moment::new(3, 0) },
        Effect::ApplyAura { source: me.clone(), target: me.clone(), aura: 3, duration: Moment::new(-1, 0) },
    ];
    assert_eq!(engine.process_effects(Moment::new(1, 0), negative), Err(SimError::InvalidDuration));
    match &engine.entity(1).unwrap().status {
        Status::Idle { start_time } => assert_eq!(*start_time, Moment::new(0, 0)),
        _ => panic!("should idle"),
    }
    let too_far = vec![Effect::ApplyAura {
        source: me.clone(),
        target: me.clone(),
        aura: 3,
        duration: Moment::new(i32::MAX, 0),
    }];
    assert_eq!(engine.process_effects(Moment::new(1, 0), too_far), Err(SimError::InvalidDuration));
    // The first effect that cannot be applied names the error.
    let both = vec![
        Effect::ApplyAura { source: me.clone(), target: me.clone(), aura: 3, duration: Moment::new(0, -5) },
        Effect::BeginIdle { target: plain(99, "ghost"), start: Moment::new(3, 0) },
    ];
    assert_eq!(engine.process_effects(Moment::new(1, 0), both), Err(SimError::InvalidDuration));
}

#[test]
fn a_failed_tick_changes_nothing() {
    let action = Action::new(1, Moment::new(2, 500));
    let mut engine = Engine::new();
    engine.add_entity(caster(1, action));
    engine.add_entity(plain(2, "foe"));
    engine.crank_by(Moment::new(0, 100)).unwrap();
    let before = format!("{:?}", engine.entities());
    assert_eq!(engine.crank_by(Moment::new(-1, 0)), Err(SimError::InvalidDuration));
    assert_eq!(engine.crank_by(Moment::new(0, -100)), Err(SimError::InvalidDuration));
    assert_eq!(engine.crank_by(Moment::new(i32::MAX, 900)), Err(SimError::InvalidDuration));
    assert_eq!(engine.current_time(), Moment::new(0, 100));
    assert_eq!(format!("{:?}", engine.entities()), before);
    // The same tick, made again with a span that works, goes through.
    assert_eq!(engine.crank_by(Moment::new(0, 100)), Ok(()));
    assert_eq!(engine.current_time(), Moment::new(0, 200));
}

#[test]
fn a_tick_whose_effects_cannot_be_applied_changes_nothing() {
    // The caster finishes a cast whose aura would end beyond what a moment
    // can hold; its idle effect comes after the failing one.
    let action = Action::new(1, Moment::new(1, 0)).with_effects(Generator::ApplyAura {
        recipient: Recipient::Targets,
        aura: 5,
        duration: Moment::new(i32::MAX, 0),
    });
    let mut engine = Engine::new();
    engine.add_entity(caster(1, action));
    engine.add_entity(plain(2, "foe"));
    engine.crank_by(Moment::new(0, 500)).unwrap();
    engine.crank_by(Moment::new(0, 500)).unwrap();
    assert_eq!(kind(&engine.entity(1).unwrap().status), "casting");
    let before = format!("{:?}", engine.entities());
    assert_eq!(engine.crank_by(Moment::new(0, 500)), Err(SimError::InvalidDuration));
    assert_eq!(engine.current_time(), Moment::new(1, 0));
    assert_eq!(format!("{:?}", engine.entities()), before);
}

#[test]
fn a_zero_tick_is_a_tick() {
    let action = Action::new(1, Moment::new(2, 500));
    let mut engine = Engine::new();
    engine.add_entity(caster(1, action));
    engine.add_entity(plain(2, "foe"));
    assert_eq!(engine.crank_by(Moment::new(0, 0)), Ok(()));
    assert_eq!(engine.current_time(), Moment::new(0, 0));
    assert_eq!(kind(&engine.entity(1).unwrap().status), "casting");
}

#[test]
fn crank_through_hands_out_what_the_tick_applied() {
    let owner = plain(1, "owner");
    let mut victim = plain(2, "foe");
    victim.add_aura(dot_aura(&owner, &victim, vec![Moment::new(0, 50)], Moment::new(10, 0)));
    let spell = Action::new(1, Moment::new(1, 0));
    let mut engine = Engine::new();
    engine.add_entity(caster(1, spell));
    engine.add_entity(victim);
    let expected = format!("{:?}", engine.pending_effects(Moment::new(0, 100)).ok().unwrap());
    let applied = engine.crank_through(Moment::new(0, 100)).ok().unwrap();
    assert_eq!(format!("{:?}", applied), expected);
    assert_eq!(applied.len(), 2);
    assert!(matches!(&applied[0], Effect::BeginCast { .. }));
    assert!(matches!(&applied[1], Effect::Damage { periodic: true, .. }));
    assert_eq!(engine.current_time(), Moment::new(0, 100));
    assert_eq!(kind(&engine.entity(1).unwrap().status), "casting");
    // Nothing is handed out twice.
    let applied = engine.crank_through(Moment::new(0, 100)).ok().unwrap();
    assert!(applied.is_empty());
    assert_eq!(engine.crank_through(Moment::new(0, -1)).err(), Some(SimError::InvalidDuration));
    assert_eq!(engine.current_time(), Moment::new(0, 200));
}

#[test]
fn the_clock_is_normalized_and_never_runs_back() {
    let mut engine = Engine::new();
    let mut last = engine.current_time();
    for step in [Moment::new(0, 999), Moment::new(0, 1), Moment::new(0, 1500), Moment::new(2, 0), Moment::new(0, 0)] {
        engine.crank_by(step).unwrap();
        let now = engine.current_time();
        assert!(0 <= now.m && now.m < 1000 && now.s >= 0);
        assert!(last <= now);
        last = now;
    }
    assert_eq!(last, Moment::new(4, 500));
}

#[test]
fn animation_lock_runs_from_its_own_start() {
    let me = plain(1, "me");
    let spell = Action::new(4, Moment::new(2, 0));
    let mut engine = Engine::new();
    engine.add_entity(me.clone());
    let lock = vec![Effect::BeginAnimationLock {
        action: spell.clone(),
        target: me.clone(),
        start: Moment::new(2, 500),
        duration: Moment::new(0, 750),
    }];
    assert_eq!(engine.process_effects(Moment::new(2, 600), lock), Ok(()));
    match &engine.entity(1).unwrap().status {
        Status::AnimationLocked { action, start_time, end_time } => {
            assert_eq!(action.id, 4);
            assert_eq!(*start_time, Moment::new(2, 500));
            assert_eq!(*end_time, Moment::new(3, 250));
        }
        _ => panic!("me should be locked"),
    }
    // The span is measured from the lock's start, not from the time of application.
    let too_far = vec![Effect::BeginAnimationLock {
        action: spell.clone(),
        target: me.clone(),
        start: Moment::new(i32::MAX, 500),
        duration: Moment::new(0, 750),
    }];
    assert_eq!(engine.process_effects(Moment::new(0, 0), too_far), Err(SimError::InvalidDuration));
    let fits = vec![Effect::BeginAnimationLock {
        action: spell.clone(),
        target: me.clone(),
        start: Moment::new(0, 0),
        duration: Moment::new(1, 0),
    }];
    assert_eq!(engine.process_effects(Moment::new(i32::MAX, 500), fits), Ok(()));
}

#[test]
fn a_cast_that_ends_between_ticks_locks_from_its_end() {
    // Cast time 2.45 s, begun at 0.1 s: the cast ends at 2.55 s, the tick to
    // 2.6 s sees it, and the lock runs from 2.55 s to 3.3 s.
    let action = Action::new(1, Moment::new(2, 450)).with_animation_delay(Some(Moment::new(0, 750)));
    let mut engine = Engine::new();
    engine.add_entity(caster(1, action));
    engine.add_entity(plain(2, "foe"));
    let step = Moment::new(0, 100);
    for _ in 0..25 {
        engine.crank_by(step).unwrap();
    }
    assert_eq!(engine.current_time(), Moment::new(2, 500));
    assert_eq!(kind(&engine.entity(1).unwrap().status), "casting");
    engine.crank_by(step).unwrap();
    match &engine.entity(1).unwrap().status {
        Status::AnimationLocked { action, start_time, end_time } => {
            assert_eq!(action.id, 1);
            assert_eq!(*start_time, Moment::new(2, 550));
            assert_eq!(*end_time, Moment::new(3, 300));
        }
        _ => panic!("the caster should be locked"),
    }
    for _ in 0..6 {
        engine.crank_by(step).unwrap();
        assert_eq!(kind(&engine.entity(1).unwrap().status), "locked");
    }
    assert_eq!(engine.current_time(), Moment::new(3, 200));
    engine.crank_by(step).unwrap();
    match &engine.entity(1).unwrap().status {
        Status::Idle { start_time } => assert_eq!(*start_time, Moment::new(3, 300)),
        _ => panic!("the caster should idle"),
    }
}
