use simxiv::{
    Action, ActionTarget, AvailabilityRule, CastModifier, CastTimeRule, Effect, Entity, Generator,
    Moment, Recipient,
};
use std::sync::Arc;

fn actor(id: u128, name: &str) -> Entity {
    Entity::with_id(id, name.to_string(), None, 70, vec![], Arc::new(vec![]))
}

fn summaries(effects: &[Effect]) -> Vec<String> {
    effects
        .iter()
        .map(|e| match e {
            Effect::ApplyAura { target, aura, .. } => format!("apply {} on {}", aura, target.name),
            Effect::RemoveAura { target, aura, .. } => format!("remove {} from {}", aura, target.name),
            Effect::Damage { target, potency, periodic, .. } => {
                format!("damage {} to {} periodic {}", potency, target.name, periodic)
            }
            Effect::ModifyResource { target, resource, amount } => {
                format!("resource {} {} of {}", resource, amount, target.name)
            }
            Effect::BeginCast { .. } => "cast".to_string(),
            Effect::BeginAnimationLock { .. } => "lock".to_string(),
            Effect::BeginIdle { .. } => "idle".to_string(),
        })
        .collect()
}

#[test]
fn new_action_has_permissive_defaults() {
    let a = Action::new(7, Moment::new(2, 500));
    assert_eq!(a.id, 7);
    assert_eq!(a.target_type, ActionTarget::Direct { range: 40, target_mask: 0 });
    assert_eq!(a.available, AvailabilityRule::Always);
    assert_eq!(a.animation_delay, None);
    assert!(a.off_gcd);
    assert_eq!(a.recast_time, Moment::new(0, 0));
    let me = actor(1, "me");
    assert_eq!(a.cast_time.cast_time(&me), Moment::new(2, 500));
    assert!(a.available.check(&me));
    assert!(a.effect.generate(&me, &vec![&me]).is_empty());
}

#[test]
fn builders_replace_one_field_and_keep_the_rest() {
    let a = Action::new(7, Moment::new(2, 500))
        .with_target_type(ActionTarget::Area { range: 25, target_mask: 8, radius: 5 })
        .with_animation_delay(Some(Moment::new(0, 750)))
        .with_recast_time(Moment::new(2, 500))
        .with_available_condition(AvailabilityRule::WithoutOwnAura(3));
    assert_eq!(a.id, 7);
    assert_eq!(a.target_type, ActionTarget::Area { range: 25, target_mask: 8, radius: 5 });
    assert_eq!(a.animation_delay, Some(Moment::new(0, 750)));
    assert_eq!(a.recast_time, Moment::new(2, 500));
    assert_eq!(a.available, AvailabilityRule::WithoutOwnAura(3));
    assert!(a.off_gcd);
    let me = actor(1, "me");
    assert_eq!(a.cast_time.cast_time(&me), Moment::new(2, 500));
}

#[test]
fn deriving_an_action_leaves_the_base_as_it_was() {
    let base = Action::new(1, Moment::new(1, 0));
    let derived = base
        .clone()
        .with_effect_modifier(Generator::RemoveAura { recipient: Recipient::Actor, aura: 2 })
        .with_cast_modifier(CastModifier::Fixed(Moment::new(9, 0)));
    let me = actor(1, "me");
    assert!(base.effect.generate(&me, &vec![&me]).is_empty());
    assert_eq!(base.cast_time.cast_time(&me), Moment::new(1, 0));
    assert_eq!(derived.effect.generate(&me, &vec![&me]).len(), 1);
    assert_eq!(derived.cast_time.cast_time(&me), Moment::new(9, 0));
}

#[test]
fn with_effects_replaces_the_generator() {
    let a = Action::new(1, Moment::new(0, 0))
        .with_effects(Generator::RemoveAura { recipient: Recipient::Actor, aura: 1 })
        .with_effects(Generator::Damage {
            action: 1,
            potency: 150,
            skill_type: simxiv::SkillType::Spell,
            damage_type: simxiv::DamageType::Magic(simxiv::Element::Fire),
        });
    let me = actor(1, "me");
    let foe = actor(2, "foe");
    assert_eq!(
        summaries(&a.effect.generate(&me, &vec![&foe])),
        vec!["damage 150 to foe periodic false".to_string()]
    );
}

#[test]
fn effect_modifiers_append_in_the_order_applied() {
    let g0 = Generator::Damage {
        action: 1,
        potency: 100,
        skill_type: simxiv::SkillType::Skill,
        damage_type: simxiv::DamageType::Slashing,
    };
    let g1 = Generator::ApplyAura { recipient: Recipient::Actor, aura: 5, duration: Moment::new(12, 0) };
    let g2 = Generator::ModifyResource {
        recipient: Recipient::Targets,
        resource: "mana".to_string(),
        amount: -30,
    };
    let a = Action::new(1, Moment::new(0, 0))
        .with_effects(g0)
        .with_effect_modifier(g1)
        .with_effect_modifier(g2);
    let me = actor(1, "me");
    let foe = actor(2, "foe");
    let other = actor(3, "other");
    let effects = a.effect.generate(&me, &vec![&foe, &other]);
    assert_eq!(
        summaries(&effects),
        vec![
            "damage 100 to foe periodic false".to_string(),
            "damage 100 to other periodic false".to_string(),
            "apply 5 on me".to_string(),
            "resource mana -30 of foe".to_string(),
            "resource mana -30 of other".to_string(),
        ]
    );
    match &effects[2] {
        Effect::ApplyAura { source, target, aura, duration } => {
            assert_eq!(source.id, 1);
            assert_eq!(target.id, 1);
            assert_eq!(*aura, 5);
            assert_eq!(*duration, Moment::new(12, 0));
        }
        _ => panic!("third effect should apply an aura"),
    }
}

#[test]
fn modifier_order_matters() {
    let remove = || Generator::RemoveAura { recipient: Recipient::Actor, aura: 2 };
    let apply =
        || Generator::ApplyAura { recipient: Recipient::Actor, aura: 2, duration: Moment::new(1, 0) };
    let me = actor(1, "me");
    let one = Action::new(1, Moment::new(0, 0)).with_effect_modifier(remove()).with_effect_modifier(apply());
    let two = Action::new(1, Moment::new(0, 0)).with_effect_modifier(apply()).with_effect_modifier(remove());
    assert_eq!(
        summaries(&one.effect.generate(&me, &vec![])),
        vec!["remove 2 from me".to_string(), "apply 2 on me".to_string()]
    );
    assert_eq!(
        summaries(&two.effect.generate(&me, &vec![])),
        vec!["apply 2 on me".to_string(), "remove 2 from me".to_string()]
    );
}

#[test]
fn cast_modifiers_see_what_earlier_ones_computed() {
    let me = actor(1, "me");
    let base = Action::new(1, Moment::new(2, 500));
    let a = base.clone().with_cast_modifier(CastModifier::Fixed(Moment::new(1, 0)));
    assert_eq!(a.cast_time.cast_time(&me), Moment::new(1, 0));
    // The later modifier has the last word.
    let b = base
        .clone()
        .with_cast_modifier(CastModifier::Fixed(Moment::new(1, 0)))
        .with_cast_modifier(CastModifier::Fixed(Moment::new(3, 0)));
    assert_eq!(b.cast_time.cast_time(&me), Moment::new(3, 0));
    // Without the aura, an aura-bound modifier hands on what it was given.
    let c = base
        .clone()
        .with_cast_modifier(CastModifier::Fixed(Moment::new(1, 0)))
        .with_cast_modifier(CastModifier::InstantWithOwnAura(2));
    assert_eq!(c.cast_time.cast_time(&me), Moment::new(1, 0));
    assert!(matches!(&*c.cast_time, CastTimeRule::Modified { .. }));
}

#[test]
fn unless_own_aura_is_silent_while_the_aura_is_on() {
    let g = Generator::UnlessOwnAura {
        aura: 2,
        inner: Arc::new(Generator::ApplyAura {
            recipient: Recipient::Actor,
            aura: 2,
            duration: Moment::new(12, 0),
        }),
    };
    let mut me = actor(1, "me");
    assert_eq!(summaries(&g.generate(&me, &vec![])), vec!["apply 2 on me".to_string()]);
    let mine = simxiv::Aura {
        id: 2,
        source: me.clone(),
        target: me.clone(),
        start_time: Moment::new(0, 0),
        end_time: Moment::new(12, 0),
        effects: vec![],
    };
    me.add_aura(mine);
    assert!(g.generate(&me, &vec![]).is_empty());
}

#[test]
fn availability_rules_read_the_actors_own_auras() {
    let mut me = actor(1, "me");
    let foe = actor(2, "foe");
    assert!(AvailabilityRule::Always.check(&me));
    assert!(!AvailabilityRule::Never.check(&me));
    assert!(!AvailabilityRule::WithOwnAura(2).check(&me));
    assert!(AvailabilityRule::WithoutOwnAura(2).check(&me));
    // An aura of that id from someone else does not count.
    me.add_aura(simxiv::Aura {
        id: 2,
        source: foe.clone(),
        target: me.clone(),
        start_time: Moment::new(0, 0),
        end_time: Moment::new(5, 0),
        effects: vec![],
    });
    assert!(!AvailabilityRule::WithOwnAura(2).check(&me));
    me.add_aura(simxiv::Aura {
        id: 2,
        source: me.clone(),
        target: me.clone(),
        start_time: Moment::new(0, 0),
        end_time: Moment::new(5, 0),
        effects: vec![],
    });
    assert!(AvailabilityRule::WithOwnAura(2).check(&me));
    assert!(!AvailabilityRule::WithoutOwnAura(2).check(&me));
    assert_eq!(CastModifier::InstantWithOwnAura(2).adjust(&me, Moment::new(2, 500)), Moment::new(0, 0));
    assert_eq!(CastModifier::InstantWithOwnAura(3).adjust(&me, Moment::new(2, 500)), Moment::new(2, 500));
}
