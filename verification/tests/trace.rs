use simxiv::{Action, DamageType, Effect, Entity, Moment, SkillType};
use std::sync::Arc;

fn named(id: u128, name: &str) -> Entity {
    Entity::with_id(id, name.to_string(), None, 70, vec![], Arc::new(vec![]))
}

#[test]
fn trace_lines_name_time_subject_verb_and_object() {
    let me = named(1, "red_mage");
    let foe = named(2, "big_bad");
    let now = Moment::new(2, 600);
    let spell = Action::new(7507, Moment::new(2, 500));
    let line = |effect: Effect| effect.trace_line(&now);
    assert_eq!(
        line(Effect::BeginIdle { target: me.clone(), start: Moment::new(9, 9) }),
        Some("2:600: Target red_mage begins to idle".to_string())
    );
    assert_eq!(
        line(Effect::ApplyAura { source: me.clone(), target: foe.clone(), aura: 2, duration: Moment::new(12, 0) }),
        Some("2:600: Target red_mage applies aura 2 on big_bad".to_string())
    );
    assert_eq!(
        line(Effect::ModifyResource { target: foe.clone(), resource: "mana".to_string(), amount: -30 }),
        Some("2:600: Target big_bad gained mana -30".to_string())
    );
    assert_eq!(
        line(Effect::ModifyResource { target: foe.clone(), resource: "tp".to_string(), amount: 1000 }),
        Some("2:600: Target big_bad gained tp 1000".to_string())
    );
    assert_eq!(
        line(Effect::BeginCast {
            source: me.clone(),
            target: foe.clone(),
            action: spell.clone(),
            duration: Moment::new(2, 500)
        }),
        Some("2:600: Target red_mage begins to cast 7507 on big_bad".to_string())
    );
    assert_eq!(
        line(Effect::BeginAnimationLock {
            action: spell.clone(),
            target: me.clone(),
            start: now,
            duration: Moment::new(0, 750)
        }),
        Some("2:600: Target red_mage is animation locked from casting 7507 for 0:750".to_string())
    );
    assert_eq!(line(Effect::RemoveAura { source: me.clone(), target: me.clone(), aura: 2 }), None);
    assert_eq!(
        line(Effect::Damage {
            source: me.clone(),
            target: foe.clone(),
            action: 1,
            potency: 100,
            skill_type: SkillType::Spell,
            damage_type: DamageType::Blunt,
            periodic: false
        }),
        None
    );
}

#[test]
fn trace_lines_write_the_largest_numbers_in_full() {
    let me = named(1, "");
    let line = Effect::ApplyAura { source: me.clone(), target: me.clone(), aura: u32::MAX, duration: Moment::new(0, 0) }
        .trace_line(&Moment::new(0, 5));
    assert_eq!(line, Some("0:005: Target  applies aura 4294967295 on ".to_string()));
    let line = Effect::ModifyResource { target: me.clone(), resource: "x".to_string(), amount: i32::MIN }
        .trace_line(&Moment::new(-1, 5));
    assert_eq!(line, Some("-1:005: Target  gained x -2147483648".to_string()));
}
