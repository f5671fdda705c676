//! Actions: immutable descriptions of what an actor can do, built from a
//! small vocabulary of named rules that compose by wrapping.
use crate::aura::{DamageType, SkillType};
use crate::moment::Moment;
use std::sync::Arc;
use vstd::prelude::*;

verus! {

/// `Arc::clone`: a second handle to the same shared value. Nothing is
/// copied, so the result is the value the argument points to.
#[verifier::external_body]
pub(crate) fn share<T>(handle: &Arc<T>) -> (r: Arc<T>)
    ensures
        r == *handle,
{
    Arc::clone(handle)
}

/// Whom an action may be aimed at, and how far.
#[derive(Clone, Copy, PartialEq, Eq, Structural, Debug)]
pub enum ActionTarget {
    Direct { range: u32, target_mask: u32 },
    Area { range: u32, target_mask: u32, radius: u32 },
}

/// When an actor may use an action.
#[derive(Clone, Copy, PartialEq, Eq, Structural, Debug)]
pub enum AvailabilityRule {
    Always,
    Never,
    /// The actor carries an aura of this id that it applied itself.
    WithOwnAura(u32),
    /// The actor carries no aura of this id that it applied itself.
    WithoutOwnAura(u32),
}

/// A step that rewrites a cast time. It sees the time computed so far.
#[derive(Clone, Copy, PartialEq, Eq, Structural, Debug)]
pub enum CastModifier {
    /// Instant while the actor carries its own aura of this id; otherwise
    /// the time computed so far stands.
    InstantWithOwnAura(u32),
    /// The given time, whatever was computed so far.
    Fixed(Moment),
}

/// How long an actor takes to cast. A zero moment means an instant action.
#[derive(Debug)]
pub enum CastTimeRule {
    Base(Moment),
    /// `modifier` applied to whatever `prior` computes.
    Modified { prior: Arc<CastTimeRule>, modifier: CastModifier },
}

/// Whom a generated effect addresses.
#[derive(Clone, Copy, PartialEq, Eq, Structural, Debug)]
pub enum Recipient {
    /// The acting entity itself.
    Actor,
    /// Each target of the action, in order.
    Targets,
}

/// What effects an action produces for an actor and its targets.
#[derive(Debug)]
pub enum Generator {
    Nothing,
    ApplyAura { recipient: Recipient, aura: u32, duration: Moment },
    RemoveAura { recipient: Recipient, aura: u32 },
    Damage { action: u32, potency: u32, skill_type: SkillType, damage_type: DamageType },
    ModifyResource { recipient: Recipient, resource: String, amount: i32 },
    /// `inner`, but only while the actor carries no aura of this id that it
    /// applied itself.
    UnlessOwnAura { aura: u32, inner: Arc<Generator> },
    /// Everything `first` produces, then everything `second` produces.
    Sequence { first: Arc<Generator>, second: Arc<Generator> },
}

/// How a decision-list entry finds its target in the roster.
#[derive(Debug)]
pub enum TargetSelector {
    /// The first entity in the roster with this name.
    Named(String),
    /// The acting entity.
    Itself,
    /// The entity with this id.
    Id(u128),
}

/// One entry of a decision list.
#[derive(Debug)]
pub enum ConditionalAction {
    Cast { spell: u32, selector: TargetSelector },
}

/// What an actor can do: whom it may be aimed at, when it may be used, how
/// long it takes and what it produces. An action is never changed; each
/// `with_` method returns a new one.
#[derive(Debug)]
pub struct Action {
    pub id: u32,
    pub target_type: ActionTarget,
    pub available: AvailabilityRule,
    pub effect: Arc<Generator>,
    pub animation_delay: Option<Moment>,
    pub off_gcd: bool,
    pub cast_time: Arc<CastTimeRule>,
    pub recast_time: Moment,
}

impl Clone for TargetSelector {
    fn clone(&self) -> (r: TargetSelector)
        ensures
            r == *self,
    {
        match self {
            TargetSelector::Named(name) => TargetSelector::Named(name.clone()),
            TargetSelector::Itself => TargetSelector::Itself,
            TargetSelector::Id(id) => TargetSelector::Id(*id),
        }
    }
}

impl Clone for ConditionalAction {
    fn clone(&self) -> (r: ConditionalAction)
        ensures
            r == *self,
    {
        match self {
            ConditionalAction::Cast { spell, selector } => ConditionalAction::Cast {
                spell: *spell,
                selector: selector.clone(),
            },
        }
    }
}

impl Clone for Action {
    fn clone(&self) -> (r: Action)
        ensures
            r == *self,
    {
        Action {
            id: self.id,
            target_type: self.target_type,
            available: self.available,
            effect: share(&self.effect),
            animation_delay: self.animation_delay,
            off_gcd: self.off_gcd,
            cast_time: share(&self.cast_time),
            recast_time: self.recast_time,
        }
    }
}

impl Action {
    /// The action with `extra` appended to its effect generator: what the
    /// action produced before still comes first.
    pub open spec fn extended(self, extra: Generator) -> Action {
        Action { effect: Arc::new(Generator::Sequence { first: self.effect, second: Arc::new(extra) }), ..self }
    }

    /// The action with `modifier` applied on top of its cast-time rule.
    pub open spec fn recast(self, modifier: CastModifier) -> Action {
        Action { cast_time: Arc::new(CastTimeRule::Modified { prior: self.cast_time, modifier }), ..self }
    }

    /// The action that [`Action::new`] makes: aimed directly with a range
    /// of 40, always available, without effects or animation delay, cast
    /// in `base_cast_time`.
    pub open spec fn initial(id: u32, base_cast_time: Moment) -> Action {
        Action {
            id,
            target_type: ActionTarget::Direct { range: 40, target_mask: 0 },
            available: AvailabilityRule::Always,
            effect: Arc::new(Generator::Nothing),
            animation_delay: None,
            off_gcd: true,
            cast_time: Arc::new(CastTimeRule::Base(base_cast_time)),
            recast_time: Moment { s: 0, m: 0 },
        }
    }

    /// A new action with permissive defaults: always available, no
    /// effects, no animation delay, cast in `base_cast_time`.
    pub fn new(id: u32, base_cast_time: Moment) -> (r: Action)
        ensures
            r == Action::initial(id, base_cast_time),
    {
        Action {
            id,
            target_type: ActionTarget::Direct { range: 40, target_mask: 0 },
            available: AvailabilityRule::Always,
            effect: Arc::new(Generator::Nothing),
            animation_delay: None,
            off_gcd: true,
            cast_time: Arc::new(CastTimeRule::Base(base_cast_time)),
            recast_time: Moment::new(0, 0),
        }
    }

    /// Replaces the targeting rule.
    pub fn with_target_type(self, new_type: ActionTarget) -> (r: Action)
        ensures
            r == (Action { target_type: new_type, ..self }),
    {
        Action { target_type: new_type, ..self }
    }

    /// Replaces the availability rule.
    pub fn with_available_condition(self, new_avail: AvailabilityRule) -> (r: Action)
        ensures
            r == (Action { available: new_avail, ..self }),
    {
        Action { available: new_avail, ..self }
    }

    /// Replaces the effect generator.
    pub fn with_effects(self, new_effect: Generator) -> (r: Action)
        ensures
            r == (Action { effect: Arc::new(new_effect), ..self }),
    {
        Action { effect: Arc::new(new_effect), ..self }
    }

    /// Appends `new_effect` to the effect generator: the derived action
    /// produces what this one did, followed by what `new_effect` produces.
    pub fn with_effect_modifier(self, new_effect: Generator) -> (r: Action)
        ensures
            r == self.extended(new_effect),
    {
        let Action { id, target_type, available, effect, animation_delay, off_gcd, cast_time, recast_time } = self;
        Action {
            id,
            target_type,
            available,
            effect: Arc::new(Generator::Sequence { first: effect, second: Arc::new(new_effect) }),
            animation_delay,
            off_gcd,
            cast_time,
            recast_time,
        }
    }

    /// Replaces the animation delay; `None` means that the action ends in
    /// idling.
    pub fn with_animation_delay(self, new_delay: Option<Moment>) -> (r: Action)
        ensures
            r == (Action { animation_delay: new_delay, ..self }),
    {
        Action { animation_delay: new_delay, ..self }
    }

    /// Wraps the cast-time rule: the derived action's cast time is
    /// `modifier` applied to this action's cast time.
    pub fn with_cast_modifier(self, modifier: CastModifier) -> (r: Action)
        ensures
            r == self.recast(modifier),
    {
        let Action { id, target_type, available, effect, animation_delay, off_gcd, cast_time, recast_time } = self;
        Action {
            id,
            target_type,
            available,
            effect,
            animation_delay,
            off_gcd,
            cast_time: Arc::new(CastTimeRule::Modified { prior: cast_time, modifier }),
            recast_time,
        }
    }

    /// Replaces the recast time.
    pub fn with_recast_time(self, new_time: Moment) -> (r: Action)
        ensures
            r == (Action { recast_time: new_time, ..self }),
    {
        Action { recast_time: new_time, ..self }
    }
}

} // verus!
