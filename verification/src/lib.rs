//! A discrete-time combat simulation: actors follow scripted decision lists,
//! execute timed actions and carry timed auras, driven by a fixed-step
//! logical clock.
//!
//! A tick has two halves that never mix. First every entity says what it
//! does at the new time, reading the roster as it was committed
//! ([`Entity::effects_at`]); the answers are [`Effect`]s, plain descriptions
//! that change nothing. Then the [`Engine`] applies the effects in order,
//! lets every entity consume passed ticks and drop ended auras, and commits
//! the new time. A tick that cannot be made changes nothing.
//!
//! Behaviour is layered onto an [`Action`] with named rules that wrap the
//! rules already there ([`Generator`], [`CastTimeRule`],
//! [`AvailabilityRule`], [`TargetSelector`]), in a fixed order.
//!
//! Every type that holds lists or text has a mathematical value, reached
//! with `@`, and every operation says what it does to these values.
//!
//! - [`moment`], [`text`]: fixed-point time, its order, sum and text.
//! - [`action`], [`rules`]: actions, their rules and what the rules mean.
//! - [`aura`], [`effect`], [`entity`]: the data of the simulation.
//! - [`decision`]: the per-entity state machine.
//! - [`engine`]: the tick driver.
//! - [`transitions`]: with what status an entity leaves a tick.
//! - [`damage`]: the contract with a damage strategy, and level tables.
//! - [`spelldata`], [`numbers`]: action definitions from tabular data.
//! - [`trace`]: a line of text per effect.
pub mod action;
pub mod aura;
pub mod damage;
pub mod decision;
pub mod effect;
pub mod engine;
pub mod entity;
pub mod error;
mod ident;
pub mod moment;
pub mod numbers;
pub mod rules;
pub mod seqs;
pub mod spelldata;
pub mod text;
pub mod trace;
pub mod transitions;

pub use action::{
    Action, ActionTarget, AvailabilityRule, CastModifier, CastTimeRule, ConditionalAction,
    Generator, Recipient, TargetSelector,
};
pub use aura::{AuraEffect, DamageType, Element, SkillType};
pub use damage::{
    AppliedDamage, AssumedDamageStrategy, AttackRoll, DamageStrategy, DefenseRoll, RawDamage,
};
pub use effect::Effect;
pub use error::SimError;
pub use engine::Engine;
pub use entity::{Aura, Entity, Job, Resource, Statistic, Status, Trait};
pub use moment::Moment;
pub use spelldata::{ActionId, CostType, KnownCost, Range, RawAction};
