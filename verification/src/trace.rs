//! A line of text for an effect, for whoever keeps a trace of a run.
use crate::effect::{Effect, EffectModel};
use crate::moment::Moment;
use crate::text::{append_decimal, append_signed, decimal, moment_text, signed_decimal};
use vstd::prelude::*;
use vstd::string::StringExecFns;

verus! {

/// How the trace names the subject of a line.
pub open spec fn subject_text(time: Moment, name: Seq<char>) -> Seq<char> {
    moment_text(time) + ": Target "@ + name
}

/// The line that the trace holds for an effect applied at `time`; `None`
/// for the effects that the trace passes over.
pub open spec fn trace_text(time: Moment, effect: EffectModel) -> Option<Seq<char>> {
    match effect {
        EffectModel::BeginIdle { target, .. } => Some(
            subject_text(time, target.name) + " begins to idle"@,
        ),
        EffectModel::ApplyAura { source, target, aura, .. } => Some(
            subject_text(time, source.name) + " applies aura "@ + decimal(aura as nat) + " on "@
                + target.name,
        ),
        EffectModel::ModifyResource { target, resource, amount } => Some(
            subject_text(time, target.name) + " gained "@ + resource + " "@ + signed_decimal(amount),
        ),
        EffectModel::BeginCast { source, target, action, .. } => Some(
            subject_text(time, source.name) + " begins to cast "@ + decimal(action.id as nat)
                + " on "@ + target.name,
        ),
        EffectModel::BeginAnimationLock { target, action, duration, .. } => Some(
            subject_text(time, target.name) + " is animation locked from casting "@ + decimal(
                action.id as nat,
            ) + " for "@ + moment_text(duration),
        ),
        EffectModel::RemoveAura { .. } => None,
        EffectModel::Damage { .. } => None,
    }
}

/// Starts a line: the time, then whom the line is about.
fn begin_line(time: &Moment, name: &String) -> (r: String)
    ensures
        r@ == subject_text(*time, name@),
{
    let mut out = time.to_text();
    out.append(": Target ");
    out.append(name.as_str());
    out
}

impl Effect {
    /// The line that a trace holds for this effect, applied at `time`.
    pub fn trace_line(&self, time: &Moment) -> (r: Option<String>)
        ensures
            match r {
                Some(line) => trace_text(*time, self@) == Some(line@),
                None => trace_text(*time, self@) is None,
            },
    {
        match self {
            Effect::BeginIdle { target, .. } => {
                let mut out = begin_line(time, &target.name);
                out.append(" begins to idle");
                Some(out)
            },
            Effect::ApplyAura { source, target, aura, .. } => {
                let mut out = begin_line(time, &source.name);
                out.append(" applies aura ");
                append_decimal(&mut out, *aura as u64);
                out.append(" on ");
                out.append(target.name.as_str());
                Some(out)
            },
            Effect::ModifyResource { target, resource, amount } => {
                let mut out = begin_line(time, &target.name);
                out.append(" gained ");
                out.append(resource.as_str());
                out.append(" ");
                append_signed(&mut out, *amount);
                Some(out)
            },
            Effect::BeginCast { source, target, action, .. } => {
                let mut out = begin_line(time, &source.name);
                out.append(" begins to cast ");
                append_decimal(&mut out, action.id as u64);
                out.append(" on ");
                out.append(target.name.as_str());
                Some(out)
            },
            Effect::BeginAnimationLock { target, action, duration, .. } => {
                let mut out = begin_line(time, &target.name);
                out.append(" is animation locked from casting ");
                append_decimal(&mut out, action.id as u64);
                out.append(" for ");
                let span = duration.to_text();
                out.append(span.as_str());
                Some(out)
            },
            Effect::RemoveAura { .. } => None,
            Effect::Damage { .. } => None,
        }
    }
}

} // verus!
