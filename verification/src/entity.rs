//! Actors: identity, status, resources, auras and the decision list.
use crate::action::{share, Action, ConditionalAction};
use crate::aura::{AuraEffect, AuraEffectModel, DamageType, SkillType};
use crate::moment::Moment;
use crate::ident::fresh_id;
use crate::seqs::{
    copy_vec, first_match, lemma_filter_next, lemma_filter_none, lemma_first_match_at,
    lemma_table_domain, lemma_table_last_wins, lemma_table_push, lemma_table_update, table,
};
use std::sync::Arc;
use vstd::prelude::*;

verus! {

/// A passive trait of an entity.
#[derive(Clone, Copy, PartialEq, Eq, Structural, Debug)]
pub struct Trait {}

/// The job of an entity.
#[derive(Clone, Copy, PartialEq, Eq, Structural, Debug)]
pub enum Job {
    GLA,
    PGL,
    MRD,
    LNC,
    ARC,
    CNJ,
    THM,
    PLD,
    MNK,
    WAR,
    DRG,
    BRD,
    WHM,
    BLM,
    ACN,
    SMN,
    SCH,
    ROG,
    NIN,
    MCH,
    DRK,
    AST,
    SAM,
    RDM,
}

/// A named pool with a ceiling, such as mana.
#[derive(Debug)]
pub struct Resource {
    pub name: String,
    pub current_value: u32,
    pub max_value: u32,
}

/// The mathematical value of a [`Resource`].
pub struct ResourceModel {
    pub name: Seq<char>,
    pub current: nat,
    pub max: nat,
}

/// A named number on an entity's sheet.
#[derive(Debug)]
pub struct Statistic {
    pub name: String,
    pub value: u32,
}

/// A timed attachment on an entity. `source` and `target` record the two
/// entities as they were when the aura was made.
#[derive(Debug)]
pub struct Aura {
    pub id: u32,
    pub source: Entity,
    pub target: Entity,
    pub start_time: Moment,
    pub end_time: Moment,
    pub effects: Vec<AuraEffect>,
}

/// What an entity is doing. The entities inside `Casting` are records of
/// caster and target as they were when the cast began, not live handles.
#[derive(Debug)]
pub enum Status {
    Casting { source: Box<Entity>, target: Box<Entity>, spell: Action, start_time: Moment, end_time: Moment },
    AnimationLocked { action: Action, start_time: Moment, end_time: Moment },
    Idle { start_time: Moment },
}

/// An actor in the simulation.
#[derive(Debug)]
pub struct Entity {
    pub id: u128,
    pub name: String,
    pub level: u16,
    pub job: Option<Job>,
    pub status: Status,
    pub last_auto: Moment,
    pub traits: Vec<Trait>,
    /// Attached auras, oldest first. Several may share an id.
    pub auras: Vec<Aura>,
    /// Statistics by name; where a name occurs twice the last entry counts.
    pub statistics: Vec<Statistic>,
    /// Resources by name; where a name occurs twice the last entry counts.
    pub resources: Vec<Resource>,
    pub action_repository: Arc<Vec<Action>>,
    pub action_list: Vec<ConditionalAction>,
}

/// The mathematical value of an [`Aura`].
pub struct AuraModel {
    pub id: u32,
    pub source: EntityModel,
    pub target: EntityModel,
    pub start_time: Moment,
    pub end_time: Moment,
    pub effects: Seq<AuraEffectModel>,
}

/// The mathematical value of a [`Status`].
pub enum StatusModel {
    Casting {
        source: Box<EntityModel>,
        target: Box<EntityModel>,
        spell: Action,
        start_time: Moment,
        end_time: Moment,
    },
    AnimationLocked { action: Action, start_time: Moment, end_time: Moment },
    Idle { start_time: Moment },
}

/// The mathematical value of an [`Entity`].
pub struct EntityModel {
    pub id: u128,
    pub name: Seq<char>,
    pub level: u16,
    pub job: Option<Job>,
    pub status: StatusModel,
    pub last_auto: Moment,
    pub traits: Seq<Trait>,
    pub auras: Seq<AuraModel>,
    pub statistics: Map<Seq<char>, u32>,
    pub resources: Map<Seq<char>, ResourceModel>,
    pub catalog: Seq<Action>,
    pub decisions: Seq<ConditionalAction>,
}

impl View for Resource {
    type V = ResourceModel;

    open spec fn view(&self) -> ResourceModel {
        ResourceModel {
            name: self.name@,
            current: self.current_value as nat,
            max: self.max_value as nat,
        }
    }
}

/// The names of a list of statistics, in order.
pub open spec fn statistic_names(entries: Seq<Statistic>) -> Seq<Seq<char>> {
    Seq::new(entries.len(), |i: int| entries[i].name@)
}

/// The values of a list of statistics, in order.
pub open spec fn statistic_values(entries: Seq<Statistic>) -> Seq<u32> {
    Seq::new(entries.len(), |i: int| entries[i].value)
}

/// The names of a list of resources, in order.
pub open spec fn resource_names(entries: Seq<Resource>) -> Seq<Seq<char>> {
    Seq::new(entries.len(), |i: int| entries[i].name@)
}

/// The values of a list of resources, in order.
pub open spec fn resource_models(entries: Seq<Resource>) -> Seq<ResourceModel> {
    Seq::new(entries.len(), |i: int| entries[i]@)
}

/// The values of a list of aura sub-effects, in order.
pub open spec fn aura_effect_models(effects: Seq<AuraEffect>) -> Seq<AuraEffectModel> {
    Seq::new(effects.len(), |i: int| effects[i]@)
}

/// The values of a list of auras, in order.
pub open spec fn aura_models(auras: Seq<Aura>) -> Seq<AuraModel> {
    Seq::new(auras.len(), |i: int| auras[i]@)
}

/// The values of a list of entities, in order.
pub open spec fn entity_models(entities: Seq<Entity>) -> Seq<EntityModel> {
    Seq::new(entities.len(), |i: int| entities[i]@)
}

impl Aura {
    /// The value of the aura.
    pub open spec fn model(self) -> AuraModel
        decreases self,
    {
        AuraModel {
            id: self.id,
            source: self.source.model(),
            target: self.target.model(),
            start_time: self.start_time,
            end_time: self.end_time,
            effects: aura_effect_models(self.effects@),
        }
    }

    /// A deep copy.
    pub fn snapshot(&self) -> (r: Aura)
        ensures
            r@ == self@,
        decreases self,
    {
        let mut effects: Vec<AuraEffect> = Vec::new();
        let mut i: usize = 0;
        while i < self.effects.len()
            invariant
                i <= self.effects.len(),
                effects@.len() == i,
                forall|k: int| 0 <= k < i ==> (#[trigger] effects@[k])@ == self.effects@[k]@,
            decreases self.effects.len() - i,
        {
            effects.push(self.effects[i].clone());
            i += 1;
        }
        assert(aura_effect_models(effects@) =~= aura_effect_models(self.effects@));
        Aura {
            id: self.id,
            source: self.source.snapshot(),
            target: self.target.snapshot(),
            start_time: self.start_time,
            end_time: self.end_time,
            effects,
        }
    }
}

impl Status {
    /// The value of the status.
    pub open spec fn model(self) -> StatusModel
        decreases self,
    {
        match self {
            Status::Casting { source, target, spell, start_time, end_time } => StatusModel::Casting {
                source: Box::new(source.model()),
                target: Box::new(target.model()),
                spell,
                start_time,
                end_time,
            },
            Status::AnimationLocked { action, start_time, end_time } => StatusModel::AnimationLocked {
                action,
                start_time,
                end_time,
            },
            Status::Idle { start_time } => StatusModel::Idle { start_time },
        }
    }

    /// A deep copy.
    pub fn snapshot(&self) -> (r: Status)
        ensures
            r@ == self@,
        decreases self,
    {
        match self {
            Status::Casting { source, target, spell, start_time, end_time } => Status::Casting {
                source: Box::new(source.snapshot()),
                target: Box::new(target.snapshot()),
                spell: spell.clone(),
                start_time: *start_time,
                end_time: *end_time,
            },
            Status::AnimationLocked { action, start_time, end_time } => Status::AnimationLocked {
                action: action.clone(),
                start_time: *start_time,
                end_time: *end_time,
            },
            Status::Idle { start_time } => Status::Idle { start_time: *start_time },
        }
    }
}

impl Entity {
    /// The value of the entity.
    pub open spec fn model(self) -> EntityModel
        decreases self,
    {
        EntityModel {
            id: self.id,
            name: self.name@,
            level: self.level,
            job: self.job,
            status: self.status.model(),
            last_auto: self.last_auto,
            traits: self.traits@,
            auras: Seq::new(
                self.auras.len() as nat,
                |i: int|
                    if 0 <= i < self.auras.len() {
                        self.auras[i].model()
                    } else {
                        arbitrary()
                    },
            ),
            statistics: table(statistic_names(self.statistics@), statistic_values(self.statistics@)),
            resources: table(resource_names(self.resources@), resource_models(self.resources@)),
            catalog: self.action_repository@,
            decisions: self.action_list@,
        }
    }

    /// A deep copy: the entity as it is now, detached from later changes.
    pub fn snapshot(&self) -> (r: Entity)
        ensures
            r@ == self@,
        decreases self,
    {
        let mut auras: Vec<Aura> = Vec::new();
        let mut i: usize = 0;
        while i < self.auras.len()
            invariant
                i <= self.auras.len(),
                auras@.len() == i,
                forall|k: int| 0 <= k < i ==> (#[trigger] auras@[k])@ == self.auras@[k]@,
            decreases self.auras.len() - i,
        {
            auras.push(self.auras[i].snapshot());
            i += 1;
        }
        let mut statistics: Vec<Statistic> = Vec::new();
        let mut i: usize = 0;
        while i < self.statistics.len()
            invariant
                i <= self.statistics.len(),
                statistics@.len() == i,
                forall|k: int|
                    0 <= k < i ==> (#[trigger] statistics@[k]).name@ == self.statistics@[k].name@
                        && statistics@[k].value == self.statistics@[k].value,
            decreases self.statistics.len() - i,
        {
            statistics.push(
                Statistic { name: self.statistics[i].name.clone(), value: self.statistics[i].value },
            );
            i += 1;
        }
        let mut resources: Vec<Resource> = Vec::new();
        let mut i: usize = 0;
        while i < self.resources.len()
            invariant
                i <= self.resources.len(),
                resources@.len() == i,
                forall|k: int| 0 <= k < i ==> (#[trigger] resources@[k])@ == self.resources@[k]@,
            decreases self.resources.len() - i,
        {
            resources.push(self.resources[i].clone());
            i += 1;
        }
        let mut action_list: Vec<ConditionalAction> = Vec::new();
        let mut i: usize = 0;
        while i < self.action_list.len()
            invariant
                i <= self.action_list.len(),
                action_list@ == self.action_list@.take(i as int),
            decreases self.action_list.len() - i,
        {
            action_list.push(self.action_list[i].clone());
            i += 1;
        }
        assert(self.action_list@.take(self.action_list.len() as int) == self.action_list@);
        let r = Entity {
            id: self.id,
            name: self.name.clone(),
            level: self.level,
            job: self.job,
            status: self.status.snapshot(),
            last_auto: self.last_auto,
            traits: copy_vec(&self.traits),
            auras,
            statistics,
            resources,
            action_repository: share(&self.action_repository),
            action_list,
        };
        assert(r@.auras =~= self@.auras);
        assert(statistic_names(r.statistics@) =~= statistic_names(self.statistics@));
        assert(statistic_values(r.statistics@) =~= statistic_values(self.statistics@));
        assert(resource_names(r.resources@) =~= resource_names(self.resources@));
        assert(resource_models(r.resources@) =~= resource_models(self.resources@));
        r
    }
}

impl View for Aura {
    type V = AuraModel;

    open spec fn view(&self) -> AuraModel {
        self.model()
    }
}

impl View for Status {
    type V = StatusModel;

    open spec fn view(&self) -> StatusModel {
        self.model()
    }
}

impl View for Entity {
    type V = EntityModel;

    open spec fn view(&self) -> EntityModel {
        self.model()
    }
}

impl Clone for Resource {
    fn clone(&self) -> (r: Resource)
        ensures
            r@ == self@,
    {
        Resource { name: self.name.clone(), current_value: self.current_value, max_value: self.max_value }
    }
}

impl Clone for Aura {
    fn clone(&self) -> (r: Aura)
        ensures
            r@ == self@,
    {
        self.snapshot()
    }
}

impl Clone for Status {
    fn clone(&self) -> (r: Status)
        ensures
            r@ == self@,
    {
        self.snapshot()
    }
}

impl Clone for Entity {
    fn clone(&self) -> (r: Entity)
        ensures
            r@ == self@,
    {
        self.snapshot()
    }
}

/// Picks the auras of one id that one entity applied.
pub open spec fn applied_by(id: u32, owner: u128) -> spec_fn(AuraModel) -> bool {
    |a: AuraModel| a.id == id && a.source.id == owner
}

/// Picks the auras of one id, whoever applied them.
pub open spec fn with_aura_id(id: u32) -> spec_fn(AuraModel) -> bool {
    |a: AuraModel| a.id == id
}

/// Picks the entities with one id.
pub open spec fn with_id(id: u128) -> spec_fn(EntityModel) -> bool {
    |e: EntityModel| e.id == id
}

/// Picks the entities with one name.
pub open spec fn with_name(name: Seq<char>) -> spec_fn(EntityModel) -> bool {
    |e: EntityModel| e.name == name
}

impl EntityModel {
    /// The oldest attached aura of this id that the entity applied itself.
    pub open spec fn own_aura(self, id: u32) -> Option<AuraModel> {
        first_match(self.auras, applied_by(id, self.id))
    }

    /// The attached auras of one id, oldest first.
    pub open spec fn auras_of(self, id: u32) -> Seq<AuraModel> {
        self.auras.filter(with_aura_id(id))
    }

    /// The named statistic, zero where the sheet does not list it.
    pub open spec fn statistic(self, name: Seq<char>) -> u32 {
        if self.statistics.dom().contains(name) {
            self.statistics[name]
        } else {
            0
        }
    }
}

/// What the model of an aura keeps of the aura's own fields.
pub proof fn lemma_aura_model(a: Aura)
    ensures
        a@.id == a.id,
        a@.source == a.source@,
        a@.target == a.target@,
        a@.source.id == a.source.id,
        a@.target.id == a.target.id,
        a@.start_time == a.start_time,
        a@.end_time == a.end_time,
        a@.effects == aura_effect_models(a.effects@),
{
}

/// The model of an entity lists the models of its auras, in order.
pub proof fn lemma_entity_auras(e: Entity)
    ensures
        e@.auras == aura_models(e.auras@),
{
}

impl Entity {
    /// Where the oldest own aura of this id sits in `auras`.
    pub fn find_own_aura(&self, id: u32) -> (r: Option<usize>)
        ensures
            match r {
                Some(i) => i < self.auras.len() && self@.own_aura(id) == Some(self.auras@[i as int]@),
                None => self@.own_aura(id) is None,
            },
    {
        proof {
            lemma_entity_auras(*self);
        }
        let mut i: usize = 0;
        while i < self.auras.len()
            invariant
                i <= self.auras.len(),
                self@.auras == aura_models(self.auras@),
                forall|j: int| 0 <= j < i ==> !applied_by(id, self.id)(#[trigger] self@.auras[j]),
            decreases self.auras.len() - i,
        {
            proof {
                lemma_aura_model(self.auras@[i as int]);
            }
            if self.auras[i].id == id && self.auras[i].source.id == self.id {
                proof {
                    lemma_first_match_at(self@.auras, applied_by(id, self.id), i as int);
                }
                return Some(i);
            }
            i += 1;
        }
        proof {
            lemma_filter_none(self@.auras, applied_by(id, self.id));
        }
        None
    }
}

impl ResourceModel {
    /// The pool after a signed adjustment, clamped to `[0, max]`.
    pub open spec fn modified(self, amount: int) -> ResourceModel {
        let raw = self.current + amount;
        ResourceModel {
            current: if raw < 0 {
                0
            } else if raw > self.max {
                self.max
            } else {
                raw as nat
            },
            ..self
        }
    }
}

impl Resource {
    /// A pool with the given level and ceiling.
    pub fn new(name: String, current_value: u32, max_value: u32) -> (r: Resource)
        ensures
            r@ == (ResourceModel { name: name@, current: current_value as nat, max: max_value as nat }),
    {
        Resource { name, current_value, max_value }
    }

    /// Adjusts the pool by a signed amount and clamps it to `[0, max]`.
    pub fn modify(&mut self, modifier: i32)
        ensures
            final(self)@ == old(self)@.modified(modifier as int),
            final(self).current_value <= final(self).max_value,
    {
        let intermediate: i64 = self.current_value as i64 + modifier as i64;
        if intermediate < 0 {
            self.current_value = 0;
        } else if intermediate > self.max_value as i64 {
            self.current_value = self.max_value;
        } else {
            self.current_value = intermediate as u32;
        }
    }
}

/// Keeps the auras that end after `time`.
pub open spec fn unexpired(time: Moment) -> spec_fn(AuraModel) -> bool {
    |a: AuraModel| time.before(a.end_time)
}

/// Keeps every aura but those of one id that `source` applied; with no
/// source given, every aura but those of that id.
pub open spec fn not_removed(id: u32, source: Option<u128>) -> spec_fn(AuraModel) -> bool {
    |a: AuraModel|
        !(a.id == id && match source {
            Some(owner) => a.source.id == owner,
            None => true,
        })
}

/// Which auras a sweep over an entity's auras discards.
pub enum Sweep {
    /// Those that have ended by the given time.
    Expired(Moment),
    /// Those of one id, applied by one source or by anyone.
    Applied { id: u32, source: Option<u128> },
}

impl Sweep {
    /// The auras that the sweep leaves attached.
    pub open spec fn keeps(self) -> spec_fn(AuraModel) -> bool {
        match self {
            Sweep::Expired(time) => unexpired(time),
            Sweep::Applied { id, source } => not_removed(id, source),
        }
    }

    /// Whether the sweep leaves this aura attached.
    fn spares(&self, aura: &Aura) -> (r: bool)
        ensures
            r == (self.keeps())(aura@),
    {
        proof {
            lemma_aura_model(*aura);
        }
        match self {
            Sweep::Expired(time) => time.is_before(&aura.end_time),
            Sweep::Applied { id, source } => {
                let hit = aura.id == *id && match source {
                    Some(owner) => aura.source.id == *owner,
                    None => true,
                };
                !hit
            },
        }
    }

    /// Removes from `auras` what the sweep discards, keeping the order of
    /// the rest.
    pub fn run(&self, auras: &mut Vec<Aura>)
        ensures
            aura_models(final(auras)@) == aura_models(old(auras)@).filter(self.keeps()),
    {
        let ghost before = old(auras)@;
        let ghost models = aura_models(before);
        let ghost mut seen: int = 0;
        let mut i: usize = 0;
        assert(models.take(0).filter(self.keeps()) =~= Seq::<AuraModel>::empty()) by {
            reveal(Seq::filter);
        }
        while i < auras.len()
            invariant
                before == old(auras)@,
                models == aura_models(before),
                0 <= seen <= before.len(),
                i <= auras.len(),
                auras.len() - i == before.len() - seen,
                forall|j: int| i <= j < auras.len() ==> auras@[j] == before[seen + (j - i)],
                aura_models(auras@.take(i as int)) == models.take(seen).filter(self.keeps()),
            decreases before.len() - seen,
        {
            proof {
                lemma_filter_next(models, seen, self.keeps());
            }
            if self.spares(&auras[i]) {
                i += 1;
            } else {
                let _ = auras.remove(i);
            }
            proof {
                seen = seen + 1;
            }
        }
        proof {
            assert(models.take(seen) == models);
        }
    }
}

impl Entity {
    /// A new idle entity with the given id and nothing attached.
    pub fn with_id(
        id: u128,
        name: String,
        job: Option<Job>,
        level: u16,
        apl: Vec<ConditionalAction>,
        repository: Arc<Vec<Action>>,
    ) -> (r: Entity)
        ensures
            r@ == (EntityModel {
                id,
                name: name@,
                level,
                job,
                status: StatusModel::Idle { start_time: Moment { s: 0, m: 0 } },
                last_auto: Moment { s: 0, m: 0 },
                traits: Seq::empty(),
                auras: Seq::empty(),
                statistics: Map::empty(),
                resources: Map::empty(),
                catalog: repository@,
                decisions: apl@,
            }),
    {
        let r = Entity {
            id,
            name,
            level,
            job,
            status: Status::Idle { start_time: Moment::new(0, 0) },
            last_auto: Moment::new(0, 0),
            traits: Vec::new(),
            auras: Vec::new(),
            statistics: Vec::new(),
            resources: Vec::new(),
            action_repository: repository,
            action_list: apl,
        };
        assert(r@.auras =~= Seq::<AuraModel>::empty());
        r
    }

    /// A new idle entity under a fresh random id.
    pub fn create(
        name: String,
        job: Option<Job>,
        level: u16,
        apl: Vec<ConditionalAction>,
        repository: Arc<Vec<Action>>,
    ) -> (r: Entity)
        ensures
            r@ == (EntityModel {
                id: r.id,
                name: name@,
                level,
                job,
                status: StatusModel::Idle { start_time: Moment { s: 0, m: 0 } },
                last_auto: Moment { s: 0, m: 0 },
                traits: Seq::empty(),
                auras: Seq::empty(),
                statistics: Map::empty(),
                resources: Map::empty(),
                catalog: repository@,
                decisions: apl@,
            }),
    {
        let id = fresh_id();
        Entity::with_id(id, name, job, level, apl, repository)
    }

    /// Whether the entity can dodge an ability. None can.
    pub fn can_dodge(&self, ability: &u32) -> (r: bool)
        ensures
            !r,
    {
        false
    }

    /// Whether the entity can parry an ability. None can.
    pub fn can_parry(&self, ability: &u32) -> (r: bool)
        ensures
            !r,
    {
        false
    }

    /// Whether the entity can block an ability. None can.
    pub fn can_block(&self, ability: &u32) -> (r: bool)
        ensures
            !r,
    {
        false
    }

    /// The potency of a skill as this entity uses it: the base potency.
    pub fn potency_modifier(&self, skill_id: &u32, base_potency: u32) -> (r: u32)
        ensures
            r == base_potency,
    {
        base_potency
    }

    /// The damage of an ability as this entity deals it: the base damage.
    pub fn modify_damage_from_ability(
        &self,
        skill_id: &u32,
        d_type: &DamageType,
        skill_type: &SkillType,
        base_damage: u32,
    ) -> (r: u32)
        ensures
            r == base_damage,
    {
        base_damage
    }

    /// Where the entry that counts for a statistic sits, if the sheet
    /// lists the name.
    fn find_statistic(&self, key: &String) -> (r: Option<usize>)
        ensures
            match r {
                Some(i) => i < self.statistics.len() && self.statistics@[i as int].name@ == key@
                    && forall|j: int|
                    i < j < self.statistics.len() ==> statistic_names(self.statistics@)[j] != key@,
                None => !statistic_names(self.statistics@).contains(key@),
            },
    {
        let mut i: usize = self.statistics.len();
        while i > 0
            invariant
                i <= self.statistics.len(),
                forall|j: int|
                    i <= j < self.statistics.len() ==> statistic_names(self.statistics@)[j] != key@,
            decreases i,
        {
            i -= 1;
            if self.statistics[i].name == *key {
                return Some(i);
            }
        }
        None
    }

    /// The named statistic, or zero where the sheet does not list it.
    pub fn get_statistic(&self, name: &str) -> (r: u32)
        ensures
            r == self@.statistic(name@),
    {
        let key = name.to_owned();
        let ghost names = statistic_names(self.statistics@);
        let ghost values = statistic_values(self.statistics@);
        match self.find_statistic(&key) {
            Some(i) => {
                proof {
                    lemma_table_last_wins(names, values, i as int);
                }
                self.statistics[i].value
            },
            None => {
                proof {
                    lemma_table_domain(names, values, key@);
                }
                0
            },
        }
    }

    /// Sets the named statistic, listing it if the sheet did not.
    pub fn set_statistic(&mut self, name: &str, value: u32)
        ensures
            final(self)@ == (EntityModel {
                statistics: old(self)@.statistics.insert(name@, value),
                ..old(self)@
            }),
    {
        let key = name.to_owned();
        let ghost names = statistic_names(self.statistics@);
        let ghost values = statistic_values(self.statistics@);
        match self.find_statistic(&key) {
            Some(i) => {
                self.statistics[i].value = value;
                proof {
                    lemma_table_update(names, values, i as int, value);
                    assert(statistic_names(self.statistics@) =~= names);
                    assert(statistic_values(self.statistics@) =~= values.update(i as int, value));
                }
            },
            None => {
                self.statistics.push(Statistic { name: key, value });
                proof {
                    lemma_table_push(names, values, key@, value);
                    assert(statistic_names(self.statistics@) =~= names.push(key@));
                    assert(statistic_values(self.statistics@) =~= values.push(value));
                }
            },
        }
    }

    /// Where the entry that counts for a resource sits, if the entity has
    /// a resource of that name.
    fn find_resource(&self, key: &String) -> (r: Option<usize>)
        ensures
            match r {
                Some(i) => i < self.resources.len() && self.resources@[i as int].name@ == key@
                    && forall|j: int|
                    i < j < self.resources.len() ==> resource_names(self.resources@)[j] != key@,
                None => !resource_names(self.resources@).contains(key@),
            },
    {
        let mut i: usize = self.resources.len();
        while i > 0
            invariant
                i <= self.resources.len(),
                forall|j: int|
                    i <= j < self.resources.len() ==> resource_names(self.resources@)[j] != key@,
            decreases i,
        {
            i -= 1;
            if self.resources[i].name == *key {
                return Some(i);
            }
        }
        None
    }

    /// Gives the entity a resource, in place of any it had under that name.
    pub fn set_resource(&mut self, resource: Resource)
        ensures
            final(self)@ == (EntityModel {
                resources: old(self)@.resources.insert(resource@.name, resource@),
                ..old(self)@
            }),
    {
        let ghost names = resource_names(self.resources@);
        let ghost values = resource_models(self.resources@);
        proof {
            lemma_table_push(names, values, resource@.name, resource@);
        }
        self.resources.push(resource);
        proof {
            assert(resource_names(self.resources@) =~= names.push(resource@.name));
            assert(resource_models(self.resources@) =~= values.push(resource@));
        }
    }

    /// Adjusts the named resource by a signed amount, clamped to its
    /// range. An entity without that resource is left as it is.
    pub fn modify_resource(&mut self, resource_name: String, amount: i32)
        ensures
            final(self)@ == old(self)@.with_resource_modified(resource_name@, amount as int),
    {
        let ghost names = resource_names(self.resources@);
        let ghost values = resource_models(self.resources@);
        match self.find_resource(&resource_name) {
            Some(i) => {
                proof {
                    lemma_table_last_wins(names, values, i as int);
                }
                self.resources[i].modify(amount);
                proof {
                    let changed = values[i as int].modified(amount as int);
                    lemma_table_update(names, values, i as int, changed);
                    assert(resource_names(self.resources@) =~= names);
                    assert(resource_models(self.resources@) =~= values.update(i as int, changed));
                }
            },
            None => {
                proof {
                    lemma_table_domain(names, values, resource_name@);
                }
            },
        }
    }

    /// Replaces the status.
    pub fn set_status(&mut self, new_status: Status)
        ensures
            final(self)@ == (EntityModel { status: new_status@, ..old(self)@ }),
    {
        self.status = new_status;
    }

    /// Attaches an aura. Auras stack: one that is already attached under
    /// the same id stays.
    pub fn add_aura(&mut self, aura: Aura)
        ensures
            final(self)@ == (EntityModel { auras: old(self)@.auras.push(aura@), ..old(self)@ }),
    {
        self.auras.push(aura);
        proof {
            assert(self@.auras =~= old(self)@.auras.push(aura@));
        }
    }

    /// Detaches the auras of one id that `source` applied; with no source
    /// given, all auras of that id.
    pub fn remove_aura(&mut self, id: &u32, source: Option<u128>)
        ensures
            final(self)@ == (EntityModel {
                auras: old(self)@.auras.filter(not_removed(*id, source)),
                ..old(self)@
            }),
    {
        proof {
            lemma_entity_auras(*self);
        }
        let sweep = Sweep::Applied { id: *id, source };
        sweep.run(&mut self.auras);
        proof {
            lemma_entity_auras(*self);
        }
    }

    /// Detaches the auras that have ended by `current_time`.
    pub fn cleanup(&mut self, current_time: Moment)
        ensures
            final(self)@ == (EntityModel {
                auras: old(self)@.auras.filter(unexpired(current_time)),
                ..old(self)@
            }),
    {
        proof {
            lemma_entity_auras(*self);
        }
        let sweep = Sweep::Expired(current_time);
        sweep.run(&mut self.auras);
        proof {
            lemma_entity_auras(*self);
        }
    }

    /// The oldest attached aura of this id that the entity applied itself.
    pub fn has_own_aura(&self, id: &u32) -> (r: Option<Aura>)
        ensures
            match r {
                Some(aura) => self@.own_aura(*id) == Some(aura@),
                None => self@.own_aura(*id) is None,
            },
    {
        match self.find_own_aura(*id) {
            Some(i) => Some(self.auras[i].snapshot()),
            None => None,
        }
    }

    /// The attached auras of one id, oldest first.
    pub fn auras_by_id(&self, id: &u32) -> (r: Vec<Aura>)
        ensures
            aura_models(r@) == self@.auras_of(*id),
    {
        proof {
            lemma_entity_auras(*self);
        }
        let ghost models = self@.auras;
        let mut out: Vec<Aura> = Vec::new();
        let mut i: usize = 0;
        assert(models.take(0).filter(with_aura_id(*id)) =~= Seq::<AuraModel>::empty()) by {
            reveal(Seq::filter);
        }
        while i < self.auras.len()
            invariant
                i <= self.auras.len(),
                models == aura_models(self.auras@),
                aura_models(out@) == models.take(i as int).filter(with_aura_id(*id)),
            decreases self.auras.len() - i,
        {
            proof {
                lemma_filter_next(models, i as int, with_aura_id(*id));
                lemma_aura_model(self.auras@[i as int]);
            }
            if self.auras[i].id == *id {
                let copy = self.auras[i].snapshot();
                out.push(copy);
            }
            i += 1;
        }
        proof {
            assert(models.take(i as int) == models);
        }
        out
    }
}

impl EntityModel {
    /// The entity with one resource adjusted; unchanged where it has no
    /// resource of that name.
    pub open spec fn with_resource_modified(self, name: Seq<char>, amount: int) -> EntityModel {
        if self.resources.dom().contains(name) {
            EntityModel {
                resources: self.resources.insert(name, self.resources[name].modified(amount)),
                ..self
            }
        } else {
            self
        }
    }
}

impl StatusModel {
    /// Two statuses are alike when they are of the same kind and name the
    /// same action and participants. Times are not compared.
    pub open spec fn alike(self, other: StatusModel) -> bool {
        match (self, other) {
            (
                StatusModel::Casting { source: ls, target: lt, spell: la, .. },
                StatusModel::Casting { source: rs, target: rt, spell: ra, .. },
            ) => ls.id == rs.id && lt.id == rt.id && la.id == ra.id,
            (
                StatusModel::AnimationLocked { action: la, .. },
                StatusModel::AnimationLocked { action: ra, .. },
            ) => la.id == ra.id,
            (StatusModel::Idle { .. }, StatusModel::Idle { .. }) => true,
            _ => false,
        }
    }
}

impl PartialEq for Status {
    fn eq(&self, rhs: &Status) -> (r: bool) {
        match (self, rhs) {
            (
                Status::Casting { source: ls, target: lt, spell: la, .. },
                Status::Casting { source: rs, target: rt, spell: ra, .. },
            ) => ls.id == rs.id && lt.id == rt.id && la.id == ra.id,
            (Status::AnimationLocked { action: la, .. }, Status::AnimationLocked { action: ra, .. }) => {
                la.id == ra.id
            },
            (Status::Idle { .. }, Status::Idle { .. }) => true,
            _ => false,
        }
    }
}

impl vstd::std_specs::cmp::PartialEqSpecImpl for Status {
    open spec fn obeys_eq_spec() -> bool {
        true
    }

    open spec fn eq_spec(&self, other: &Status) -> bool {
        self@.alike(other@)
    }
}

/// Auras stack by source: when two auras of one id from two different
/// sources are attached and the auras of the first source are then
/// removed, the second aura stays, behind whatever else stayed.
pub proof fn lemma_removal_spares_other_sources(attached: Seq<AuraModel>, a: AuraModel, b: AuraModel)
    requires
        a.id == b.id,
        a.source.id != b.source.id,
    ensures
        attached.push(a).push(b).filter(not_removed(a.id, Some(a.source.id))) == attached.filter(
            not_removed(a.id, Some(a.source.id)),
        ).push(b),
        attached.filter(with_aura_id(a.id)).len() == 0 ==> attached.push(a).push(b).filter(
            not_removed(a.id, Some(a.source.id)),
        ).filter(with_aura_id(a.id)) == seq![b],
{
    let keep = not_removed(a.id, Some(a.source.id));
    let both = attached.push(a).push(b);
    lemma_filter_next(both, attached.len() as int, keep);
    lemma_filter_next(both, attached.len() as int + 1, keep);
    assert(both.take(attached.len() as int) == attached);
    assert(both.take(attached.len() as int + 2) == both);
    if attached.filter(with_aura_id(a.id)).len() == 0 {
        let kept = attached.filter(keep);
        let of_id = with_aura_id(a.id);
        assert forall|j: int| 0 <= j < kept.len() implies !of_id(#[trigger] kept[j]) by {
            Seq::lemma_filter_contains_rev(attached, keep, kept[j]);
            let i = choose|i: int| 0 <= i < attached.len() && attached[i] == kept[j];
            if of_id(attached[i]) {
                Seq::lemma_filter_contains(attached, of_id, i);
            }
        }
        lemma_filter_none(kept, of_id);
        lemma_filter_next(kept.push(b), kept.len() as int, of_id);
        assert(kept.push(b).take(kept.len() as int) == kept);
        assert(kept.push(b).take(kept.len() as int + 1) == kept.push(b));
    }
}

} // verus!
