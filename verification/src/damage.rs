//! Damage: the two-step contract between the engine and whatever works out
//! magnitudes, and the level tables that such a strategy reads.
use crate::aura::{DamageType, SkillType};
use crate::effect::Effect;
use crate::entity::{Entity, Job};
use vstd::prelude::*;

verus! {

/// What the attacker rolled. The flag says whether the hit was direct.
#[derive(Clone, Copy, PartialEq, Eq, Structural, Debug)]
pub enum AttackRoll {
    Hit(bool),
    CriticalHit(bool),
}

/// What the defender rolled.
#[derive(Clone, Copy, PartialEq, Eq, Structural, Debug)]
pub enum DefenseRoll {
    Dodge,
    Parry,
    Block,
    Hit,
}

/// Damage as dealt, before the target's defenses.
#[derive(Debug)]
pub struct RawDamage {
    pub value: u32,
    pub ability: u32,
    pub range: (u32, u32),
    pub target: Entity,
    pub damage_type: DamageType,
    pub attack_roll: AttackRoll,
}

/// Damage as taken.
#[derive(Debug)]
pub struct AppliedDamage {
    pub value: u32,
    pub range: (u32, u32),
    pub damage_type: DamageType,
    pub attack_roll: AttackRoll,
    pub defense_roll: DefenseRoll,
}

/// Works out magnitudes. The engine routes damage effects to a strategy
/// and asks nothing of the numbers that come back.
pub trait DamageStrategy {
    /// The damage that `source` deals with a damage effect.
    fn deal_damage(&self, source: &Entity, damage: Effect) -> RawDamage
        requires
            damage@ is Damage,
    ;

    /// The damage that `target` takes from damage dealt.
    fn apply_damage(&self, target: &Entity, damage: RawDamage) -> AppliedDamage;
}

/// The highest level that the level tables cover.
pub const LEVEL_CAP: u16 = 70;

/// The main-attribute modifier of a level.
pub open spec fn main_modifier(level: u16) -> u32 {
    match level {
        1 => 20,
        2 => 21,
        3 => 22,
        4 => 24,
        5 => 26,
        6 => 27,
        7 => 29,
        8 => 31,
        9 => 33,
        10 => 35,
        11 => 36,
        12 => 38,
        13 => 41,
        14 => 44,
        15 => 46,
        16 => 49,
        17 => 52,
        18 => 54,
        19 => 57,
        20 => 60,
        21 => 63,
        22 => 67,
        23 => 71,
        24 => 74,
        25 => 78,
        26 => 81,
        27 => 85,
        28 => 89,
        29 => 92,
        30 => 97,
        31 => 101,
        32 => 106,
        33 => 110,
        34 => 115,
        35 => 119,
        36 => 124,
        37 => 128,
        38 => 134,
        39 => 139,
        40 => 144,
        41 => 150,
        42 => 155,
        43 => 161,
        44 => 166,
        45 => 171,
        46 => 177,
        47 => 183,
        48 => 189,
        49 => 196,
        50 => 202,
        51 => 204,
        52 => 205,
        53 => 207,
        54 => 209,
        55 => 210,
        56 => 212,
        57 => 214,
        58 => 215,
        59 => 217,
        60 => 218,
        61 => 224,
        62 => 228,
        63 => 236,
        64 => 244,
        65 => 252,
        66 => 260,
        67 => 268,
        68 => 276,
        69 => 284,
        70 => 292,
        _ => 0,
    }
}

/// The sub-attribute modifier of a level.
pub open spec fn sub_modifier(level: u16) -> u32 {
    match level {
        1 => 56,
        2 => 57,
        3 => 60,
        4 => 62,
        5 => 65,
        6 => 68,
        7 => 70,
        8 => 73,
        9 => 76,
        10 => 78,
        11 => 82,
        12 => 85,
        13 => 89,
        14 => 93,
        15 => 96,
        16 => 100,
        17 => 104,
        18 => 109,
        19 => 113,
        20 => 116,
        21 => 122,
        22 => 127,
        23 => 133,
        24 => 138,
        25 => 144,
        26 => 150,
        27 => 155,
        28 => 162,
        29 => 168,
        30 => 173,
        31 => 181,
        32 => 188,
        33 => 194,
        34 => 202,
        35 => 209,
        36 => 215,
        37 => 223,
        38 => 229,
        39 => 236,
        40 => 244,
        41 => 253,
        42 => 263,
        43 => 272,
        44 => 283,
        45 => 292,
        46 => 302,
        47 => 311,
        48 => 322,
        49 => 331,
        50 => 341,
        51 => 342,
        52 => 344,
        53 => 345,
        54 => 346,
        55 => 347,
        56 => 349,
        57 => 350,
        58 => 351,
        59 => 352,
        60 => 354,
        61 => 355,
        62 => 356,
        63 => 357,
        64 => 358,
        65 => 359,
        66 => 360,
        67 => 361,
        68 => 362,
        69 => 363,
        70 => 364,
        _ => 0,
    }
}

/// The divisor of a level. Through level 50 it is the sub-attribute
/// modifier.
pub open spec fn div_modifier(level: u16) -> u32 {
    if level <= 50 {
        sub_modifier(level)
    } else {
        match level {
            51 => 393,
            52 => 444,
            53 => 496,
            54 => 548,
            55 => 600,
            56 => 651,
            57 => 703,
            58 => 755,
            59 => 806,
            60 => 858,
            61 => 941,
            62 => 1032,
            63 => 1133,
            64 => 1243,
            65 => 1364,
            66 => 1497,
            67 => 1643,
            68 => 1802,
            69 => 1978,
            70 => 2170,
            _ => 0,
        }
    }
}

/// The name of the attribute that a job's attack power rests on.
pub open spec fn primary_stat_name(job: Job) -> Seq<char> {
    match job {
        Job::DRG | Job::MNK | Job::WAR | Job::PLD | Job::DRK | Job::SAM => "Strength"@,
        Job::BRD | Job::NIN | Job::MCH => "Dexterity"@,
        Job::BLM | Job::SMN | Job::RDM => "Intelligence"@,
        Job::WHM | Job::AST | Job::SCH => "Mind"@,
        _ => "Strength"@,
    }
}

/// The name of the statistic that holds the weapon damage behind a hit.
pub open spec fn weapon_damage_stat_name(damage_type: DamageType, skill_type: SkillType) -> Seq<char> {
    match damage_type {
        DamageType::Magic(_) => "Magic Damage"@,
        _ => match skill_type {
            SkillType::Auto => "Auto-attack"@,
            SkillType::Skill => "Physical Damage"@,
            SkillType::Spell => "Magic Damage"@,
        },
    }
}

/// The name of the statistic that holds the attack power behind a hit.
pub open spec fn attack_power_stat_name(skill_type: SkillType) -> Seq<char> {
    match skill_type {
        SkillType::Auto | SkillType::Skill => "Attack Power"@,
        SkillType::Spell => "Magic Attack Power"@,
    }
}

/// The name of the statistic that holds the defense against a hit.
pub open spec fn defense_stat_name(damage_type: DamageType) -> Seq<char> {
    match damage_type {
        DamageType::Magic(_) => "Magic Defense"@,
        _ => "Defense"@,
    }
}

/// The level tables of the stock damage formulas, and the statistics that
/// the formulas read.
#[derive(Clone, Copy, Debug)]
pub struct AssumedDamageStrategy {}

impl AssumedDamageStrategy {
    /// The tables.
    pub fn new() -> (r: AssumedDamageStrategy) {
        AssumedDamageStrategy {  }
    }

    /// The name of the attribute that a job's attack power rests on.
    pub fn primary_stat(&self, job: &Job) -> (r: &'static str)
        ensures
            r@ == primary_stat_name(*job),
    {
        match job {
            Job::DRG | Job::MNK | Job::WAR | Job::PLD | Job::DRK | Job::SAM => "Strength",
            Job::BRD | Job::NIN | Job::MCH => "Dexterity",
            Job::BLM | Job::SMN | Job::RDM => "Intelligence",
            Job::WHM | Job::AST | Job::SCH => "Mind",
            _ => "Strength",
        }
    }

    /// The name of the statistic that holds the weapon damage behind a hit.
    pub fn weapon_damage_stat(&self, damage_type: &DamageType, skill_type: &SkillType) -> (r:
        &'static str)
        ensures
            r@ == weapon_damage_stat_name(*damage_type, *skill_type),
    {
        match damage_type {
            DamageType::Magic(_) => "Magic Damage",
            _ => match skill_type {
                SkillType::Auto => "Auto-attack",
                SkillType::Skill => "Physical Damage",
                SkillType::Spell => "Magic Damage",
            },
        }
    }

    /// The name of the statistic that holds the attack power behind a hit.
    pub fn attack_power_stat(&self, skill_type: &SkillType) -> (r: &'static str)
        ensures
            r@ == attack_power_stat_name(*skill_type),
    {
        match skill_type {
            SkillType::Auto | SkillType::Skill => "Attack Power",
            SkillType::Spell => "Magic Attack Power",
        }
    }

    /// The name of the statistic that holds the defense against a hit.
    pub fn defense_stat(&self, damage_type: &DamageType) -> (r: &'static str)
        ensures
            r@ == defense_stat_name(*damage_type),
    {
        match damage_type {
            DamageType::Magic(_) => "Magic Defense",
            _ => "Defense",
        }
    }

    /// The main-attribute modifier of a level.
    pub fn level_main(&self, level: &u16) -> (r: u32)
        requires
            1 <= *level <= LEVEL_CAP,
        ensures
            r == main_modifier(*level),
            r > 0,
    {
        match *level {
            1 => 20,
            2 => 21,
            3 => 22,
            4 => 24,
            5 => 26,
            6 => 27,
            7 => 29,
            8 => 31,
            9 => 33,
            10 => 35,
            11 => 36,
            12 => 38,
            13 => 41,
            14 => 44,
            15 => 46,
            16 => 49,
            17 => 52,
            18 => 54,
            19 => 57,
            20 => 60,
            21 => 63,
            22 => 67,
            23 => 71,
            24 => 74,
            25 => 78,
            26 => 81,
            27 => 85,
            28 => 89,
            29 => 92,
            30 => 97,
            31 => 101,
            32 => 106,
            33 => 110,
            34 => 115,
            35 => 119,
            36 => 124,
            37 => 128,
            38 => 134,
            39 => 139,
            40 => 144,
            41 => 150,
            42 => 155,
            43 => 161,
            44 => 166,
            45 => 171,
            46 => 177,
            47 => 183,
            48 => 189,
            49 => 196,
            50 => 202,
            51 => 204,
            52 => 205,
            53 => 207,
            54 => 209,
            55 => 210,
            56 => 212,
            57 => 214,
            58 => 215,
            59 => 217,
            60 => 218,
            61 => 224,
            62 => 228,
            63 => 236,
            64 => 244,
            65 => 252,
            66 => 260,
            67 => 268,
            68 => 276,
            69 => 284,
            70 => 292,
            _ => 0,
        }
    }

    /// The attack-power divisor, the same at every level.
    pub fn ap_div(&self, level: &u16) -> (r: u32)
        ensures
            r == 125,
    {
        125
    }

    /// The sub-attribute modifier of a level.
    pub fn level_sub(&self, level: &u16) -> (r: u32)
        requires
            1 <= *level <= LEVEL_CAP,
        ensures
            r == sub_modifier(*level),
            r > 0,
    {
        match *level {
            1 => 56,
            2 => 57,
            3 => 60,
            4 => 62,
            5 => 65,
            6 => 68,
            7 => 70,
            8 => 73,
            9 => 76,
            10 => 78,
            11 => 82,
            12 => 85,
            13 => 89,
            14 => 93,
            15 => 96,
            16 => 100,
            17 => 104,
            18 => 109,
            19 => 113,
            20 => 116,
            21 => 122,
            22 => 127,
            23 => 133,
            24 => 138,
            25 => 144,
            26 => 150,
            27 => 155,
            28 => 162,
            29 => 168,
            30 => 173,
            31 => 181,
            32 => 188,
            33 => 194,
            34 => 202,
            35 => 209,
            36 => 215,
            37 => 223,
            38 => 229,
            39 => 236,
            40 => 244,
            41 => 253,
            42 => 263,
            43 => 272,
            44 => 283,
            45 => 292,
            46 => 302,
            47 => 311,
            48 => 322,
            49 => 331,
            50 => 341,
            51 => 342,
            52 => 344,
            53 => 345,
            54 => 346,
            55 => 347,
            56 => 349,
            57 => 350,
            58 => 351,
            59 => 352,
            60 => 354,
            61 => 355,
            62 => 356,
            63 => 357,
            64 => 358,
            65 => 359,
            66 => 360,
            67 => 361,
            68 => 362,
            69 => 363,
            70 => 364,
            _ => 0,
        }
    }

    /// The divisor of a level.
    pub fn level_div(&self, level: &u16) -> (r: u32)
        requires
            1 <= *level <= LEVEL_CAP,
        ensures
            r == div_modifier(*level),
            r > 0,
    {
        if *level <= 50 {
            self.level_sub(level)
        } else {
            match *level {
                51 => 393,
                52 => 444,
                53 => 496,
                54 => 548,
                55 => 600,
                56 => 651,
                57 => 703,
                58 => 755,
                59 => 806,
                60 => 858,
                61 => 941,
                62 => 1032,
                63 => 1133,
                64 => 1243,
                65 => 1364,
                66 => 1497,
                67 => 1643,
                68 => 1802,
                69 => 1978,
                70 => 2170,
                _ => 0,
            }
        }
    }
}

} // verus!
