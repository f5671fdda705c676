//! Action definitions from tabular ability data.
//!
//! Two shapes of table are read. A *sheet* is the wide ability sheet, one
//! row per ability, of which a handful of columns make an [`Action`]. A
//! [`RawAction`] is one row of the narrow, named-column table.
use crate::action::{Action, ActionTarget};
use crate::moment::Moment;
use crate::numbers::{parse_i32, parse_u32, same_text, written_i32, written_u32};
use vstd::prelude::*;

verus! {

/// The id of an ability in the tables.
pub type ActionId = u32;

/// How far an ability reaches.
#[derive(Clone, Copy, PartialEq, Eq, Structural, Debug)]
pub enum Range {
    Ranged(u32),
    Melee,
}

/// A cost type that the tables name.
#[derive(Clone, Copy, PartialEq, Eq, Structural, Debug)]
pub enum KnownCost {
    Mana,
    Tact,
}

/// What an ability is paid with.
#[derive(Clone, Copy, PartialEq, Eq, Structural, Debug)]
pub enum CostType {
    Known(KnownCost),
    Unknown(u8),
}

/// One row of the named-column table.
#[derive(PartialEq, Eq, Debug)]
pub struct RawAction {
    pub id: ActionId,
    pub name: String,
    pub range: Range,
    pub can_target_friendly: bool,
    pub can_target_self: bool,
    pub can_target_hostile: bool,
    pub cost_type: CostType,
    pub cost: u32,
    pub cast: u32,
    pub recast: u32,
}

/// What is wrong with a field of the named-column table.
#[derive(Clone, Copy, PartialEq, Eq, Structural, Debug)]
pub enum FieldError {
    /// A range below zero that is not -1.
    Range,
    /// A flag that is neither `True` nor `False`.
    Flag,
}

/// Why a sheet cannot be read.
#[derive(Clone, Copy, PartialEq, Eq, Structural, Debug)]
pub enum LoadError {
    /// A record below the preamble could not be read as a row of a
    /// table.
    Table,
    /// A row is too short to hold a column that is read.
    MissingField,
    /// A field that should be a number is not one, or one that does not
    /// fit.
    BadNumber,
}

/// The range that a number in the table stands for: -1 for melee, any
/// other number below zero for nothing.
pub open spec fn range_of(number: int) -> Option<Range> {
    if number == -1 {
        Some(Range::Melee)
    } else if number < 0 {
        None
    } else {
        Some(Range::Ranged(number as u32))
    }
}

/// The flag that a text in the table stands for.
pub open spec fn flag_of(text: Seq<char>) -> Option<bool> {
    if text == "True"@ {
        Some(true)
    } else if text == "False"@ {
        Some(false)
    } else {
        None
    }
}

/// The cost type that a code in the table stands for.
pub open spec fn cost_type_of(code: u8) -> CostType {
    if code == 3 {
        CostType::Known(KnownCost::Mana)
    } else if code == 5 {
        CostType::Known(KnownCost::Tact)
    } else {
        CostType::Unknown(code)
    }
}

impl Range {
    /// The range that a number in the table stands for.
    pub fn from_number(number: i32) -> (r: Option<Range>)
        ensures
            r == range_of(number as int),
    {
        if number == -1 {
            Some(Range::Melee)
        } else if number < 0 {
            None
        } else {
            Some(Range::Ranged(number as u32))
        }
    }
}

impl KnownCost {
    /// The code that the table uses for this cost.
    pub fn code(&self) -> (r: u8)
        ensures
            cost_type_of(r) == CostType::Known(*self),
    {
        match self {
            KnownCost::Mana => 3,
            KnownCost::Tact => 5,
        }
    }
}

impl CostType {
    /// The cost type that a code in the table stands for.
    pub fn from_code(code: u8) -> (r: CostType)
        ensures
            r == cost_type_of(code),
    {
        if code == 3 {
            CostType::Known(KnownCost::Mana)
        } else if code == 5 {
            CostType::Known(KnownCost::Tact)
        } else {
            CostType::Unknown(code)
        }
    }
}

/// Reads a flag of the named-column table: `True` or `False`.
pub fn parse_flag(text: &str) -> (r: Option<bool>)
    ensures
        r == flag_of(text@),
{
    if same_text(text, "True") {
        Some(true)
    } else if same_text(text, "False") {
        Some(false)
    } else {
        None
    }
}

impl RawAction {
    /// The first thing wrong with the fields of a row, if anything is.
    pub open spec fn field_error(
        range: int,
        can_target_friendly: Seq<char>,
        can_target_self: Seq<char>,
        can_target_hostile: Seq<char>,
    ) -> Option<FieldError> {
        if range_of(range) is None {
            Some(FieldError::Range)
        } else if flag_of(can_target_friendly) is None || flag_of(can_target_self) is None || flag_of(
            can_target_hostile,
        ) is None {
            Some(FieldError::Flag)
        } else {
            None
        }
    }

    /// A row from its fields as the table holds them.
    pub fn from_fields(
        id: ActionId,
        name: String,
        range: i32,
        can_target_friendly: &str,
        can_target_self: &str,
        can_target_hostile: &str,
        cost_type: u8,
        cost: u32,
        cast: u32,
        recast: u32,
    ) -> (r: Result<RawAction, FieldError>)
        ensures
            match r {
                Ok(row) => {
                    &&& RawAction::field_error(
                        range as int,
                        can_target_friendly@,
                        can_target_self@,
                        can_target_hostile@,
                    ) is None
                    &&& row.id == id
                    &&& row.name == name
                    &&& Some(row.range) == range_of(range as int)
                    &&& Some(row.can_target_friendly) == flag_of(can_target_friendly@)
                    &&& Some(row.can_target_self) == flag_of(can_target_self@)
                    &&& Some(row.can_target_hostile) == flag_of(can_target_hostile@)
                    &&& row.cost_type == cost_type_of(cost_type)
                    &&& row.cost == cost
                    &&& row.cast == cast
                    &&& row.recast == recast
                },
                Err(error) => RawAction::field_error(
                    range as int,
                    can_target_friendly@,
                    can_target_self@,
                    can_target_hostile@,
                ) == Some(error),
            },
    {
        let range = match Range::from_number(range) {
            Some(range) => range,
            None => {
                return Err(FieldError::Range);
            },
        };
        match (parse_flag(can_target_friendly), parse_flag(can_target_self), parse_flag(can_target_hostile)) {
            (Some(friendly), Some(own), Some(hostile)) => Ok(
                RawAction {
                    id,
                    name,
                    range,
                    can_target_friendly: friendly,
                    can_target_self: own,
                    can_target_hostile: hostile,
                    cost_type: CostType::from_code(cost_type),
                    cost,
                    cast,
                    recast,
                },
            ),
            _ => Err(FieldError::Flag),
        }
    }
}

/// The column of a sheet that holds the ability's id.
pub const COLUMN_ID: usize = 0;

/// The column that holds the range.
pub const COLUMN_RANGE: usize = 15;

/// The column that says whether the ability can be aimed at oneself.
pub const COLUMN_SELF: usize = 16;

/// The column that says whether it can be aimed at the party.
pub const COLUMN_PARTY: usize = 17;

/// The column that says whether it can be aimed at friends.
pub const COLUMN_FRIENDLY: usize = 18;

/// The column that says whether it can be aimed at enemies.
pub const COLUMN_HOSTILE: usize = 19;

/// The column that says whether the ability covers an area.
pub const COLUMN_AREA: usize = 22;

/// The column that holds the radius of the area.
pub const COLUMN_RADIUS: usize = 29;

/// The column that holds the cast time, in hundredths of a second.
pub const COLUMN_CAST: usize = 38;

/// How many rows below the header row of a sheet hold no ability.
pub const PREAMBLE_ROWS: usize = 2;

/// A field of a sheet.
pub type Field = Seq<char>;

/// Whether a field of a sheet says yes.
pub open spec fn says_yes(field: Field) -> bool {
    field == "TRUE"@
}

/// The target mask of a sheet row: one bit each for self, party, friends
/// and enemies, from the lowest up.
pub open spec fn mask_of(own: bool, party: bool, friendly: bool, hostile: bool) -> u32 {
    ((if own {
        1
    } else {
        0int
    }) + (if party {
        2
    } else {
        0int
    }) + (if friendly {
        4
    } else {
        0int
    }) + (if hostile {
        8
    } else {
        0int
    })) as u32
}

/// The moment that a cast time in hundredths of a second comes to.
pub open spec fn cast_moment(hundredths: int) -> Moment {
    if hundredths >= 0 {
        Moment { s: (hundredths / 100) as i32, m: ((hundredths % 100) * 10) as i32 }
    } else {
        Moment { s: (-((-hundredths) / 100)) as i32, m: (-(((-hundredths) % 100) * 10)) as i32 }
    }
}

/// The action that one row of a sheet describes, or why it describes none.
pub open spec fn row_action(row: Seq<Field>) -> Result<Action, LoadError> {
    if row.len() <= COLUMN_CAST {
        Err(LoadError::MissingField)
    } else {
        match (
            written_u32(row[COLUMN_ID as int]),
            written_i32(row[COLUMN_CAST as int]),
            written_i32(row[COLUMN_RANGE as int]),
        ) {
            (Some(id), Some(cast), Some(range)) => {
                let reach = if range < 0 {
                    0u32
                } else {
                    range as u32
                };
                let mask = mask_of(
                    says_yes(row[COLUMN_SELF as int]),
                    says_yes(row[COLUMN_PARTY as int]),
                    says_yes(row[COLUMN_FRIENDLY as int]),
                    says_yes(row[COLUMN_HOSTILE as int]),
                );
                let shape = if says_yes(row[COLUMN_AREA as int]) {
                    match written_u32(row[COLUMN_RADIUS as int]) {
                        Some(radius) => Some(
                            ActionTarget::Area { range: reach, target_mask: mask, radius },
                        ),
                        None => None,
                    }
                } else {
                    Some(ActionTarget::Direct { range: reach, target_mask: mask })
                };
                match shape {
                    Some(target_type) => Ok(
                        Action { target_type, ..Action::initial(id, cast_moment(cast as int)) },
                    ),
                    None => Err(LoadError::BadNumber),
                }
            },
            _ => Err(LoadError::BadNumber),
        }
    }
}

/// The fields of a row, as values.
pub open spec fn row_fields(row: Seq<String>) -> Seq<Field> {
    Seq::new(row.len(), |i: int| row[i]@)
}

/// One record of a table, as a value: its fields, or nothing where the
/// record could not be read.
pub open spec fn record_fields<E>(record: Result<Vec<String>, E>) -> Option<Seq<Field>> {
    match record {
        Ok(row) => Some(row_fields(row@)),
        Err(_) => None,
    }
}

/// The records of a table, as values.
pub open spec fn table_records<E>(records: Seq<Result<Vec<String>, E>>) -> Seq<Option<Seq<Field>>> {
    Seq::new(records.len(), |i: int| record_fields(records[i]))
}

/// The catalog that the records of a sheet describe, in order: one action
/// for each record below the preamble, or the error of the first such
/// record that describes none. The records of the preamble are passed
/// over unread, whether or not they could be read.
pub open spec fn sheet_catalog(records: Seq<Option<Seq<Field>>>, upto: int) -> Result<
    Seq<Action>,
    LoadError,
>
    decreases upto,
{
    if upto <= PREAMBLE_ROWS {
        Ok(Seq::empty())
    } else {
        match sheet_catalog(records, upto - 1) {
            Err(error) => Err(error),
            Ok(before) => match records[upto - 1] {
                None => Err(LoadError::Table),
                Some(row) => match row_action(row) {
                    Ok(action) => Ok(before.push(action)),
                    Err(error) => Err(error),
                },
            },
        }
    }
}

/// The moment of a cast time given in hundredths of a second.
pub fn cast_time_of(hundredths: i32) -> (r: Moment)
    ensures
        r == cast_moment(hundredths as int),
{
    let wide: i64 = hundredths as i64;
    if wide >= 0 {
        Moment::new((wide / 100) as i32, ((wide % 100) * 10) as i32)
    } else {
        let size: i64 = -wide;
        Moment::new((-(size / 100)) as i32, (-((size % 100) * 10)) as i32)
    }
}

/// The action that one row of a sheet describes.
pub fn action_from_row(row: &Vec<String>) -> (r: Result<Action, LoadError>)
    ensures
        r == row_action(row_fields(row@)),
{
    if row.len() <= COLUMN_CAST {
        return Err(LoadError::MissingField);
    }
    let id = parse_u32(row[COLUMN_ID].as_str());
    let cast = parse_i32(row[COLUMN_CAST].as_str());
    let range = parse_i32(row[COLUMN_RANGE].as_str());
    match (id, cast, range) {
        (Some(id), Some(cast), Some(range)) => {
            let reach: u32 = if range < 0 {
                0
            } else {
                range as u32
            };
            let mut mask: u32 = 0;
            if same_text(row[COLUMN_SELF].as_str(), "TRUE") {
                mask = mask + 1;
            }
            if same_text(row[COLUMN_PARTY].as_str(), "TRUE") {
                mask = mask + 2;
            }
            if same_text(row[COLUMN_FRIENDLY].as_str(), "TRUE") {
                mask = mask + 4;
            }
            if same_text(row[COLUMN_HOSTILE].as_str(), "TRUE") {
                mask = mask + 8;
            }
            let target_type = if same_text(row[COLUMN_AREA].as_str(), "TRUE") {
                match parse_u32(row[COLUMN_RADIUS].as_str()) {
                    Some(radius) => ActionTarget::Area { range: reach, target_mask: mask, radius },
                    None => {
                        return Err(LoadError::BadNumber);
                    },
                }
            } else {
                ActionTarget::Direct { range: reach, target_mask: mask }
            };
            Ok(Action::new(id, cast_time_of(cast)).with_target_type(target_type))
        },
        _ => Err(LoadError::BadNumber),
    }
}

/// The catalog that the records of a sheet describe. The records are
/// those below the header row; an `Err` stands for a record that could
/// not be read. The first records are preamble: they describe no ability
/// and are passed over unread.
pub fn catalog_from_rows<E>(records: &Vec<Result<Vec<String>, E>>) -> (r: Result<
    Vec<Action>,
    LoadError,
>)
    ensures
        match r {
            Ok(catalog) => sheet_catalog(table_records(records@), records@.len() as int) == Ok::<
                Seq<Action>,
                LoadError,
            >(catalog@),
            Err(error) => sheet_catalog(table_records(records@), records@.len() as int) == Err::<
                Seq<Action>,
                LoadError,
            >(error),
        },
{
    let ghost table = table_records(records@);
    let mut catalog: Vec<Action> = Vec::new();
    if records.len() <= PREAMBLE_ROWS {
        return Ok(catalog);
    }
    let mut i: usize = PREAMBLE_ROWS;
    while i < records.len()
        invariant
            PREAMBLE_ROWS <= i <= records.len(),
            table == table_records(records@),
            sheet_catalog(table, i as int) == Ok::<Seq<Action>, LoadError>(catalog@),
        decreases records.len() - i,
    {
        let outcome = match &records[i] {
            Ok(row) => action_from_row(row),
            Err(_) => Err(LoadError::Table),
        };
        match outcome {
            Ok(action) => {
                catalog.push(action);
            },
            Err(error) => {
                proof {
                    lemma_sheet_error_stays(table, i + 1, records@.len() as int);
                }
                return Err(error);
            },
        }
        i += 1;
    }
    Ok(catalog)
}

/// Once a record fails, the sheet fails with that record's error however
/// many records follow.
pub proof fn lemma_sheet_error_stays(records: Seq<Option<Seq<Field>>>, failed: int, upto: int)
    requires
        sheet_catalog(records, failed) is Err,
        failed <= upto,
    ensures
        sheet_catalog(records, upto) == sheet_catalog(records, failed),
    decreases upto - failed,
{
    if failed < upto {
        lemma_sheet_error_stays(records, failed, upto - 1);
    }
}

/// The error type of the `csv` crate.
#[verifier::external_type_specification]
#[verifier::external_body]
pub struct ExCsvError(csv::Error);

/// The records that the `csv` crate reads from comma-separated data, the
/// header row left out, in order; `None` stands for a record for which
/// the crate reports an error.
pub uninterp spec fn csv_records(data: Seq<u8>) -> Seq<Option<Seq<Field>>>;

/// `csv::ReaderBuilder::from_reader` with a header row, then
/// `csv::Reader::records` to the end, each record or error as the crate
/// hands it out. What is read depends on the data alone; the contract
/// gives it a name and says no more of it.
#[verifier::external_body]
fn read_records(data: &[u8]) -> (r: Vec<Result<Vec<String>, csv::Error>>)
    ensures
        table_records(r@) == csv_records(data@),
{
    let mut reader = csv::ReaderBuilder::new().has_headers(true).from_reader(data);
    reader.records().map(
        |record| record.map(|fields| fields.iter().map(|field| field.to_string()).collect()),
    ).collect()
}

/// The catalog that a sheet in comma-separated form describes.
pub fn load_catalog(data: &[u8]) -> (r: Result<Vec<Action>, LoadError>)
    ensures
        match r {
            Ok(catalog) => sheet_catalog(csv_records(data@), csv_records(data@).len() as int)
                == Ok::<Seq<Action>, LoadError>(catalog@),
            Err(error) => sheet_catalog(csv_records(data@), csv_records(data@).len() as int)
                == Err::<Seq<Action>, LoadError>(error),
        },
{
    let records = read_records(data);
    catalog_from_rows(&records)
}

} // verus!
