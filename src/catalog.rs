use vstd::prelude::*;

use crate::actor_type::ActorType;

verus! {

#[verifier::external_type_specification]
#[verifier::external_body]
pub struct ExCsvError(csv::Error);

/// The records of a CSV text as the csv crate reads it with its default
/// settings (the first row is a header and is not a record; every record
/// has as many fields as the first), each record as its fields; `None` where
/// it refuses the text.
pub uninterp spec fn csv_records(text: Seq<char>) -> Option<Seq<Seq<Seq<char>>>>;

/// The text of each field of each row.
pub open spec fn rows_view(rows: Seq<Vec<String>>) -> Seq<Seq<Seq<char>>> {
    rows.map_values(|row: Vec<String>| row@.map_values(|f: String| f@))
}

/// Relies on `csv::Reader::from_reader` and `Reader::records`: the records
/// of `text`, each as its fields, or csv's error.
#[verifier::external_body]
fn read_records(text: &str) -> (r: Result<Vec<Vec<String>>, csv::Error>)
    ensures
        r is Ok ==> csv_records(text@) == Some(rows_view(r->Ok_0@)),
        r is Err ==> csv_records(text@) is None,
{
    let mut reader = csv::Reader::from_reader(text.as_bytes());
    reader.records().map(|rec| rec.map(|fields| fields.iter().map(String::from).collect())).collect()
}

pub open spec fn is_digit(c: char) -> bool {
    '0' <= c <= '9'
}

/// The number that a run of decimal digits stands for.
pub open spec fn digits_value(s: Seq<char>) -> int
    decreases s.len(),
{
    if s.len() == 0 {
        0
    } else {
        10 * digits_value(s.drop_last()) + (s.last() as int - '0' as int)
    }
}

/// Whether `s` starts with a sign.
pub open spec fn has_sign(s: Seq<char>) -> bool {
    s.len() > 0 && (s[0] == '+' || s[0] == '-')
}

/// `s` without its sign.
pub open spec fn unsigned_part(s: Seq<char>) -> Seq<char> {
    if has_sign(s) {
        s.drop_first()
    } else {
        s
    }
}

/// One or more ASCII digits and nothing else.
pub open spec fn all_digits(d: Seq<char>) -> bool {
    d.len() > 0 && forall|i: int| 0 <= i < d.len() ==> is_digit(#[trigger] d[i])
}

/// The integer that `s` writes in decimal: an optional `+` or `-`, then one
/// or more ASCII digits and nothing else.
pub open spec fn spec_decimal(s: Seq<char>) -> Option<int> {
    if all_digits(unsigned_part(s)) {
        Some(
            if has_sign(s) && s[0] == '-' {
                -digits_value(unsigned_part(s))
            } else {
                digits_value(unsigned_part(s))
            },
        )
    } else {
        None
    }
}

/// Relies on `str::parse::<i32>` (i32's `FromStr`): an optional sign, then
/// ASCII digits only, with a value that fits.
#[verifier::external_body]
fn parse_i32(s: &str) -> (r: Option<i32>)
    ensures
        r is Some <==> (spec_decimal(s@) is Some && i32::MIN <= spec_decimal(s@)->0 <= i32::MAX),
        r is Some ==> r->0 == spec_decimal(s@)->0,
{
    s.parse::<i32>().ok()
}

/// Why a catalog could not be loaded.
#[derive(Clone, Copy, Debug, PartialEq, Eq, Structural)]
pub enum LoadError {
    /// The text is not well-formed CSV.
    Csv,
    /// A row has fewer than eleven fields.
    MissingField,
    /// A row's tag is none of the four names.
    UnknownTag,
    /// A row's hit points are not a decimal `i32`.
    BadLife,
}

/// Fields of a catalog row: the tag, eight numbers (x, y, width, height,
/// facing, velocity x and y, angular velocity), the hit points, and the
/// invulnerability time in seconds.
pub const RECORD_FIELDS: usize = 11;

/// Index of the hit points among a row's fields.
pub const LIFE_FIELD: usize = 9;

/// Index of the invulnerability time among a row's fields.
pub const TIMEOUT_FIELD: usize = 10;

/// One entity of the catalog: its tag and hit points, and the text of its
/// real-valued fields, which the caller reads into its body type.
#[derive(Debug)]
pub struct EnemyRecord {
    pub tag: ActorType,
    pub life: i32,
    /// Position x and y, width and height, facing, velocity x and y, and
    /// angular velocity, in that order.
    pub kinematics: Vec<String>,
    /// Invulnerability time after a hit, in seconds.
    pub max_collision_timeout: String,
}

/// What is wrong with a row, checked in this order: too few fields, an
/// unknown tag, unreadable hit points.
pub open spec fn spec_row_error(row: Seq<Seq<char>>) -> Option<LoadError> {
    if row.len() < RECORD_FIELDS {
        Some(LoadError::MissingField)
    } else if ActorType::spec_from_name(row[0]) is None {
        Some(LoadError::UnknownTag)
    } else if !(spec_decimal(row[LIFE_FIELD as int]) is Some && i32::MIN <= spec_decimal(
        row[LIFE_FIELD as int],
    )->0 <= i32::MAX) {
        Some(LoadError::BadLife)
    } else {
        None
    }
}

/// `rec` holds what the well-formed `row` says.
pub open spec fn record_matches(rec: EnemyRecord, row: Seq<Seq<char>>) -> bool {
    &&& Some(rec.tag) == ActorType::spec_from_name(row[0])
    &&& rec.life as int == spec_decimal(row[LIFE_FIELD as int])->0
    &&& rec.kinematics@.map_values(|f: String| f@) == row.subrange(1, 9)
    &&& rec.max_collision_timeout@ == row[TIMEOUT_FIELD as int]
}

/// `r` is the outcome of reading the catalog `rows`: every record when no
/// row is wrong, else the error of the first wrong row.
pub open spec fn catalog_outcome(
    rows: Seq<Seq<Seq<char>>>,
    r: Result<Vec<EnemyRecord>, LoadError>,
) -> bool {
    match r {
        Ok(recs) => {
            &&& forall|i: int| 0 <= i < rows.len() ==> spec_row_error(#[trigger] rows[i]) is None
            &&& recs@.len() == rows.len()
            &&& forall|i: int| 0 <= i < rows.len() ==> record_matches(#[trigger] recs@[i], rows[i])
        },
        Err(e) => exists|i: int|
            0 <= i < rows.len() && spec_row_error(#[trigger] rows[i]) == Some(e) && forall|j: int|
                0 <= j < i ==> spec_row_error(#[trigger] rows[j]) is None,
    }
}

/// A catalog with a wrong row anywhere reads as an error and hands back no
/// record at all.
pub proof fn lemma_wrong_row_loads_nothing(
    rows: Seq<Seq<Seq<char>>>,
    r: Result<Vec<EnemyRecord>, LoadError>,
    i: int,
)
    requires
        catalog_outcome(rows, r),
        0 <= i < rows.len(),
        spec_row_error(rows[i]) is Some,
    ensures
        r is Err,
{
}

/// Reads one row of the catalog.
pub fn parse_enemy_record(row: &Vec<String>) -> (r: Result<EnemyRecord, LoadError>)
    ensures
        r is Err <==> spec_row_error(row@.map_values(|f: String| f@)) is Some,
        r is Err ==> Some(r->Err_0) == spec_row_error(row@.map_values(|f: String| f@)),
        r is Ok ==> record_matches(r->Ok_0, row@.map_values(|f: String| f@)),
{
    let ghost view = row@.map_values(|f: String| f@);
    if row.len() < RECORD_FIELDS {
        return Err(LoadError::MissingField);
    }
    let tag = match ActorType::from_name(row[0].as_str()) {
        Ok(t) => t,
        Err(_) => {
            return Err(LoadError::UnknownTag);
        },
    };
    let life = match parse_i32(row[LIFE_FIELD].as_str()) {
        Some(l) => l,
        None => {
            return Err(LoadError::BadLife);
        },
    };
    let mut kinematics: Vec<String> = Vec::new();
    let mut i: usize = 1;
    while i < 9
        invariant
            1 <= i <= 9,
            row@.len() >= RECORD_FIELDS,
            view == row@.map_values(|f: String| f@),
            kinematics@.map_values(|f: String| f@) == view.subrange(1, i as int),
        decreases 9 - i,
    {
        let f = row[i].clone();
        assert(f@ == view[i as int]);
        let ghost prev = kinematics@;
        kinematics.push(f);
        assert(kinematics@.map_values(|f: String| f@) =~= prev.map_values(|f: String| f@).push(
            view[i as int],
        ));
        assert(kinematics@.map_values(|f: String| f@) =~= view.subrange(1, i as int + 1));
        i = i + 1;
    }
    Ok(
        EnemyRecord {
            tag,
            life,
            kinematics,
            max_collision_timeout: row[TIMEOUT_FIELD].clone(),
        },
    )
}

/// Reads every row of the catalog, or none: the first wrong row stops the
/// reading and nothing read so far is handed back.
pub fn parse_enemy_records(rows: &Vec<Vec<String>>) -> (r: Result<Vec<EnemyRecord>, LoadError>)
    ensures
        catalog_outcome(rows_view(rows@), r),
{
    let ghost view = rows_view(rows@);
    let mut recs: Vec<EnemyRecord> = Vec::new();
    let mut i: usize = 0;
    while i < rows.len()
        invariant
            i <= rows@.len(),
            view == rows_view(rows@),
            recs@.len() == i,
            forall|j: int| 0 <= j < i ==> spec_row_error(#[trigger] view[j]) is None,
            forall|j: int| 0 <= j < i ==> record_matches(#[trigger] recs@[j], view[j]),
        decreases rows@.len() - i,
    {
        assert(view[i as int] == rows@[i as int]@.map_values(|f: String| f@));
        match parse_enemy_record(&rows[i]) {
            Ok(rec) => {
                recs.push(rec);
            },
            Err(e) => {
                assert(spec_row_error(view[i as int]) == Some(e));
                return Err(e);
            },
        }
        i = i + 1;
    }
    Ok(recs)
}

/// Reads a whole catalog from its CSV text (a header row, then one row per
/// entity), all or nothing.
pub fn load_enemy_records(text: &str) -> (r: Result<Vec<EnemyRecord>, LoadError>)
    ensures
        csv_records(text@) is None ==> r == Err::<Vec<EnemyRecord>, LoadError>(LoadError::Csv),
        csv_records(text@) is Some ==> catalog_outcome(csv_records(text@)->0, r),
{
    match read_records(text) {
        Ok(rows) => parse_enemy_records(&rows),
        Err(_) => Err(LoadError::Csv),
    }
}

} // verus!
