use vstd::prelude::*;
use vstd::string::*;
use crate::coordinates::{
    cardinal_of, longitude_of, CoordinateError, Latitude, Longitude,
};
use crate::number::{decimal_of, parse_decimal};
use crate::units::{Meters, Reading};

verus! {

/// Whether two texts are equal.
pub fn text_eq(a: &str, b: &str) -> (r: bool)
    ensures
        r == (a@ == b@),
{
    let n = a.unicode_len();
    if n != b.unicode_len() {
        return false;
    }
    let mut i: usize = 0;
    while i < n
        invariant
            n == a@.len(),
            n == b@.len(),
            i <= n,
            a@.take(i as int) == b@.take(i as int),
        decreases n - i,
    {
        if a.get_char(i) != b.get_char(i) {
            assert(a@[i as int] != b@[i as int]);
            return false;
        }
        assert(a@.take(i + 1) =~= a@.take(i as int).push(a@[i as int]));
        assert(b@.take(i + 1) =~= b@.take(i as int).push(b@[i as int]));
        i = i + 1;
    }
    assert(a@ =~= a@.take(n as int));
    assert(b@ =~= b@.take(n as int));
    true
}

/// The texts of a sequence of strings.
pub open spec fn texts(v: Seq<String>) -> Seq<Seq<char>> {
    v.map_values(|s: String| s@)
}

/// Whether a column header is one of the two names of a field: the name the
/// tables use, or the field's own name.
pub open spec fn names_field(h: Seq<char>, table_name: Seq<char>, field_name: Seq<char>) -> bool {
    h == table_name || h == field_name
}

/// The first column whose header names the field, or the number of columns
/// where none does.
pub open spec fn column_of(
    header: Seq<Seq<char>>,
    table_name: Seq<char>,
    field_name: Seq<char>,
) -> int
    decreases header.len(),
{
    if header.len() == 0 {
        0
    } else if names_field(header[0], table_name, field_name) {
        0
    } else {
        1 + column_of(header.drop_first(), table_name, field_name)
    }
}

/// The text of a row under the field's column; `None` where no column names
/// the field or the row is too short to reach it.
pub open spec fn cell_text(
    header: Seq<Seq<char>>,
    row: Seq<Seq<char>>,
    table_name: Seq<char>,
    field_name: Seq<char>,
) -> Option<Seq<char>> {
    let i = column_of(header, table_name, field_name);
    if i < header.len() && i < row.len() {
        Some(row[i])
    } else {
        None
    }
}

proof fn lemma_column_found(header: Seq<Seq<char>>, t: Seq<char>, f: Seq<char>, i: int)
    requires
        0 <= i <= header.len(),
        forall|j: int| 0 <= j < i ==> !names_field(#[trigger] header[j], t, f),
        i == header.len() || names_field(header[i], t, f),
    ensures
        column_of(header, t, f) == i,
    decreases i,
{
    if i > 0 {
        lemma_column_found(header.drop_first(), t, f, i - 1);
    }
}

/// The cell of a row under the field's column, as `cell_text` describes.
pub fn find_cell<'a>(
    header: &Vec<String>,
    row: &'a Vec<String>,
    table_name: &str,
    field_name: &str,
) -> (r: Option<&'a String>)
    ensures
        match cell_text(texts(header@), texts(row@), table_name@, field_name@) {
            Some(c) => r is Some && r->Some_0@ == c,
            None => r is None,
        },
{
    let n = header.len();
    let mut i: usize = 0;
    while i < n
        invariant
            n == header@.len(),
            i <= n,
            forall|j: int|
                0 <= j < i ==> !names_field(#[trigger] texts(header@)[j], table_name@, field_name@),
        decreases n - i,
    {
        if text_eq(header[i].as_str(), table_name) || text_eq(header[i].as_str(), field_name) {
            proof {
                lemma_column_found(texts(header@), table_name@, field_name@, i as int);
            }
            if i < row.len() {
                return Some(&row[i]);
            } else {
                return None;
            }
        }
        i = i + 1;
    }
    proof {
        lemma_column_found(texts(header@), table_name@, field_name@, i as int);
    }
    None
}

/// Whether `r` is what a monthly slot holds for the given cell: absent where
/// the column or the cell is missing, empty, or not a value of the type.
pub open spec fn slot_reads<T: Reading>(cell: Option<Seq<char>>, r: Option<T>) -> bool {
    match cell {
        Some(c) => T::reads_as(c, r),
        None => r is None,
    }
}

fn slot<T: Reading>(
    header: &Vec<String>,
    row: &Vec<String>,
    table_name: &str,
    field_name: &str,
) -> (r: Option<T>)
    ensures
        slot_reads::<T>(cell_text(texts(header@), texts(row@), table_name@, field_name@), r),
{
    match find_cell(header, row, table_name, field_name) {
        Some(c) => T::read(c.as_str()),
        None => None,
    }
}

/// One value per calendar month and one for the whole year; each may be
/// absent.
#[derive(Debug)]
pub struct PerYear<T> {
    pub january: Option<T>,
    pub february: Option<T>,
    pub march: Option<T>,
    pub april: Option<T>,
    pub may: Option<T>,
    pub june: Option<T>,
    pub july: Option<T>,
    pub august: Option<T>,
    pub september: Option<T>,
    pub october: Option<T>,
    pub november: Option<T>,
    pub december: Option<T>,
    pub yearly: Option<T>,
}

/// Whether `p` holds what the monthly columns of a row say. The tables name
/// the columns in Spanish (`enero` ... `diciembre`, `anual`).
pub open spec fn per_year_reads<T: Reading>(
    header: Seq<Seq<char>>,
    row: Seq<Seq<char>>,
    p: PerYear<T>,
) -> bool {
        &&& slot_reads::<T>(cell_text(header, row, "enero"@, "january"@), p.january)
        &&& slot_reads::<T>(cell_text(header, row, "febrero"@, "february"@), p.february)
        &&& slot_reads::<T>(cell_text(header, row, "marzo"@, "march"@), p.march)
        &&& slot_reads::<T>(cell_text(header, row, "abril"@, "april"@), p.april)
        &&& slot_reads::<T>(cell_text(header, row, "mayo"@, "may"@), p.may)
        &&& slot_reads::<T>(cell_text(header, row, "junio"@, "june"@), p.june)
        &&& slot_reads::<T>(cell_text(header, row, "julio"@, "july"@), p.july)
        &&& slot_reads::<T>(cell_text(header, row, "agosto"@, "august"@), p.august)
        &&& slot_reads::<T>(cell_text(header, row, "septiembre"@, "september"@), p.september)
        &&& slot_reads::<T>(cell_text(header, row, "octubre"@, "october"@), p.october)
        &&& slot_reads::<T>(cell_text(header, row, "noviembre"@, "november"@), p.november)
        &&& slot_reads::<T>(cell_text(header, row, "diciembre"@, "december"@), p.december)
        &&& slot_reads::<T>(cell_text(header, row, "anual"@, "yearly"@), p.yearly)
}

impl<T: Reading> PerYear<T> {
    /// Reads the thirteen slots of a row. A slot is absent where its cell is
    /// missing, empty or not a value of the type: this never fails.
    pub fn from_row(header: &Vec<String>, row: &Vec<String>) -> (r: Self)
        ensures
            per_year_reads::<T>(texts(header@), texts(row@), r),
    {
        PerYear {
            january: slot(header, row, "enero", "january"),
            february: slot(header, row, "febrero", "february"),
            march: slot(header, row, "marzo", "march"),
            april: slot(header, row, "abril", "april"),
            may: slot(header, row, "mayo", "may"),
            june: slot(header, row, "junio", "june"),
            july: slot(header, row, "julio", "july"),
            august: slot(header, row, "agosto", "august"),
            september: slot(header, row, "septiembre", "september"),
            october: slot(header, row, "octubre", "october"),
            november: slot(header, row, "noviembre", "november"),
            december: slot(header, row, "diciembre", "december"),
            yearly: slot(header, row, "anual", "yearly"),
        }
    }
}

/// A field of a record that is read strictly: a row that lacks it, or holds
/// something else than its type there, is rejected.
#[derive(Debug, Clone, Copy, PartialEq, Eq, Structural)]
pub enum Field {
    StationId,
    Parameter,
    Name,
    Province,
    City,
    Altitude,
    Longitude,
    Latitude,
    Datum,
}

/// Why a row could not be read as a record.
#[derive(Debug, Clone, Copy, PartialEq, Eq, Structural)]
pub enum RecordError {
    /// No column names the field, or the row ends before it.
    MissingField(Field),
    /// The field does not hold a decimal number.
    InvalidNumber(Field),
    /// The field does not hold a coordinate.
    InvalidCoordinate(Field, CoordinateError),
    /// The statistical parameter is none of the known names.
    UnknownParameter,
}

/// A kind of record that a table row holds.
pub trait Record: Sized {
    /// The error for a row, where its fields cannot be read.
    spec fn row_error(header: Seq<Seq<char>>, row: Seq<Seq<char>>) -> Option<RecordError>;

    /// Whether `r` holds what a row without error says.
    spec fn matches_row(header: Seq<Seq<char>>, row: Seq<Seq<char>>, r: Self) -> bool;

    fn from_row(header: &Vec<String>, row: &Vec<String>) -> (r: Result<Self, RecordError>)
        ensures
            match Self::row_error(texts(header@), texts(row@)) {
                Some(e) => r is Err && r->Err_0 == e,
                None => r is Ok && Self::matches_row(texts(header@), texts(row@), r->Ok_0),
            },
    ;
}

fn text_field(
    header: &Vec<String>,
    row: &Vec<String>,
    table_name: &str,
    field_name: &str,
    field: Field,
) -> (r: Result<String, RecordError>)
    ensures
        match cell_text(texts(header@), texts(row@), table_name@, field_name@) {
            Some(c) => r is Ok && r->Ok_0@ == c,
            None => r == Err::<String, RecordError>(RecordError::MissingField(field)),
        },
{
    match find_cell(header, row, table_name, field_name) {
        Some(c) => Ok(c.clone()),
        None => Err(RecordError::MissingField(field)),
    }
}

/// The yearly data of one station ("F1" tables).
#[derive(Debug)]
pub struct F1<T> {
    pub station_id: String,
    pub yearly: PerYear<T>,
}

pub open spec fn station_id_cell(header: Seq<Seq<char>>, row: Seq<Seq<char>>) -> Option<Seq<char>> {
    cell_text(header, row, "Indicativo"@, "station_id"@)
}

impl<T: Reading> Record for F1<T> {
    open spec fn row_error(header: Seq<Seq<char>>, row: Seq<Seq<char>>) -> Option<RecordError> {
        if station_id_cell(header, row) is None {
            Some(RecordError::MissingField(Field::StationId))
        } else {
            None
        }
    }

    open spec fn matches_row(header: Seq<Seq<char>>, row: Seq<Seq<char>>, r: Self) -> bool {
        &&& r.station_id@ == station_id_cell(header, row)->Some_0
        &&& per_year_reads::<T>(header, row, r.yearly)
    }

    fn from_row(header: &Vec<String>, row: &Vec<String>) -> (r: Result<Self, RecordError>) {
        let station_id = text_field(header, row, "Indicativo", "station_id", Field::StationId)?;
        Ok(F1 { station_id, yearly: PerYear::from_row(header, row) })
    }
}

/// The statistical parameter that an aggregate row gives.
#[derive(Debug, Clone, Copy, PartialEq, Eq, Structural)]
pub enum AggregateParameter {
    /// The number of samples in the aggregate.
    SampleCount,
    Min,
    Q1,
    Q2,
    Q3,
    Q4,
    Max,
    Median,
    Average,
    StdDev,
    Cv,
}

/// The parameter that a cell names; the tables abbreviate a few of them.
pub open spec fn parameter_of(s: Seq<char>) -> Option<AggregateParameter> {
    if s == "SampleCount"@ || s == "N"@ {
        Some(AggregateParameter::SampleCount)
    } else if s == "Min"@ {
        Some(AggregateParameter::Min)
    } else if s == "Q1"@ {
        Some(AggregateParameter::Q1)
    } else if s == "Q2"@ {
        Some(AggregateParameter::Q2)
    } else if s == "Q3"@ {
        Some(AggregateParameter::Q3)
    } else if s == "Q4"@ {
        Some(AggregateParameter::Q4)
    } else if s == "Max"@ {
        Some(AggregateParameter::Max)
    } else if s == "Median"@ || s == "Mn"@ {
        Some(AggregateParameter::Median)
    } else if s == "Average"@ || s == "Md"@ {
        Some(AggregateParameter::Average)
    } else if s == "StdDev"@ || s == "S"@ {
        Some(AggregateParameter::StdDev)
    } else if s == "Cv"@ {
        Some(AggregateParameter::Cv)
    } else {
        None
    }
}

/// The name of a parameter in labels.
pub open spec fn human_name(p: AggregateParameter) -> Seq<char> {
    match p {
        AggregateParameter::SampleCount => "sample count"@,
        AggregateParameter::Min => "minimum"@,
        AggregateParameter::Q1 => "quintile 1"@,
        AggregateParameter::Q2 => "quintile 2"@,
        AggregateParameter::Q3 => "quintile 3"@,
        AggregateParameter::Q4 => "quintile 4"@,
        AggregateParameter::Max => "maximum"@,
        AggregateParameter::Median => "median"@,
        AggregateParameter::Average => "average"@,
        AggregateParameter::StdDev => "standard deviation"@,
        AggregateParameter::Cv => "coefficient of variation"@,
    }
}

/// Reads the name of a parameter.
pub fn parse_parameter(s: &str) -> (r: Option<AggregateParameter>)
    ensures
        r == parameter_of(s@),
{
        if text_eq(s, "SampleCount") || text_eq(s, "N") {
            Some(AggregateParameter::SampleCount)
        } else if text_eq(s, "Min") {
            Some(AggregateParameter::Min)
        } else if text_eq(s, "Q1") {
            Some(AggregateParameter::Q1)
        } else if text_eq(s, "Q2") {
            Some(AggregateParameter::Q2)
        } else if text_eq(s, "Q3") {
            Some(AggregateParameter::Q3)
        } else if text_eq(s, "Q4") {
            Some(AggregateParameter::Q4)
        } else if text_eq(s, "Max") {
            Some(AggregateParameter::Max)
        } else if text_eq(s, "Median") || text_eq(s, "Mn") {
            Some(AggregateParameter::Median)
        } else if text_eq(s, "Average") || text_eq(s, "Md") {
            Some(AggregateParameter::Average)
        } else if text_eq(s, "StdDev") || text_eq(s, "S") {
            Some(AggregateParameter::StdDev)
        } else if text_eq(s, "Cv") {
            Some(AggregateParameter::Cv)
        } else {
            None
        }
}

impl AggregateParameter {
    /// The name of the parameter in labels.
    pub fn as_human_str(&self) -> (r: &'static str)
        ensures
            r@ == human_name(*self),
    {
        match *self {
            AggregateParameter::SampleCount => "sample count",
            AggregateParameter::Min => "minimum",
            AggregateParameter::Q1 => "quintile 1",
            AggregateParameter::Q2 => "quintile 2",
            AggregateParameter::Q3 => "quintile 3",
            AggregateParameter::Q4 => "quintile 4",
            AggregateParameter::Max => "maximum",
            AggregateParameter::Median => "median",
            AggregateParameter::Average => "average",
            AggregateParameter::StdDev => "standard deviation",
            AggregateParameter::Cv => "coefficient of variation",
        }
    }
}

/// The aggregate data of one station for one statistical parameter ("F4"
/// tables).
#[derive(Debug)]
pub struct F4<T> {
    pub station_id: String,
    pub parameter: AggregateParameter,
    pub yearly: PerYear<T>,
}

pub open spec fn parameter_cell(header: Seq<Seq<char>>, row: Seq<Seq<char>>) -> Option<Seq<char>> {
    cell_text(header, row, "parámetro"@, "parameter"@)
}

impl<T: Reading> Record for F4<T> {
    open spec fn row_error(header: Seq<Seq<char>>, row: Seq<Seq<char>>) -> Option<RecordError> {
        if station_id_cell(header, row) is None {
            Some(RecordError::MissingField(Field::StationId))
        } else if parameter_cell(header, row) is None {
            Some(RecordError::MissingField(Field::Parameter))
        } else if parameter_of(parameter_cell(header, row)->Some_0) is None {
            Some(RecordError::UnknownParameter)
        } else {
            None
        }
    }

    open spec fn matches_row(header: Seq<Seq<char>>, row: Seq<Seq<char>>, r: Self) -> bool {
        &&& r.station_id@ == station_id_cell(header, row)->Some_0
        &&& Some(r.parameter) == parameter_of(parameter_cell(header, row)->Some_0)
        &&& per_year_reads::<T>(header, row, r.yearly)
    }

    fn from_row(header: &Vec<String>, row: &Vec<String>) -> (r: Result<Self, RecordError>) {
        let station_id = text_field(header, row, "Indicativo", "station_id", Field::StationId)?;
        let cell = match find_cell(header, row, "parámetro", "parameter") {
            Some(c) => c,
            None => return Err(RecordError::MissingField(Field::Parameter)),
        };
        let parameter = match parse_parameter(cell.as_str()) {
            Some(p) => p,
            None => return Err(RecordError::UnknownParameter),
        };
        Ok(F4 { station_id, parameter, yearly: PerYear::from_row(header, row) })
    }
}

impl<T> F4<T> {
    /// The yearly data of the aggregate, and the parameter it gives.
    pub fn into_f1(self) -> (r: (F1<T>, AggregateParameter))
        ensures
            r.0 == (F1 { station_id: self.station_id, yearly: self.yearly }),
            r.1 == self.parameter,
    {
        (F1 { station_id: self.station_id, yearly: self.yearly }, self.parameter)
    }
}

/// A weather station ("Maestro climatológico" tables).
#[derive(Debug)]
pub struct Station {
    pub id: String,
    pub name: String,
    pub province: String,
    pub city: String,
    pub altitude: Meters,
    pub longitude: Longitude,
    pub latitude: Latitude,
    pub datum: String,
}

pub open spec fn station_cell(
    header: Seq<Seq<char>>,
    row: Seq<Seq<char>>,
    f: Field,
) -> Option<Seq<char>> {
    match f {
        Field::Name => cell_text(header, row, "NOMBRE"@, "name"@),
        Field::Province => cell_text(header, row, "PROVINCIA"@, "province"@),
        Field::City => cell_text(header, row, "MUNICIPIO"@, "city"@),
        Field::Altitude => cell_text(header, row, "ALTITUD"@, "altitude"@),
        Field::Longitude => cell_text(header, row, "LONGITUD"@, "longitude"@),
        Field::Latitude => cell_text(header, row, "LATITUD"@, "latitude"@),
        Field::Datum => cell_text(header, row, "DATUM"@, "datum"@),
        _ => cell_text(header, row, "INDICATIVO"@, "id"@),
    }
}

impl Record for Station {
    /// The fields are checked in the order in which the struct lists them.
    open spec fn row_error(header: Seq<Seq<char>>, row: Seq<Seq<char>>) -> Option<RecordError> {
        let alt = station_cell(header, row, Field::Altitude);
        let lon = station_cell(header, row, Field::Longitude);
        let lat = station_cell(header, row, Field::Latitude);
        if station_cell(header, row, Field::StationId) is None {
            Some(RecordError::MissingField(Field::StationId))
        } else if station_cell(header, row, Field::Name) is None {
            Some(RecordError::MissingField(Field::Name))
        } else if station_cell(header, row, Field::Province) is None {
            Some(RecordError::MissingField(Field::Province))
        } else if station_cell(header, row, Field::City) is None {
            Some(RecordError::MissingField(Field::City))
        } else if alt is None {
            Some(RecordError::MissingField(Field::Altitude))
        } else if decimal_of(alt->Some_0) is None {
            Some(RecordError::InvalidNumber(Field::Altitude))
        } else if lon is None {
            Some(RecordError::MissingField(Field::Longitude))
        } else if longitude_of(lon->Some_0) is Err {
            Some(RecordError::InvalidCoordinate(Field::Longitude, longitude_of(lon->Some_0)->Err_0))
        } else if lat is None {
            Some(RecordError::MissingField(Field::Latitude))
        } else if cardinal_of(lat->Some_0) is Err {
            Some(RecordError::InvalidCoordinate(Field::Latitude, cardinal_of(lat->Some_0)->Err_0))
        } else if station_cell(header, row, Field::Datum) is None {
            Some(RecordError::MissingField(Field::Datum))
        } else {
            None
        }
    }

    open spec fn matches_row(header: Seq<Seq<char>>, row: Seq<Seq<char>>, r: Self) -> bool {
        &&& r.id@ == station_cell(header, row, Field::StationId)->Some_0
        &&& r.name@ == station_cell(header, row, Field::Name)->Some_0
        &&& r.province@ == station_cell(header, row, Field::Province)->Some_0
        &&& r.city@ == station_cell(header, row, Field::City)->Some_0
        &&& Some(r.altitude.0) == decimal_of(station_cell(header, row, Field::Altitude)->Some_0)
        &&& longitude_of(station_cell(header, row, Field::Longitude)->Some_0) == Ok::<
            ((u32, u32, u32), crate::coordinates::LongitudeDirection),
            CoordinateError,
        >((r.longitude.point@, r.longitude.direction))
        &&& cardinal_of(station_cell(header, row, Field::Latitude)->Some_0) == Ok::<
            (u32, u32, u32),
            CoordinateError,
        >(r.latitude.0@)
        &&& r.datum@ == station_cell(header, row, Field::Datum)->Some_0
    }

    fn from_row(header: &Vec<String>, row: &Vec<String>) -> (r: Result<Self, RecordError>) {
        let id = text_field(header, row, "INDICATIVO", "id", Field::StationId)?;
        let name = text_field(header, row, "NOMBRE", "name", Field::Name)?;
        let province = text_field(header, row, "PROVINCIA", "province", Field::Province)?;
        let city = text_field(header, row, "MUNICIPIO", "city", Field::City)?;
        let alt = text_field(header, row, "ALTITUD", "altitude", Field::Altitude)?;
        let altitude = match parse_decimal(alt.as_str()) {
            Some(d) => Meters(d),
            None => return Err(RecordError::InvalidNumber(Field::Altitude)),
        };
        let lon = text_field(header, row, "LONGITUD", "longitude", Field::Longitude)?;
        let longitude = match Longitude::decode(lon.as_str()) {
            Ok(l) => l,
            Err(e) => return Err(RecordError::InvalidCoordinate(Field::Longitude, e)),
        };
        let lat = text_field(header, row, "LATITUD", "latitude", Field::Latitude)?;
        let latitude = match Latitude::decode(lat.as_str()) {
            Ok(l) => l,
            Err(e) => return Err(RecordError::InvalidCoordinate(Field::Latitude, e)),
        };
        let datum = text_field(header, row, "DATUM", "datum", Field::Datum)?;
        Ok(Station { id, name, province, city, altitude, longitude, latitude, datum })
    }
}

/// The records of a table: a header row naming the columns, then one row per
/// record.
#[derive(Debug)]
pub struct Table {
    pub header: Vec<String>,
    pub rows: Vec<Vec<String>>,
}

/// Why a table could not be read.
#[derive(Debug, Clone, Copy, PartialEq, Eq, Structural)]
pub enum TableError {
    /// The bytes are not `;`-separated text with rows of equal length.
    Malformed,
    /// The row at this index (the header not counted) is not a record.
    Row(usize, RecordError),
}

/// The texts of the rows of a table.
pub open spec fn rows_texts(rows: Seq<Vec<String>>) -> Seq<Seq<Seq<char>>> {
    rows.map_values(|r: Vec<String>| texts(r@))
}

/// Whether `r` is what decoding the rows below `header` as records of type `R`
/// gives: the records, one per row, or the error of the first row that fails.
pub open spec fn rows_decoded<R: Record>(
    header: Seq<Seq<char>>,
    rows: Seq<Seq<Seq<char>>>,
    r: Result<Vec<R>, TableError>,
) -> bool {
    match r {
        Ok(v) => {
            &&& v@.len() == rows.len()
            &&& forall|i: int| 0 <= i < rows.len() ==> R::row_error(header, #[trigger] rows[i]) is None
            &&& forall|i: int| 0 <= i < rows.len() ==> R::matches_row(header, rows[i], #[trigger] v@[i])
        },
        Err(TableError::Row(i, e)) => {
            &&& i < rows.len()
            &&& forall|j: int| 0 <= j < i ==> R::row_error(header, #[trigger] rows[j]) is None
            &&& R::row_error(header, rows[i as int]) == Some(e)
        },
        Err(TableError::Malformed) => false,
    }
}

/// Reads every row of a table as a record of type `R`; stops at the first row
/// that is not one.
pub fn decode_rows<R: Record>(table: &Table) -> (r: Result<Vec<R>, TableError>)
    ensures
        rows_decoded::<R>(texts(table.header@), rows_texts(table.rows@), r),
{
    let ghost header = texts(table.header@);
    let ghost rows = rows_texts(table.rows@);
    let mut out: Vec<R> = Vec::new();
    let n = table.rows.len();
    let mut i: usize = 0;
    while i < n
        invariant
            n == table.rows@.len(),
            header == texts(table.header@),
            rows == rows_texts(table.rows@),
            i <= n,
            out@.len() == i,
            forall|j: int| 0 <= j < i ==> R::row_error(header, #[trigger] rows[j]) is None,
            forall|j: int| 0 <= j < i ==> R::matches_row(header, rows[j], #[trigger] out@[j]),
        decreases n - i,
    {
        match R::from_row(&table.header, &table.rows[i]) {
            Ok(rec) => {
                out.push(rec);
            },
            Err(e) => {
                return Err(TableError::Row(i, e));
            },
        }
        i = i + 1;
    }
    Ok(out)
}

/// csv's error type, which `read_table` maps to `TableError::Malformed`.
#[verifier::external_type_specification]
#[verifier::external_body]
pub struct ExCsvError(csv::Error);

/// The records that csv reads from the bytes, with `;` between fields and no
/// row taken as a header; `None` where it reports an error.
pub uninterp spec fn csv_records_of(bytes: Seq<u8>) -> Option<Seq<Seq<Seq<char>>>>;

/// Relies on csv's `ReaderBuilder` (`;` delimiter, no header handling) and
/// `Reader::records`: the records, or the first error, depend on the bytes
/// alone.
#[verifier::external_body]
fn csv_records(bytes: &[u8]) -> (r: Result<Vec<Vec<String>>, csv::Error>)
    ensures
        match r {
            Ok(v) => csv_records_of(bytes@) == Some(rows_texts(v@)),
            Err(_) => csv_records_of(bytes@) is None,
        },
{
    let mut reader = csv::ReaderBuilder::new().delimiter(b';').has_headers(false).from_reader(bytes);
    let mut rows = Vec::new();
    for record in reader.records() {
        rows.push(record?.iter().map(String::from).collect());
    }
    Ok(rows)
}

/// Whether `t` is the table that the records `recs` make: the first one is the
/// header, the others are the rows.
pub open spec fn table_of_records(recs: Seq<Seq<Seq<char>>>, t: Table) -> bool {
    if recs.len() == 0 {
        t.header@.len() == 0 && t.rows@.len() == 0
    } else {
        texts(t.header@) == recs[0] && rows_texts(t.rows@) == recs.drop_first()
    }
}

/// Reads a `;`-separated table.
pub fn read_table(bytes: &[u8]) -> (r: Result<Table, TableError>)
    ensures
        match csv_records_of(bytes@) {
            Some(recs) => r is Ok && table_of_records(recs, r->Ok_0),
            None => r == Err::<Table, TableError>(TableError::Malformed),
        },
{
    let mut rows = match csv_records(bytes) {
        Ok(rows) => rows,
        Err(_) => return Err(TableError::Malformed),
    };
    if rows.len() == 0 {
        return Ok(Table { header: Vec::new(), rows });
    }
    let ghost all = rows@;
    let header = rows.remove(0);
    assert(rows@ =~= all.drop_first());
    assert(rows_texts(rows@) =~= rows_texts(all).drop_first());
    Ok(Table { header, rows })
}

/// Whether `r` is what reading the bytes as a table of records of type `R`
/// gives: `Malformed` where csv reports an error, no records where there are
/// no rows, and otherwise the rows below the first decoded as `rows_decoded`
/// describes.
pub open spec fn read_as<R: Record>(bytes: Seq<u8>, r: Result<Vec<R>, TableError>) -> bool {
    match csv_records_of(bytes) {
        None => r == Err::<Vec<R>, TableError>(TableError::Malformed),
        Some(recs) => if recs.len() == 0 {
            r is Ok && r->Ok_0@.len() == 0
        } else {
            rows_decoded::<R>(recs[0], recs.drop_first(), r)
        },
    }
}

/// Reads a `;`-separated table and each of its rows as a record of type `R`.
pub fn read_records<R: Record>(bytes: &[u8]) -> (r: Result<Vec<R>, TableError>)
    ensures
        read_as::<R>(bytes@, r),
{
    let table = read_table(bytes)?;
    decode_rows(&table)
}

} // verus!
