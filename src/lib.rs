//! Codecs and record types for the national climate station tables: fixed
//! width coordinates, cells that carry a value with its date, per-month
//! records, and the split of aggregate tables into per-parameter datasets.

pub mod coordinates;
pub mod dataset;
pub mod normalize;
pub mod number;
pub mod records;
pub mod units;
pub mod with_date;

pub use coordinates::{CardinalPoint, CoordinateError, Latitude, Longitude, LongitudeDirection};
pub use dataset::{
    AggregateData, AggregateDataProcessing, AggregateRecords, AggregateTable, LoadError, Payload,
    RecordKind, YearlyData, YearlyRecords, YearlyTable,
};
pub use number::{parse_decimal, Decimal};
pub use records::{
    AggregateParameter, Field, PerYear, RecordError, Station, Table, TableError, F1, F4,
};
pub use units::{
    Celsius, Days, Hours, Kilometers, KilometersPerHour, Meters, Mm, Percentage,
    TenthsOfHectoPascal, TenthsOfMm,
};
pub use with_date::{WithDate, WithDateError};
