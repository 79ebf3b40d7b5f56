use vstd::prelude::*;
use crate::number::{Decimal, decimal_of, parse_decimal};

verus! {

/// A measurement tagged with its unit. Each unit is a type of its own, so that a
/// value in one unit cannot be used where another is expected.
pub trait Unit: Sized {
    /// The measurement of the given amount in this unit.
    spec fn of_amount(d: Decimal) -> Self;

    fn from_amount(d: Decimal) -> (r: Self)
        ensures
            r == Self::of_amount(d),
    ;
}

/// A value that a cell of a monthly column can hold.
pub trait Reading: Sized {
    /// Whether `r` is what a cell with the text `s` reads as: `None` where the
    /// cell is empty or does not hold a value of this type.
    spec fn reads_as(s: Seq<char>, r: Option<Self>) -> bool;

    fn read(s: &str) -> (r: Option<Self>)
        ensures
            Self::reads_as(s@, r),
    ;
}

/// A plain number, with no unit attached.
impl Unit for Decimal {
    open spec fn of_amount(d: Decimal) -> Self {
        d
    }

    fn from_amount(d: Decimal) -> (r: Self) {
        d
    }
}

/// What a cell holding a bare measurement reads as.
pub open spec fn amount_reading<U: Unit>(s: Seq<char>) -> Option<U> {
    match decimal_of(s) {
        Some(d) => Some(U::of_amount(d)),
        None => None,
    }
}

/// Reads a cell holding a bare measurement in the unit `U`.
pub fn read_amount<U: Unit>(s: &str) -> (r: Option<U>)
    ensures
        r == amount_reading::<U>(s@),
{
    match parse_decimal(s) {
        Some(d) => Some(U::from_amount(d)),
        None => None,
    }
}

/// Height above sea level, in meters.
#[derive(Debug, Clone, Copy, PartialEq, Eq, Structural)]
pub struct Meters(pub Decimal);

impl Unit for Meters {
    open spec fn of_amount(d: Decimal) -> Self {
        Meters(d)
    }

    fn from_amount(d: Decimal) -> (r: Self) {
        Meters(d)
    }
}

impl Reading for Meters {
    open spec fn reads_as(s: Seq<char>, r: Option<Self>) -> bool {
        r == amount_reading::<Self>(s)
    }

    fn read(s: &str) -> (r: Option<Self>) {
        read_amount(s)
    }
}

/// A temperature, in degrees Celsius.
#[derive(Debug, Clone, Copy, PartialEq, Eq, Structural)]
pub struct Celsius(pub Decimal);

impl Unit for Celsius {
    open spec fn of_amount(d: Decimal) -> Self {
        Celsius(d)
    }

    fn from_amount(d: Decimal) -> (r: Self) {
        Celsius(d)
    }
}

impl Reading for Celsius {
    open spec fn reads_as(s: Seq<char>, r: Option<Self>) -> bool {
        r == amount_reading::<Self>(s)
    }

    fn read(s: &str) -> (r: Option<Self>) {
        read_amount(s)
    }
}

/// A depth of precipitation, in millimeters.
#[derive(Debug, Clone, Copy, PartialEq, Eq, Structural)]
pub struct Mm(pub Decimal);

impl Unit for Mm {
    open spec fn of_amount(d: Decimal) -> Self {
        Mm(d)
    }

    fn from_amount(d: Decimal) -> (r: Self) {
        Mm(d)
    }
}

impl Reading for Mm {
    open spec fn reads_as(s: Seq<char>, r: Option<Self>) -> bool {
        r == amount_reading::<Self>(s)
    }

    fn read(s: &str) -> (r: Option<Self>) {
        read_amount(s)
    }
}

/// A depth of evaporation, in tenths of a millimeter.
#[derive(Debug, Clone, Copy, PartialEq, Eq, Structural)]
pub struct TenthsOfMm(pub Decimal);

impl Unit for TenthsOfMm {
    open spec fn of_amount(d: Decimal) -> Self {
        TenthsOfMm(d)
    }

    fn from_amount(d: Decimal) -> (r: Self) {
        TenthsOfMm(d)
    }
}

impl Reading for TenthsOfMm {
    open spec fn reads_as(s: Seq<char>, r: Option<Self>) -> bool {
        r == amount_reading::<Self>(s)
    }

    fn read(s: &str) -> (r: Option<Self>) {
        read_amount(s)
    }
}

/// A ratio, in percent.
#[derive(Debug, Clone, Copy, PartialEq, Eq, Structural)]
pub struct Percentage(pub Decimal);

impl Unit for Percentage {
    open spec fn of_amount(d: Decimal) -> Self {
        Percentage(d)
    }

    fn from_amount(d: Decimal) -> (r: Self) {
        Percentage(d)
    }
}

impl Reading for Percentage {
    open spec fn reads_as(s: Seq<char>, r: Option<Self>) -> bool {
        r == amount_reading::<Self>(s)
    }

    fn read(s: &str) -> (r: Option<Self>) {
        read_amount(s)
    }
}

/// A pressure, in tenths of a hectopascal.
#[derive(Debug, Clone, Copy, PartialEq, Eq, Structural)]
pub struct TenthsOfHectoPascal(pub Decimal);

impl Unit for TenthsOfHectoPascal {
    open spec fn of_amount(d: Decimal) -> Self {
        TenthsOfHectoPascal(d)
    }

    fn from_amount(d: Decimal) -> (r: Self) {
        TenthsOfHectoPascal(d)
    }
}

impl Reading for TenthsOfHectoPascal {
    open spec fn reads_as(s: Seq<char>, r: Option<Self>) -> bool {
        r == amount_reading::<Self>(s)
    }

    fn read(s: &str) -> (r: Option<Self>) {
        read_amount(s)
    }
}

/// A number of days. The aggregate tables write these counts with a
/// decimal point (`"4.0"`), so the count is kept as a decimal; whether it is
/// whole is not checked.
#[derive(Debug, Clone, Copy, PartialEq, Eq, Structural)]
pub struct Days(pub Decimal);

impl Unit for Days {
    open spec fn of_amount(d: Decimal) -> Self {
        Days(d)
    }

    fn from_amount(d: Decimal) -> (r: Self) {
        Days(d)
    }
}

impl Reading for Days {
    open spec fn reads_as(s: Seq<char>, r: Option<Self>) -> bool {
        r == amount_reading::<Self>(s)
    }

    fn read(s: &str) -> (r: Option<Self>) {
        read_amount(s)
    }
}

/// A duration, in hours.
#[derive(Debug, Clone, Copy, PartialEq, Eq, Structural)]
pub struct Hours(pub Decimal);

impl Unit for Hours {
    open spec fn of_amount(d: Decimal) -> Self {
        Hours(d)
    }

    fn from_amount(d: Decimal) -> (r: Self) {
        Hours(d)
    }
}

impl Reading for Hours {
    open spec fn reads_as(s: Seq<char>, r: Option<Self>) -> bool {
        r == amount_reading::<Self>(s)
    }

    fn read(s: &str) -> (r: Option<Self>) {
        read_amount(s)
    }
}

/// A distance, in kilometers.
#[derive(Debug, Clone, Copy, PartialEq, Eq, Structural)]
pub struct Kilometers(pub Decimal);

impl Unit for Kilometers {
    open spec fn of_amount(d: Decimal) -> Self {
        Kilometers(d)
    }

    fn from_amount(d: Decimal) -> (r: Self) {
        Kilometers(d)
    }
}

impl Reading for Kilometers {
    open spec fn reads_as(s: Seq<char>, r: Option<Self>) -> bool {
        r == amount_reading::<Self>(s)
    }

    fn read(s: &str) -> (r: Option<Self>) {
        read_amount(s)
    }
}

/// A speed, in kilometers per hour.
#[derive(Debug, Clone, Copy, PartialEq, Eq, Structural)]
pub struct KilometersPerHour(pub Decimal);

impl Unit for KilometersPerHour {
    open spec fn of_amount(d: Decimal) -> Self {
        KilometersPerHour(d)
    }

    fn from_amount(d: Decimal) -> (r: Self) {
        KilometersPerHour(d)
    }
}

impl Reading for KilometersPerHour {
    open spec fn reads_as(s: Seq<char>, r: Option<Self>) -> bool {
        r == amount_reading::<Self>(s)
    }

    fn read(s: &str) -> (r: Option<Self>) {
        read_amount(s)
    }
}

} // verus!
