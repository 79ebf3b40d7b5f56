use vstd::prelude::*;
use vstd::string::*;
use crate::normalize::{claimed, remaining, take_parameter};
use crate::number::{nat_text, push_decimal};
use crate::records::{
    human_name, read_as, read_records, AggregateParameter, Station, TableError, F1, F4,
};
use crate::units::{
    Celsius, Days, Hours, Kilometers, KilometersPerHour, Mm, Percentage, TenthsOfHectoPascal,
    TenthsOfMm,
};
use crate::with_date::WithDate;

verus! {

/// The type of the values of a kind of record.
#[derive(Debug, Clone, Copy, PartialEq, Eq, Structural)]
pub enum Payload {
    /// `Celsius`
    Celsius,
    /// `WithDate<Celsius>`
    CelsiusWithDate,
    /// `Days`
    Days,
    /// `Mm`
    Mm,
    /// `WithDate<Mm>`
    MmWithDate,
    /// `Percentage`
    Percentage,
    /// `TenthsOfHectoPascal`
    TenthsOfHectoPascal,
    /// `WithDate<TenthsOfHectoPascal>`
    TenthsOfHectoPascalWithDate,
    /// `Hours`
    Hours,
    /// `TenthsOfMm`
    TenthsOfMm,
    /// `Kilometers`
    Kilometers,
    /// `KilometersPerHour`
    KilometersPerHour,
}

/// The kinds of monthly records that the tables give, one table per kind.
#[derive(Debug, Clone, Copy, PartialEq, Eq, Structural)]
pub enum RecordKind {
    AverageTemperature,
    AverageMaxTemperature,
    AverageMinTemperature,
    AbsoluteMaxTemperature,
    AbsoluteMinTemperature,
    HigherMinTemperature,
    LowerMaxTemperature,
    NumberOfDaysGteq30Celsius,
    NumberOfDaysLteq0Celsius,
    TotalRain,
    MaxRain,
    DaysWithAppreciableRain,
    DaysWithRainGteq1Mm,
    DaysWithRainGteq10Mm,
    DaysWithRainGteq30Mm,
    AverageRelativeHumidity,
    AverageVaporTension,
    DaysOfRain,
    DaysOfSnow,
    DaysOfHail,
    DaysOfStorm,
    DaysOfFog,
    ClearDays,
    CloudyDays,
    CoveredDays,
    HoursOfSun,
    AveragePercentageAgainstTheoricInsolation,
    Evaporation,
    AverageDistance,
    DaysWithWindGreaterThan55KmPerHour,
    DaysWithWindGreaterThan91KmPerHour,
    AverageWindSpeed,
    AveragePressure,
    MaxPressure,
    MinPressure,
    AveragePressureSeaLevel,
    AverageTemperatureUnder10Cm,
    AverageTemperatureUnder20Cm,
    AverageTemperatureUnder50Cm,
    DaysWithVisibilityLt50M,
    DaysWithVisibilityGteq50MLt100M,
    DaysWithVisibilityGteq100MLt1000M,
}

/// The name of a kind of record in the datasets.
pub open spec fn kind_name(k: RecordKind) -> Seq<char> {
    match k {
        RecordKind::AverageTemperature => "average_temperature"@,
        RecordKind::AverageMaxTemperature => "average_max_temperature"@,
        RecordKind::AverageMinTemperature => "average_min_temperature"@,
        RecordKind::AbsoluteMaxTemperature => "absolute_max_temperature"@,
        RecordKind::AbsoluteMinTemperature => "absolute_min_temperature"@,
        RecordKind::HigherMinTemperature => "higher_min_temperature"@,
        RecordKind::LowerMaxTemperature => "lower_max_temperature"@,
        RecordKind::NumberOfDaysGteq30Celsius => "number_of_days_gteq_30_celsius"@,
        RecordKind::NumberOfDaysLteq0Celsius => "number_of_days_lteq_0_celsius"@,
        RecordKind::TotalRain => "total_rain"@,
        RecordKind::MaxRain => "max_rain"@,
        RecordKind::DaysWithAppreciableRain => "days_with_appreciable_rain"@,
        RecordKind::DaysWithRainGteq1Mm => "days_with_rain_gteq_1_mm"@,
        RecordKind::DaysWithRainGteq10Mm => "days_with_rain_gteq_10_mm"@,
        RecordKind::DaysWithRainGteq30Mm => "days_with_rain_gteq_30_mm"@,
        RecordKind::AverageRelativeHumidity => "average_relative_humidity"@,
        RecordKind::AverageVaporTension => "average_vapor_tension"@,
        RecordKind::DaysOfRain => "days_of_rain"@,
        RecordKind::DaysOfSnow => "days_of_snow"@,
        RecordKind::DaysOfHail => "days_of_hail"@,
        RecordKind::DaysOfStorm => "days_of_storm"@,
        RecordKind::DaysOfFog => "days_of_fog"@,
        RecordKind::ClearDays => "clear_days"@,
        RecordKind::CloudyDays => "cloudy_days"@,
        RecordKind::CoveredDays => "covered_days"@,
        RecordKind::HoursOfSun => "hours_of_sun"@,
        RecordKind::AveragePercentageAgainstTheoricInsolation => {
            "average_percentage_against_theoric_insolation"@
        },
        RecordKind::Evaporation => "evaporation"@,
        RecordKind::AverageDistance => "average_distance"@,
        RecordKind::DaysWithWindGreaterThan55KmPerHour => {
            "days_with_wind_greater_than_55_km_per_hour"@
        },
        RecordKind::DaysWithWindGreaterThan91KmPerHour => {
            "days_with_wind_greater_than_91_km_per_hour"@
        },
        RecordKind::AverageWindSpeed => "average_wind_speed"@,
        RecordKind::AveragePressure => "average_pressure"@,
        RecordKind::MaxPressure => "max_pressure"@,
        RecordKind::MinPressure => "min_pressure"@,
        RecordKind::AveragePressureSeaLevel => "average_pressure_sea_level"@,
        RecordKind::AverageTemperatureUnder10Cm => "average_temperature_under_10_cm"@,
        RecordKind::AverageTemperatureUnder20Cm => "average_temperature_under_20_cm"@,
        RecordKind::AverageTemperatureUnder50Cm => "average_temperature_under_50_cm"@,
        RecordKind::DaysWithVisibilityLt50M => "days_with_visibility_lt_50_m"@,
        RecordKind::DaysWithVisibilityGteq50MLt100M => "days_with_visibility_gteq_50_m_lt_100_m"@,
        RecordKind::DaysWithVisibilityGteq100MLt1000M => {
            "days_with_visibility_gteq_100_m_lt_1000_m"@
        },
    }
}

/// The prefix of the names of the files that hold a kind of record.
pub open spec fn kind_file_prefix(k: RecordKind) -> Seq<char> {
    match k {
        RecordKind::AverageTemperature => "TM_MES"@,
        RecordKind::AverageMaxTemperature => "TM_MAX"@,
        RecordKind::AverageMinTemperature => "TM_MIN"@,
        RecordKind::AbsoluteMaxTemperature => "TA_MAX"@,
        RecordKind::AbsoluteMinTemperature => "TA_MIN"@,
        RecordKind::HigherMinTemperature => "TS_MIN"@,
        RecordKind::LowerMaxTemperature => "TI_MAX"@,
        RecordKind::NumberOfDaysGteq30Celsius => "NT_30"@,
        RecordKind::NumberOfDaysLteq0Celsius => "NT_00"@,
        RecordKind::TotalRain => "P_MES"@,
        RecordKind::MaxRain => "P_MAX"@,
        RecordKind::DaysWithAppreciableRain => "NP_001"@,
        RecordKind::DaysWithRainGteq1Mm => "NP_010"@,
        RecordKind::DaysWithRainGteq10Mm => "NP_100"@,
        RecordKind::DaysWithRainGteq30Mm => "NP_300"@,
        RecordKind::AverageRelativeHumidity => "HR"@,
        RecordKind::AverageVaporTension => "E"@,
        RecordKind::DaysOfRain => "N_LLU"@,
        RecordKind::DaysOfSnow => "N_NIE"@,
        RecordKind::DaysOfHail => "N_GRA"@,
        RecordKind::DaysOfStorm => "N_TOR"@,
        RecordKind::DaysOfFog => "N_FOG"@,
        RecordKind::ClearDays => "N_DES"@,
        RecordKind::CloudyDays => "N_NUB"@,
        RecordKind::CoveredDays => "N_CUB"@,
        RecordKind::HoursOfSun => "INSO"@,
        RecordKind::AveragePercentageAgainstTheoricInsolation => "P_SOL"@,
        RecordKind::Evaporation => "EVAP"@,
        RecordKind::AverageDistance => "W_REC"@,
        RecordKind::DaysWithWindGreaterThan55KmPerHour => "NW_55"@,
        RecordKind::DaysWithWindGreaterThan91KmPerHour => "NW_91"@,
        RecordKind::AverageWindSpeed => "W_MED"@,
        RecordKind::AveragePressure => "Q_MED"@,
        RecordKind::MaxPressure => "Q_MAX"@,
        RecordKind::MinPressure => "Q_MIN"@,
        RecordKind::AveragePressureSeaLevel => "Q_MAR"@,
        RecordKind::AverageTemperatureUnder10Cm => "TS_10"@,
        RecordKind::AverageTemperatureUnder20Cm => "TS_20"@,
        RecordKind::AverageTemperatureUnder50Cm => "TS_50"@,
        RecordKind::DaysWithVisibilityLt50M => "NV_0050"@,
        RecordKind::DaysWithVisibilityGteq50MLt100M => "NV_0100"@,
        RecordKind::DaysWithVisibilityGteq100MLt1000M => "NV_1000"@,
    }
}

/// The type of the values of a kind of record.
pub open spec fn kind_payload(k: RecordKind) -> Payload {
    match k {
        RecordKind::AverageTemperature => Payload::Celsius,
        RecordKind::AverageMaxTemperature => Payload::Celsius,
        RecordKind::AverageMinTemperature => Payload::Celsius,
        RecordKind::AbsoluteMaxTemperature => Payload::CelsiusWithDate,
        RecordKind::AbsoluteMinTemperature => Payload::CelsiusWithDate,
        RecordKind::HigherMinTemperature => Payload::Celsius,
        RecordKind::LowerMaxTemperature => Payload::Celsius,
        RecordKind::NumberOfDaysGteq30Celsius => Payload::Days,
        RecordKind::NumberOfDaysLteq0Celsius => Payload::Days,
        RecordKind::TotalRain => Payload::Mm,
        RecordKind::MaxRain => Payload::MmWithDate,
        RecordKind::DaysWithAppreciableRain => Payload::Days,
        RecordKind::DaysWithRainGteq1Mm => Payload::Days,
        RecordKind::DaysWithRainGteq10Mm => Payload::Days,
        RecordKind::DaysWithRainGteq30Mm => Payload::Days,
        RecordKind::AverageRelativeHumidity => Payload::Percentage,
        RecordKind::AverageVaporTension => Payload::TenthsOfHectoPascal,
        RecordKind::DaysOfRain => Payload::Days,
        RecordKind::DaysOfSnow => Payload::Days,
        RecordKind::DaysOfHail => Payload::Days,
        RecordKind::DaysOfStorm => Payload::Days,
        RecordKind::DaysOfFog => Payload::Days,
        RecordKind::ClearDays => Payload::Days,
        RecordKind::CloudyDays => Payload::Days,
        RecordKind::CoveredDays => Payload::Days,
        RecordKind::HoursOfSun => Payload::Hours,
        RecordKind::AveragePercentageAgainstTheoricInsolation => Payload::Percentage,
        RecordKind::Evaporation => Payload::TenthsOfMm,
        RecordKind::AverageDistance => Payload::Kilometers,
        RecordKind::DaysWithWindGreaterThan55KmPerHour => Payload::Days,
        RecordKind::DaysWithWindGreaterThan91KmPerHour => Payload::Days,
        RecordKind::AverageWindSpeed => Payload::KilometersPerHour,
        RecordKind::AveragePressure => Payload::TenthsOfHectoPascal,
        RecordKind::MaxPressure => Payload::TenthsOfHectoPascalWithDate,
        RecordKind::MinPressure => Payload::TenthsOfHectoPascalWithDate,
        RecordKind::AveragePressureSeaLevel => Payload::TenthsOfHectoPascal,
        RecordKind::AverageTemperatureUnder10Cm => Payload::Celsius,
        RecordKind::AverageTemperatureUnder20Cm => Payload::Celsius,
        RecordKind::AverageTemperatureUnder50Cm => Payload::Celsius,
        RecordKind::DaysWithVisibilityLt50M => Payload::Days,
        RecordKind::DaysWithVisibilityGteq50MLt100M => Payload::Days,
        RecordKind::DaysWithVisibilityGteq100MLt1000M => Payload::Days,
    }
}

/// Every kind of record, in the order in which the datasets list them.
pub open spec fn all_kinds() -> Seq<RecordKind> {
    seq![
        RecordKind::AverageTemperature,
        RecordKind::AverageMaxTemperature,
        RecordKind::AverageMinTemperature,
        RecordKind::AbsoluteMaxTemperature,
        RecordKind::AbsoluteMinTemperature,
        RecordKind::HigherMinTemperature,
        RecordKind::LowerMaxTemperature,
        RecordKind::NumberOfDaysGteq30Celsius,
        RecordKind::NumberOfDaysLteq0Celsius,
        RecordKind::TotalRain,
        RecordKind::MaxRain,
        RecordKind::DaysWithAppreciableRain,
        RecordKind::DaysWithRainGteq1Mm,
        RecordKind::DaysWithRainGteq10Mm,
        RecordKind::DaysWithRainGteq30Mm,
        RecordKind::AverageRelativeHumidity,
        RecordKind::AverageVaporTension,
        RecordKind::DaysOfRain,
        RecordKind::DaysOfSnow,
        RecordKind::DaysOfHail,
        RecordKind::DaysOfStorm,
        RecordKind::DaysOfFog,
        RecordKind::ClearDays,
        RecordKind::CloudyDays,
        RecordKind::CoveredDays,
        RecordKind::HoursOfSun,
        RecordKind::AveragePercentageAgainstTheoricInsolation,
        RecordKind::Evaporation,
        RecordKind::AverageDistance,
        RecordKind::DaysWithWindGreaterThan55KmPerHour,
        RecordKind::DaysWithWindGreaterThan91KmPerHour,
        RecordKind::AverageWindSpeed,
        RecordKind::AveragePressure,
        RecordKind::MaxPressure,
        RecordKind::MinPressure,
        RecordKind::AveragePressureSeaLevel,
        RecordKind::AverageTemperatureUnder10Cm,
        RecordKind::AverageTemperatureUnder20Cm,
        RecordKind::AverageTemperatureUnder50Cm,
        RecordKind::DaysWithVisibilityLt50M,
        RecordKind::DaysWithVisibilityGteq50MLt100M,
        RecordKind::DaysWithVisibilityGteq100MLt1000M,
    ]
}

impl RecordKind {
    pub fn name(&self) -> (r: &'static str)
        ensures
            r@ == kind_name(*self),
    {
        match *self {
            RecordKind::AverageTemperature => "average_temperature",
            RecordKind::AverageMaxTemperature => "average_max_temperature",
            RecordKind::AverageMinTemperature => "average_min_temperature",
            RecordKind::AbsoluteMaxTemperature => "absolute_max_temperature",
            RecordKind::AbsoluteMinTemperature => "absolute_min_temperature",
            RecordKind::HigherMinTemperature => "higher_min_temperature",
            RecordKind::LowerMaxTemperature => "lower_max_temperature",
            RecordKind::NumberOfDaysGteq30Celsius => "number_of_days_gteq_30_celsius",
            RecordKind::NumberOfDaysLteq0Celsius => "number_of_days_lteq_0_celsius",
            RecordKind::TotalRain => "total_rain",
            RecordKind::MaxRain => "max_rain",
            RecordKind::DaysWithAppreciableRain => "days_with_appreciable_rain",
            RecordKind::DaysWithRainGteq1Mm => "days_with_rain_gteq_1_mm",
            RecordKind::DaysWithRainGteq10Mm => "days_with_rain_gteq_10_mm",
            RecordKind::DaysWithRainGteq30Mm => "days_with_rain_gteq_30_mm",
            RecordKind::AverageRelativeHumidity => "average_relative_humidity",
            RecordKind::AverageVaporTension => "average_vapor_tension",
            RecordKind::DaysOfRain => "days_of_rain",
            RecordKind::DaysOfSnow => "days_of_snow",
            RecordKind::DaysOfHail => "days_of_hail",
            RecordKind::DaysOfStorm => "days_of_storm",
            RecordKind::DaysOfFog => "days_of_fog",
            RecordKind::ClearDays => "clear_days",
            RecordKind::CloudyDays => "cloudy_days",
            RecordKind::CoveredDays => "covered_days",
            RecordKind::HoursOfSun => "hours_of_sun",
            RecordKind::AveragePercentageAgainstTheoricInsolation => {
                "average_percentage_against_theoric_insolation"
            },
            RecordKind::Evaporation => "evaporation",
            RecordKind::AverageDistance => "average_distance",
            RecordKind::DaysWithWindGreaterThan55KmPerHour => {
                "days_with_wind_greater_than_55_km_per_hour"
            },
            RecordKind::DaysWithWindGreaterThan91KmPerHour => {
                "days_with_wind_greater_than_91_km_per_hour"
            },
            RecordKind::AverageWindSpeed => "average_wind_speed",
            RecordKind::AveragePressure => "average_pressure",
            RecordKind::MaxPressure => "max_pressure",
            RecordKind::MinPressure => "min_pressure",
            RecordKind::AveragePressureSeaLevel => "average_pressure_sea_level",
            RecordKind::AverageTemperatureUnder10Cm => "average_temperature_under_10_cm",
            RecordKind::AverageTemperatureUnder20Cm => "average_temperature_under_20_cm",
            RecordKind::AverageTemperatureUnder50Cm => "average_temperature_under_50_cm",
            RecordKind::DaysWithVisibilityLt50M => "days_with_visibility_lt_50_m",
            RecordKind::DaysWithVisibilityGteq50MLt100M => {
                "days_with_visibility_gteq_50_m_lt_100_m"
            },
            RecordKind::DaysWithVisibilityGteq100MLt1000M => {
                "days_with_visibility_gteq_100_m_lt_1000_m"
            },
        }
    }

    pub fn file_prefix(&self) -> (r: &'static str)
        ensures
            r@ == kind_file_prefix(*self),
    {
        match *self {
            RecordKind::AverageTemperature => "TM_MES",
            RecordKind::AverageMaxTemperature => "TM_MAX",
            RecordKind::AverageMinTemperature => "TM_MIN",
            RecordKind::AbsoluteMaxTemperature => "TA_MAX",
            RecordKind::AbsoluteMinTemperature => "TA_MIN",
            RecordKind::HigherMinTemperature => "TS_MIN",
            RecordKind::LowerMaxTemperature => "TI_MAX",
            RecordKind::NumberOfDaysGteq30Celsius => "NT_30",
            RecordKind::NumberOfDaysLteq0Celsius => "NT_00",
            RecordKind::TotalRain => "P_MES",
            RecordKind::MaxRain => "P_MAX",
            RecordKind::DaysWithAppreciableRain => "NP_001",
            RecordKind::DaysWithRainGteq1Mm => "NP_010",
            RecordKind::DaysWithRainGteq10Mm => "NP_100",
            RecordKind::DaysWithRainGteq30Mm => "NP_300",
            RecordKind::AverageRelativeHumidity => "HR",
            RecordKind::AverageVaporTension => "E",
            RecordKind::DaysOfRain => "N_LLU",
            RecordKind::DaysOfSnow => "N_NIE",
            RecordKind::DaysOfHail => "N_GRA",
            RecordKind::DaysOfStorm => "N_TOR",
            RecordKind::DaysOfFog => "N_FOG",
            RecordKind::ClearDays => "N_DES",
            RecordKind::CloudyDays => "N_NUB",
            RecordKind::CoveredDays => "N_CUB",
            RecordKind::HoursOfSun => "INSO",
            RecordKind::AveragePercentageAgainstTheoricInsolation => "P_SOL",
            RecordKind::Evaporation => "EVAP",
            RecordKind::AverageDistance => "W_REC",
            RecordKind::DaysWithWindGreaterThan55KmPerHour => "NW_55",
            RecordKind::DaysWithWindGreaterThan91KmPerHour => "NW_91",
            RecordKind::AverageWindSpeed => "W_MED",
            RecordKind::AveragePressure => "Q_MED",
            RecordKind::MaxPressure => "Q_MAX",
            RecordKind::MinPressure => "Q_MIN",
            RecordKind::AveragePressureSeaLevel => "Q_MAR",
            RecordKind::AverageTemperatureUnder10Cm => "TS_10",
            RecordKind::AverageTemperatureUnder20Cm => "TS_20",
            RecordKind::AverageTemperatureUnder50Cm => "TS_50",
            RecordKind::DaysWithVisibilityLt50M => "NV_0050",
            RecordKind::DaysWithVisibilityGteq50MLt100M => "NV_0100",
            RecordKind::DaysWithVisibilityGteq100MLt1000M => "NV_1000",
        }
    }

    pub fn payload(&self) -> (r: Payload)
        ensures
            r == kind_payload(*self),
    {
        match *self {
            RecordKind::AverageTemperature => Payload::Celsius,
            RecordKind::AverageMaxTemperature => Payload::Celsius,
            RecordKind::AverageMinTemperature => Payload::Celsius,
            RecordKind::AbsoluteMaxTemperature => Payload::CelsiusWithDate,
            RecordKind::AbsoluteMinTemperature => Payload::CelsiusWithDate,
            RecordKind::HigherMinTemperature => Payload::Celsius,
            RecordKind::LowerMaxTemperature => Payload::Celsius,
            RecordKind::NumberOfDaysGteq30Celsius => Payload::Days,
            RecordKind::NumberOfDaysLteq0Celsius => Payload::Days,
            RecordKind::TotalRain => Payload::Mm,
            RecordKind::MaxRain => Payload::MmWithDate,
            RecordKind::DaysWithAppreciableRain => Payload::Days,
            RecordKind::DaysWithRainGteq1Mm => Payload::Days,
            RecordKind::DaysWithRainGteq10Mm => Payload::Days,
            RecordKind::DaysWithRainGteq30Mm => Payload::Days,
            RecordKind::AverageRelativeHumidity => Payload::Percentage,
            RecordKind::AverageVaporTension => Payload::TenthsOfHectoPascal,
            RecordKind::DaysOfRain => Payload::Days,
            RecordKind::DaysOfSnow => Payload::Days,
            RecordKind::DaysOfHail => Payload::Days,
            RecordKind::DaysOfStorm => Payload::Days,
            RecordKind::DaysOfFog => Payload::Days,
            RecordKind::ClearDays => Payload::Days,
            RecordKind::CloudyDays => Payload::Days,
            RecordKind::CoveredDays => Payload::Days,
            RecordKind::HoursOfSun => Payload::Hours,
            RecordKind::AveragePercentageAgainstTheoricInsolation => Payload::Percentage,
            RecordKind::Evaporation => Payload::TenthsOfMm,
            RecordKind::AverageDistance => Payload::Kilometers,
            RecordKind::DaysWithWindGreaterThan55KmPerHour => Payload::Days,
            RecordKind::DaysWithWindGreaterThan91KmPerHour => Payload::Days,
            RecordKind::AverageWindSpeed => Payload::KilometersPerHour,
            RecordKind::AveragePressure => Payload::TenthsOfHectoPascal,
            RecordKind::MaxPressure => Payload::TenthsOfHectoPascalWithDate,
            RecordKind::MinPressure => Payload::TenthsOfHectoPascalWithDate,
            RecordKind::AveragePressureSeaLevel => Payload::TenthsOfHectoPascal,
            RecordKind::AverageTemperatureUnder10Cm => Payload::Celsius,
            RecordKind::AverageTemperatureUnder20Cm => Payload::Celsius,
            RecordKind::AverageTemperatureUnder50Cm => Payload::Celsius,
            RecordKind::DaysWithVisibilityLt50M => Payload::Days,
            RecordKind::DaysWithVisibilityGteq50MLt100M => Payload::Days,
            RecordKind::DaysWithVisibilityGteq100MLt1000M => Payload::Days,
        }
    }

    /// Every kind of record.
    pub fn all() -> (r: Vec<RecordKind>)
        ensures
            r@ == all_kinds(),
    {
        let mut r = Vec::new();
        r.push(RecordKind::AverageTemperature);
        r.push(RecordKind::AverageMaxTemperature);
        r.push(RecordKind::AverageMinTemperature);
        r.push(RecordKind::AbsoluteMaxTemperature);
        r.push(RecordKind::AbsoluteMinTemperature);
        r.push(RecordKind::HigherMinTemperature);
        r.push(RecordKind::LowerMaxTemperature);
        r.push(RecordKind::NumberOfDaysGteq30Celsius);
        r.push(RecordKind::NumberOfDaysLteq0Celsius);
        r.push(RecordKind::TotalRain);
        r.push(RecordKind::MaxRain);
        r.push(RecordKind::DaysWithAppreciableRain);
        r.push(RecordKind::DaysWithRainGteq1Mm);
        r.push(RecordKind::DaysWithRainGteq10Mm);
        r.push(RecordKind::DaysWithRainGteq30Mm);
        r.push(RecordKind::AverageRelativeHumidity);
        r.push(RecordKind::AverageVaporTension);
        r.push(RecordKind::DaysOfRain);
        r.push(RecordKind::DaysOfSnow);
        r.push(RecordKind::DaysOfHail);
        r.push(RecordKind::DaysOfStorm);
        r.push(RecordKind::DaysOfFog);
        r.push(RecordKind::ClearDays);
        r.push(RecordKind::CloudyDays);
        r.push(RecordKind::CoveredDays);
        r.push(RecordKind::HoursOfSun);
        r.push(RecordKind::AveragePercentageAgainstTheoricInsolation);
        r.push(RecordKind::Evaporation);
        r.push(RecordKind::AverageDistance);
        r.push(RecordKind::DaysWithWindGreaterThan55KmPerHour);
        r.push(RecordKind::DaysWithWindGreaterThan91KmPerHour);
        r.push(RecordKind::AverageWindSpeed);
        r.push(RecordKind::AveragePressure);
        r.push(RecordKind::MaxPressure);
        r.push(RecordKind::MinPressure);
        r.push(RecordKind::AveragePressureSeaLevel);
        r.push(RecordKind::AverageTemperatureUnder10Cm);
        r.push(RecordKind::AverageTemperatureUnder20Cm);
        r.push(RecordKind::AverageTemperatureUnder50Cm);
        r.push(RecordKind::DaysWithVisibilityLt50M);
        r.push(RecordKind::DaysWithVisibilityGteq50MLt100M);
        r.push(RecordKind::DaysWithVisibilityGteq100MLt1000M);
        assert(r@ =~= all_kinds());
        r
    }
}

/// The records of one station table, typed by the kind's values.
#[derive(Debug)]
pub enum YearlyRecords {
    Celsius(Vec<F1<Celsius>>),
    CelsiusWithDate(Vec<F1<WithDate<Celsius>>>),
    Days(Vec<F1<Days>>),
    Mm(Vec<F1<Mm>>),
    MmWithDate(Vec<F1<WithDate<Mm>>>),
    Percentage(Vec<F1<Percentage>>),
    TenthsOfHectoPascal(Vec<F1<TenthsOfHectoPascal>>),
    TenthsOfHectoPascalWithDate(Vec<F1<WithDate<TenthsOfHectoPascal>>>),
    Hours(Vec<F1<Hours>>),
    TenthsOfMm(Vec<F1<TenthsOfMm>>),
    Kilometers(Vec<F1<Kilometers>>),
    KilometersPerHour(Vec<F1<KilometersPerHour>>),
}

/// The records of one aggregate table, typed by the kind's values.
#[derive(Debug)]
pub enum AggregateRecords {
    Celsius(Vec<F4<Celsius>>),
    CelsiusWithDate(Vec<F4<WithDate<Celsius>>>),
    Days(Vec<F4<Days>>),
    Mm(Vec<F4<Mm>>),
    MmWithDate(Vec<F4<WithDate<Mm>>>),
    Percentage(Vec<F4<Percentage>>),
    TenthsOfHectoPascal(Vec<F4<TenthsOfHectoPascal>>),
    TenthsOfHectoPascalWithDate(Vec<F4<WithDate<TenthsOfHectoPascal>>>),
    Hours(Vec<F4<Hours>>),
    TenthsOfMm(Vec<F4<TenthsOfMm>>),
    Kilometers(Vec<F4<Kilometers>>),
    KilometersPerHour(Vec<F4<KilometersPerHour>>),
}

/// Whether `now` holds the aggregates of `orig` whose parameter is not in
/// `ps`, in their order, with the same type of values.
pub open spec fn remaining_records(
    orig: AggregateRecords,
    ps: Seq<AggregateParameter>,
    now: AggregateRecords,
) -> bool {
    match (orig, now) {
        (AggregateRecords::Celsius(a), AggregateRecords::Celsius(b)) => b@ == remaining(a@, ps),
        (AggregateRecords::CelsiusWithDate(a), AggregateRecords::CelsiusWithDate(b)) => {
            b@ == remaining(a@, ps)
        },
        (AggregateRecords::Days(a), AggregateRecords::Days(b)) => b@ == remaining(a@, ps),
        (AggregateRecords::Mm(a), AggregateRecords::Mm(b)) => b@ == remaining(a@, ps),
        (AggregateRecords::MmWithDate(a), AggregateRecords::MmWithDate(b)) => {
            b@ == remaining(a@, ps)
        },
        (AggregateRecords::Percentage(a), AggregateRecords::Percentage(b)) => {
            b@ == remaining(a@, ps)
        },
        (AggregateRecords::TenthsOfHectoPascal(a), AggregateRecords::TenthsOfHectoPascal(b)) => {
            b@ == remaining(a@, ps)
        },
        (AggregateRecords::TenthsOfHectoPascalWithDate(a), AggregateRecords::TenthsOfHectoPascalWithDate(b)) => {
            b@ == remaining(a@, ps)
        },
        (AggregateRecords::Hours(a), AggregateRecords::Hours(b)) => b@ == remaining(a@, ps),
        (AggregateRecords::TenthsOfMm(a), AggregateRecords::TenthsOfMm(b)) => {
            b@ == remaining(a@, ps)
        },
        (AggregateRecords::Kilometers(a), AggregateRecords::Kilometers(b)) => {
            b@ == remaining(a@, ps)
        },
        (AggregateRecords::KilometersPerHour(a), AggregateRecords::KilometersPerHour(b)) => {
            b@ == remaining(a@, ps)
        },
        _ => false,
    }
}

/// Whether `out` holds the station records that the aggregates of `orig`
/// tagged `p` become (as `claimed` orders them), with the same type of values.
pub open spec fn claimed_records(
    orig: AggregateRecords,
    p: AggregateParameter,
    out: YearlyRecords,
) -> bool {
    match (orig, out) {
        (AggregateRecords::Celsius(a), YearlyRecords::Celsius(b)) => b@ == claimed(a@, p),
        (AggregateRecords::CelsiusWithDate(a), YearlyRecords::CelsiusWithDate(b)) => {
            b@ == claimed(a@, p)
        },
        (AggregateRecords::Days(a), YearlyRecords::Days(b)) => b@ == claimed(a@, p),
        (AggregateRecords::Mm(a), YearlyRecords::Mm(b)) => b@ == claimed(a@, p),
        (AggregateRecords::MmWithDate(a), YearlyRecords::MmWithDate(b)) => b@ == claimed(a@, p),
        (AggregateRecords::Percentage(a), YearlyRecords::Percentage(b)) => b@ == claimed(a@, p),
        (AggregateRecords::TenthsOfHectoPascal(a), YearlyRecords::TenthsOfHectoPascal(b)) => {
            b@ == claimed(a@, p)
        },
        (AggregateRecords::TenthsOfHectoPascalWithDate(a), YearlyRecords::TenthsOfHectoPascalWithDate(b)) => {
            b@ == claimed(a@, p)
        },
        (AggregateRecords::Hours(a), YearlyRecords::Hours(b)) => b@ == claimed(a@, p),
        (AggregateRecords::TenthsOfMm(a), YearlyRecords::TenthsOfMm(b)) => b@ == claimed(a@, p),
        (AggregateRecords::Kilometers(a), YearlyRecords::Kilometers(b)) => b@ == claimed(a@, p),
        (AggregateRecords::KilometersPerHour(a), YearlyRecords::KilometersPerHour(b)) => {
            b@ == claimed(a@, p)
        },
        _ => false,
    }
}

/// One more parameter taken out of a table: what is left and what each
/// parameter claimed compare to the table as it was first.
pub proof fn lemma_records_step(
    orig: AggregateRecords,
    ps: Seq<AggregateParameter>,
    now: AggregateRecords,
    p: AggregateParameter,
    next: AggregateRecords,
    out: YearlyRecords,
)
    requires
        !ps.contains(p),
        remaining_records(orig, ps, now),
        remaining_records(now, seq![p], next),
        claimed_records(now, p, out),
    ensures
        remaining_records(orig, ps.push(p), next),
        claimed_records(orig, p, out),
{
    match (orig, now) {
        (AggregateRecords::Celsius(a), AggregateRecords::Celsius(_)) => {
            crate::normalize::lemma_step(a@, ps, p);
        },
        (AggregateRecords::CelsiusWithDate(a), AggregateRecords::CelsiusWithDate(_)) => {
            crate::normalize::lemma_step(a@, ps, p);
        },
        (AggregateRecords::Days(a), AggregateRecords::Days(_)) => {
            crate::normalize::lemma_step(a@, ps, p);
        },
        (AggregateRecords::Mm(a), AggregateRecords::Mm(_)) => {
            crate::normalize::lemma_step(a@, ps, p);
        },
        (AggregateRecords::MmWithDate(a), AggregateRecords::MmWithDate(_)) => {
            crate::normalize::lemma_step(a@, ps, p);
        },
        (AggregateRecords::Percentage(a), AggregateRecords::Percentage(_)) => {
            crate::normalize::lemma_step(a@, ps, p);
        },
        (AggregateRecords::TenthsOfHectoPascal(a), AggregateRecords::TenthsOfHectoPascal(_)) => {
            crate::normalize::lemma_step(a@, ps, p);
        },
        (AggregateRecords::TenthsOfHectoPascalWithDate(a), AggregateRecords::TenthsOfHectoPascalWithDate(_)) => {
            crate::normalize::lemma_step(a@, ps, p);
        },
        (AggregateRecords::Hours(a), AggregateRecords::Hours(_)) => {
            crate::normalize::lemma_step(a@, ps, p);
        },
        (AggregateRecords::TenthsOfMm(a), AggregateRecords::TenthsOfMm(_)) => {
            crate::normalize::lemma_step(a@, ps, p);
        },
        (AggregateRecords::Kilometers(a), AggregateRecords::Kilometers(_)) => {
            crate::normalize::lemma_step(a@, ps, p);
        },
        (AggregateRecords::KilometersPerHour(a), AggregateRecords::KilometersPerHour(_)) => {
            crate::normalize::lemma_step(a@, ps, p);
        },
        _ => {},
    }
}

impl AggregateRecords {
    /// Takes out the aggregates tagged `p`, as `take_parameter` does.
    pub fn take(self, p: AggregateParameter) -> (r: (AggregateRecords, YearlyRecords))
        ensures
            remaining_records(self, seq![p], r.0),
            claimed_records(self, p, r.1),
    {
        match self {
            AggregateRecords::Celsius(mut v) => {
                let out = take_parameter(&mut v, p);
                (AggregateRecords::Celsius(v), YearlyRecords::Celsius(out))
            },
            AggregateRecords::CelsiusWithDate(mut v) => {
                let out = take_parameter(&mut v, p);
                (AggregateRecords::CelsiusWithDate(v), YearlyRecords::CelsiusWithDate(out))
            },
            AggregateRecords::Days(mut v) => {
                let out = take_parameter(&mut v, p);
                (AggregateRecords::Days(v), YearlyRecords::Days(out))
            },
            AggregateRecords::Mm(mut v) => {
                let out = take_parameter(&mut v, p);
                (AggregateRecords::Mm(v), YearlyRecords::Mm(out))
            },
            AggregateRecords::MmWithDate(mut v) => {
                let out = take_parameter(&mut v, p);
                (AggregateRecords::MmWithDate(v), YearlyRecords::MmWithDate(out))
            },
            AggregateRecords::Percentage(mut v) => {
                let out = take_parameter(&mut v, p);
                (AggregateRecords::Percentage(v), YearlyRecords::Percentage(out))
            },
            AggregateRecords::TenthsOfHectoPascal(mut v) => {
                let out = take_parameter(&mut v, p);
                (AggregateRecords::TenthsOfHectoPascal(v), YearlyRecords::TenthsOfHectoPascal(out))
            },
            AggregateRecords::TenthsOfHectoPascalWithDate(mut v) => {
                let out = take_parameter(&mut v, p);
                (AggregateRecords::TenthsOfHectoPascalWithDate(v), YearlyRecords::TenthsOfHectoPascalWithDate(out))
            },
            AggregateRecords::Hours(mut v) => {
                let out = take_parameter(&mut v, p);
                (AggregateRecords::Hours(v), YearlyRecords::Hours(out))
            },
            AggregateRecords::TenthsOfMm(mut v) => {
                let out = take_parameter(&mut v, p);
                (AggregateRecords::TenthsOfMm(v), YearlyRecords::TenthsOfMm(out))
            },
            AggregateRecords::Kilometers(mut v) => {
                let out = take_parameter(&mut v, p);
                (AggregateRecords::Kilometers(v), YearlyRecords::Kilometers(out))
            },
            AggregateRecords::KilometersPerHour(mut v) => {
                let out = take_parameter(&mut v, p);
                (AggregateRecords::KilometersPerHour(v), YearlyRecords::KilometersPerHour(out))
            },
        }
    }
}

/// Reads the station records of a kind from a `;`-separated table.
pub fn read_yearly_records(kind: RecordKind, bytes: &[u8]) -> (r: Result<YearlyRecords, TableError>)
    ensures
        yearly_read(kind_payload(kind), bytes@, r),
{
    match kind.payload() {
        Payload::Celsius => match read_records::<F1<Celsius>>(bytes) {
            Ok(v) => Ok(YearlyRecords::Celsius(v)),
            Err(e) => Err(e),
        },
        Payload::CelsiusWithDate => match read_records::<F1<WithDate<Celsius>>>(bytes) {
            Ok(v) => Ok(YearlyRecords::CelsiusWithDate(v)),
            Err(e) => Err(e),
        },
        Payload::Days => match read_records::<F1<Days>>(bytes) {
            Ok(v) => Ok(YearlyRecords::Days(v)),
            Err(e) => Err(e),
        },
        Payload::Mm => match read_records::<F1<Mm>>(bytes) {
            Ok(v) => Ok(YearlyRecords::Mm(v)),
            Err(e) => Err(e),
        },
        Payload::MmWithDate => match read_records::<F1<WithDate<Mm>>>(bytes) {
            Ok(v) => Ok(YearlyRecords::MmWithDate(v)),
            Err(e) => Err(e),
        },
        Payload::Percentage => match read_records::<F1<Percentage>>(bytes) {
            Ok(v) => Ok(YearlyRecords::Percentage(v)),
            Err(e) => Err(e),
        },
        Payload::TenthsOfHectoPascal => match read_records::<F1<TenthsOfHectoPascal>>(bytes) {
            Ok(v) => Ok(YearlyRecords::TenthsOfHectoPascal(v)),
            Err(e) => Err(e),
        },
        Payload::TenthsOfHectoPascalWithDate => match read_records::<F1<WithDate<TenthsOfHectoPascal>>>(bytes) {
            Ok(v) => Ok(YearlyRecords::TenthsOfHectoPascalWithDate(v)),
            Err(e) => Err(e),
        },
        Payload::Hours => match read_records::<F1<Hours>>(bytes) {
            Ok(v) => Ok(YearlyRecords::Hours(v)),
            Err(e) => Err(e),
        },
        Payload::TenthsOfMm => match read_records::<F1<TenthsOfMm>>(bytes) {
            Ok(v) => Ok(YearlyRecords::TenthsOfMm(v)),
            Err(e) => Err(e),
        },
        Payload::Kilometers => match read_records::<F1<Kilometers>>(bytes) {
            Ok(v) => Ok(YearlyRecords::Kilometers(v)),
            Err(e) => Err(e),
        },
        Payload::KilometersPerHour => match read_records::<F1<KilometersPerHour>>(bytes) {
            Ok(v) => Ok(YearlyRecords::KilometersPerHour(v)),
            Err(e) => Err(e),
        },
    }
}

/// Reads the aggregate records of a kind from a `;`-separated table.
pub fn read_aggregate_records(
    kind: RecordKind,
    bytes: &[u8],
) -> (r: Result<AggregateRecords, TableError>)
    ensures
        aggregate_read(kind_payload(kind), bytes@, r),
{
    match kind.payload() {
        Payload::Celsius => match read_records::<F4<Celsius>>(bytes) {
            Ok(v) => Ok(AggregateRecords::Celsius(v)),
            Err(e) => Err(e),
        },
        Payload::CelsiusWithDate => match read_records::<F4<WithDate<Celsius>>>(bytes) {
            Ok(v) => Ok(AggregateRecords::CelsiusWithDate(v)),
            Err(e) => Err(e),
        },
        Payload::Days => match read_records::<F4<Days>>(bytes) {
            Ok(v) => Ok(AggregateRecords::Days(v)),
            Err(e) => Err(e),
        },
        Payload::Mm => match read_records::<F4<Mm>>(bytes) {
            Ok(v) => Ok(AggregateRecords::Mm(v)),
            Err(e) => Err(e),
        },
        Payload::MmWithDate => match read_records::<F4<WithDate<Mm>>>(bytes) {
            Ok(v) => Ok(AggregateRecords::MmWithDate(v)),
            Err(e) => Err(e),
        },
        Payload::Percentage => match read_records::<F4<Percentage>>(bytes) {
            Ok(v) => Ok(AggregateRecords::Percentage(v)),
            Err(e) => Err(e),
        },
        Payload::TenthsOfHectoPascal => match read_records::<F4<TenthsOfHectoPascal>>(bytes) {
            Ok(v) => Ok(AggregateRecords::TenthsOfHectoPascal(v)),
            Err(e) => Err(e),
        },
        Payload::TenthsOfHectoPascalWithDate => match read_records::<F4<WithDate<TenthsOfHectoPascal>>>(bytes) {
            Ok(v) => Ok(AggregateRecords::TenthsOfHectoPascalWithDate(v)),
            Err(e) => Err(e),
        },
        Payload::Hours => match read_records::<F4<Hours>>(bytes) {
            Ok(v) => Ok(AggregateRecords::Hours(v)),
            Err(e) => Err(e),
        },
        Payload::TenthsOfMm => match read_records::<F4<TenthsOfMm>>(bytes) {
            Ok(v) => Ok(AggregateRecords::TenthsOfMm(v)),
            Err(e) => Err(e),
        },
        Payload::Kilometers => match read_records::<F4<Kilometers>>(bytes) {
            Ok(v) => Ok(AggregateRecords::Kilometers(v)),
            Err(e) => Err(e),
        },
        Payload::KilometersPerHour => match read_records::<F4<KilometersPerHour>>(bytes) {
            Ok(v) => Ok(AggregateRecords::KilometersPerHour(v)),
            Err(e) => Err(e),
        },
    }
}

/// Whether `r` is what reading station records with values of type `p` from
/// the bytes gives, as `read_as` describes, held in the variant for `p`.
pub open spec fn yearly_read(
    p: Payload,
    bytes: Seq<u8>,
    r: Result<YearlyRecords, TableError>,
) -> bool {
    match (p, r) {
        (Payload::Celsius, Ok(YearlyRecords::Celsius(v))) => read_as::<F1<Celsius>>(bytes, Ok(v)),
        (Payload::Celsius, Err(e)) => read_as::<F1<Celsius>>(bytes, Err(e)),
        (Payload::CelsiusWithDate, Ok(YearlyRecords::CelsiusWithDate(v))) => {
            read_as::<F1<WithDate<Celsius>>>(bytes, Ok(v))
        },
        (Payload::CelsiusWithDate, Err(e)) => read_as::<F1<WithDate<Celsius>>>(bytes, Err(e)),
        (Payload::Days, Ok(YearlyRecords::Days(v))) => read_as::<F1<Days>>(bytes, Ok(v)),
        (Payload::Days, Err(e)) => read_as::<F1<Days>>(bytes, Err(e)),
        (Payload::Mm, Ok(YearlyRecords::Mm(v))) => read_as::<F1<Mm>>(bytes, Ok(v)),
        (Payload::Mm, Err(e)) => read_as::<F1<Mm>>(bytes, Err(e)),
        (Payload::MmWithDate, Ok(YearlyRecords::MmWithDate(v))) => {
            read_as::<F1<WithDate<Mm>>>(bytes, Ok(v))
        },
        (Payload::MmWithDate, Err(e)) => read_as::<F1<WithDate<Mm>>>(bytes, Err(e)),
        (Payload::Percentage, Ok(YearlyRecords::Percentage(v))) => {
            read_as::<F1<Percentage>>(bytes, Ok(v))
        },
        (Payload::Percentage, Err(e)) => read_as::<F1<Percentage>>(bytes, Err(e)),
        (Payload::TenthsOfHectoPascal, Ok(YearlyRecords::TenthsOfHectoPascal(v))) => {
            read_as::<F1<TenthsOfHectoPascal>>(bytes, Ok(v))
        },
        (Payload::TenthsOfHectoPascal, Err(e)) => read_as::<F1<TenthsOfHectoPascal>>(bytes, Err(e)),
        (Payload::TenthsOfHectoPascalWithDate, Ok(YearlyRecords::TenthsOfHectoPascalWithDate(v))) => {
            read_as::<F1<WithDate<TenthsOfHectoPascal>>>(bytes, Ok(v))
        },
        (Payload::TenthsOfHectoPascalWithDate, Err(e)) => {
            read_as::<F1<WithDate<TenthsOfHectoPascal>>>(bytes, Err(e))
        },
        (Payload::Hours, Ok(YearlyRecords::Hours(v))) => read_as::<F1<Hours>>(bytes, Ok(v)),
        (Payload::Hours, Err(e)) => read_as::<F1<Hours>>(bytes, Err(e)),
        (Payload::TenthsOfMm, Ok(YearlyRecords::TenthsOfMm(v))) => {
            read_as::<F1<TenthsOfMm>>(bytes, Ok(v))
        },
        (Payload::TenthsOfMm, Err(e)) => read_as::<F1<TenthsOfMm>>(bytes, Err(e)),
        (Payload::Kilometers, Ok(YearlyRecords::Kilometers(v))) => {
            read_as::<F1<Kilometers>>(bytes, Ok(v))
        },
        (Payload::Kilometers, Err(e)) => read_as::<F1<Kilometers>>(bytes, Err(e)),
        (Payload::KilometersPerHour, Ok(YearlyRecords::KilometersPerHour(v))) => {
            read_as::<F1<KilometersPerHour>>(bytes, Ok(v))
        },
        (Payload::KilometersPerHour, Err(e)) => read_as::<F1<KilometersPerHour>>(bytes, Err(e)),
        _ => false,
    }
}

/// Whether `r` is what reading aggregate records with values of type `p` from
/// the bytes gives, as `read_as` describes, held in the variant for `p`.
pub open spec fn aggregate_read(
    p: Payload,
    bytes: Seq<u8>,
    r: Result<AggregateRecords, TableError>,
) -> bool {
    match (p, r) {
        (Payload::Celsius, Ok(AggregateRecords::Celsius(v))) => {
            read_as::<F4<Celsius>>(bytes, Ok(v))
        },
        (Payload::Celsius, Err(e)) => read_as::<F4<Celsius>>(bytes, Err(e)),
        (Payload::CelsiusWithDate, Ok(AggregateRecords::CelsiusWithDate(v))) => {
            read_as::<F4<WithDate<Celsius>>>(bytes, Ok(v))
        },
        (Payload::CelsiusWithDate, Err(e)) => read_as::<F4<WithDate<Celsius>>>(bytes, Err(e)),
        (Payload::Days, Ok(AggregateRecords::Days(v))) => read_as::<F4<Days>>(bytes, Ok(v)),
        (Payload::Days, Err(e)) => read_as::<F4<Days>>(bytes, Err(e)),
        (Payload::Mm, Ok(AggregateRecords::Mm(v))) => read_as::<F4<Mm>>(bytes, Ok(v)),
        (Payload::Mm, Err(e)) => read_as::<F4<Mm>>(bytes, Err(e)),
        (Payload::MmWithDate, Ok(AggregateRecords::MmWithDate(v))) => {
            read_as::<F4<WithDate<Mm>>>(bytes, Ok(v))
        },
        (Payload::MmWithDate, Err(e)) => read_as::<F4<WithDate<Mm>>>(bytes, Err(e)),
        (Payload::Percentage, Ok(AggregateRecords::Percentage(v))) => {
            read_as::<F4<Percentage>>(bytes, Ok(v))
        },
        (Payload::Percentage, Err(e)) => read_as::<F4<Percentage>>(bytes, Err(e)),
        (Payload::TenthsOfHectoPascal, Ok(AggregateRecords::TenthsOfHectoPascal(v))) => {
            read_as::<F4<TenthsOfHectoPascal>>(bytes, Ok(v))
        },
        (Payload::TenthsOfHectoPascal, Err(e)) => read_as::<F4<TenthsOfHectoPascal>>(bytes, Err(e)),
        (Payload::TenthsOfHectoPascalWithDate, Ok(AggregateRecords::TenthsOfHectoPascalWithDate(v))) => {
            read_as::<F4<WithDate<TenthsOfHectoPascal>>>(bytes, Ok(v))
        },
        (Payload::TenthsOfHectoPascalWithDate, Err(e)) => {
            read_as::<F4<WithDate<TenthsOfHectoPascal>>>(bytes, Err(e))
        },
        (Payload::Hours, Ok(AggregateRecords::Hours(v))) => read_as::<F4<Hours>>(bytes, Ok(v)),
        (Payload::Hours, Err(e)) => read_as::<F4<Hours>>(bytes, Err(e)),
        (Payload::TenthsOfMm, Ok(AggregateRecords::TenthsOfMm(v))) => {
            read_as::<F4<TenthsOfMm>>(bytes, Ok(v))
        },
        (Payload::TenthsOfMm, Err(e)) => read_as::<F4<TenthsOfMm>>(bytes, Err(e)),
        (Payload::Kilometers, Ok(AggregateRecords::Kilometers(v))) => {
            read_as::<F4<Kilometers>>(bytes, Ok(v))
        },
        (Payload::Kilometers, Err(e)) => read_as::<F4<Kilometers>>(bytes, Err(e)),
        (Payload::KilometersPerHour, Ok(AggregateRecords::KilometersPerHour(v))) => {
            read_as::<F4<KilometersPerHour>>(bytes, Ok(v))
        },
        (Payload::KilometersPerHour, Err(e)) => read_as::<F4<KilometersPerHour>>(bytes, Err(e)),
        _ => false,
    }
}

/// A station table of one kind.
#[derive(Debug)]
pub struct YearlyTable {
    pub kind: RecordKind,
    pub records: YearlyRecords,
}

/// An aggregate table of one kind.
#[derive(Debug)]
pub struct AggregateTable {
    pub kind: RecordKind,
    pub records: AggregateRecords,
}

/// The aggregates of all stations over a reference period of years.
#[derive(Debug)]
pub struct AggregateData {
    pub from_year: u32,
    pub to_year: u32,
    pub tables: Vec<AggregateTable>,
}

/// The data of all stations for a year, or for a period when it was derived
/// from aggregates.
#[derive(Debug)]
pub struct YearlyData {
    /// A label for the year or the period.
    pub year: String,
    /// Where the data was derived from aggregates: the year of the dataset
    /// they came with.
    pub is_aggregate: Option<String>,
    pub stations: Vec<Station>,
    pub tables: Vec<YearlyTable>,
    pub aggregate: AggregateData,
}

/// What to do with the aggregate tables of the datasets.
#[derive(Debug, Clone, Copy, PartialEq, Eq, Structural)]
pub enum AggregateDataProcessing {
    /// Keep no aggregates.
    No,
    /// Keep the aggregates as they are.
    Full,
    /// Derive one dataset per shape parameter from the aggregates.
    Normalize,
}

/// The parameters that aggregates are split by, in this order. Sample count,
/// standard deviation and coefficient of variation are left out: they are not
/// in the unit of the values.
pub open spec fn normalized_parameters() -> Seq<AggregateParameter> {
    seq![
        AggregateParameter::Average,
        AggregateParameter::Median,
        AggregateParameter::Min,
        AggregateParameter::Q1,
        AggregateParameter::Q2,
        AggregateParameter::Q3,
        AggregateParameter::Q4,
        AggregateParameter::Max,
    ]
}

/// The parameters that aggregates are split by, as `normalized_parameters`
/// lists them.
pub fn normalized_parameter_list() -> (r: Vec<AggregateParameter>)
    ensures
        r@ == normalized_parameters(),
        r@.no_duplicates(),
{
    let mut r = Vec::new();
    r.push(AggregateParameter::Average);
    r.push(AggregateParameter::Median);
    r.push(AggregateParameter::Min);
    r.push(AggregateParameter::Q1);
    r.push(AggregateParameter::Q2);
    r.push(AggregateParameter::Q3);
    r.push(AggregateParameter::Q4);
    r.push(AggregateParameter::Max);
    assert(r@ =~= normalized_parameters());
    r
}

/// The label of a dataset derived from aggregates:
/// `<from> - <to> <parameter> (<year> dataset)`.
pub open spec fn label_text(
    from: u32,
    to: u32,
    p: AggregateParameter,
    year: Seq<char>,
) -> Seq<char> {
    nat_text(from as nat) + " - "@ + nat_text(to as nat) + " "@ + human_name(p) + " ("@ + year
        + " dataset)"@
}

/// The label of a dataset derived from aggregates, as `label_text` writes it.
pub fn aggregate_label(from: u32, to: u32, p: AggregateParameter, year: &str) -> (r: String)
    ensures
        r@ == label_text(from, to, p, year@),
{
    let mut out = String::new();
    push_decimal(&mut out, from);
    out.append(" - ");
    push_decimal(&mut out, to);
    out.append(" ");
    out.append(p.as_human_str());
    out.append(" (");
    out.append(year);
    out.append(" dataset)");
    assert(out@ =~= label_text(from, to, p, year@));
    out
}

/// Whether `d` holds no aggregates and no period.
pub open spec fn is_empty_aggregate(d: AggregateData) -> bool {
    d.from_year == 0 && d.to_year == 0 && d.tables@.len() == 0
}

/// Whether `out` is the dataset that the aggregates `a` give for the
/// parameter `p`: labelled after the period, the parameter and the dataset
/// `origin` they came with, with no stations and no aggregates, and per
/// table, the station records that the aggregates tagged `p` become.
pub open spec fn normalized_from(
    a: AggregateData,
    origin: Seq<char>,
    p: AggregateParameter,
    out: YearlyData,
) -> bool {
    &&& out.year@ == label_text(a.from_year, a.to_year, p, origin)
    &&& out.is_aggregate is Some && out.is_aggregate->Some_0@ == origin
    &&& out.stations@.len() == 0
    &&& is_empty_aggregate(out.aggregate)
    &&& out.tables@.len() == a.tables@.len()
    &&& forall|i: int|
        0 <= i < a.tables@.len() ==> (#[trigger] out.tables@[i]).kind == a.tables@[i].kind
            && claimed_records(a.tables@[i].records, p, out.tables@[i].records)
}

impl AggregateData {
    /// No aggregates, and no period.
    pub fn empty() -> (r: Self)
        ensures
            is_empty_aggregate(r),
    {
        AggregateData { from_year: 0, to_year: 0, tables: Vec::new() }
    }

    /// Takes the aggregates tagged `p` out of every table into a dataset of
    /// their own, labelled `label`, that records `year` as its origin. The
    /// other aggregates stay.
    pub fn normalize_taking(
        &mut self,
        p: AggregateParameter,
        year: String,
        label: String,
    ) -> (r: YearlyData)
        ensures
            r.year@ == label@,
            r.is_aggregate == Some(year),
            r.stations@.len() == 0,
            is_empty_aggregate(r.aggregate),
            final(self).from_year == old(self).from_year,
            final(self).to_year == old(self).to_year,
            r.tables@.len() == old(self).tables@.len(),
            final(self).tables@.len() == old(self).tables@.len(),
            forall|i: int|
                0 <= i < old(self).tables@.len() ==> {
                    &&& (#[trigger] r.tables@[i]).kind == old(self).tables@[i].kind
                    &&& final(self).tables@[i].kind == old(self).tables@[i].kind
                    &&& claimed_records(old(self).tables@[i].records, p, r.tables@[i].records)
                    &&& remaining_records(
                        old(self).tables@[i].records,
                        seq![p],
                        final(self).tables@[i].records,
                    )
                },
    {
        let mut pending: Vec<AggregateTable> = Vec::new();
        std::mem::swap(&mut self.tables, &mut pending);
        let ghost orig = pending@;
        let mut out: Vec<YearlyTable> = Vec::new();
        let n = pending.len();
        let mut i: usize = 0;
        while i < n
            invariant
                n == orig.len(),
                i <= n,
                pending@ == orig.skip(i as int),
                out@.len() == i,
                self.tables@.len() == i,
                self.from_year == old(self).from_year,
                self.to_year == old(self).to_year,
                orig == old(self).tables@,
                forall|k: int|
                    0 <= k < i ==> {
                        &&& (#[trigger] out@[k]).kind == orig[k].kind
                        &&& self.tables@[k].kind == orig[k].kind
                        &&& claimed_records(orig[k].records, p, out@[k].records)
                        &&& remaining_records(orig[k].records, seq![p], self.tables@[k].records)
                    },
            decreases n - i,
        {
            assert(pending@[0] == orig[i as int]);
            let t = pending.remove(0);
            assert(pending@ =~= orig.skip(i + 1));
            let (kept, taken) = t.records.take(p);
            self.tables.push(AggregateTable { kind: t.kind, records: kept });
            out.push(YearlyTable { kind: t.kind, records: taken });
            i = i + 1;
        }
        YearlyData {
            year: label,
            is_aggregate: Some(year),
            stations: Vec::new(),
            tables: out,
            aggregate: AggregateData::empty(),
        }
    }

    /// One dataset per parameter of `normalized_parameters`, in that order,
    /// each as `normalized_from` describes; `origin` is the year of the
    /// dataset that the aggregates came with.
    pub fn normalize(self, origin: &String) -> (r: Vec<YearlyData>)
        ensures
            r@.len() == normalized_parameters().len(),
            forall|j: int|
                0 <= j < normalized_parameters().len() ==> normalized_from(
                    self,
                    origin@,
                    normalized_parameters()[j],
                    #[trigger] r@[j],
                ),
    {
        let ps = normalized_parameter_list();
        let ghost orig = self;
        let mut agg = self;
        let mut out: Vec<YearlyData> = Vec::new();
        let mut j: usize = 0;
        proof {
            assert forall|i: int| 0 <= i < orig.tables@.len() implies remaining_records(
                orig.tables@[i].records,
                ps@.take(0),
                #[trigger] agg.tables@[i].records,
            ) by {
                lemma_remaining_records_none(orig.tables@[i].records, ps@.take(0));
            }
        }
        while j < ps.len()
            invariant
                ps@ == normalized_parameters(),
                ps@.no_duplicates(),
                j <= ps@.len(),
                out@.len() == j,
                agg.from_year == orig.from_year,
                agg.to_year == orig.to_year,
                agg.tables@.len() == orig.tables@.len(),
                forall|i: int|
                    0 <= i < orig.tables@.len() ==> (#[trigger] agg.tables@[i]).kind
                        == orig.tables@[i].kind && remaining_records(
                        orig.tables@[i].records,
                        ps@.take(j as int),
                        agg.tables@[i].records,
                    ),
                forall|k: int| 0 <= k < j ==> normalized_from(orig, origin@, ps@[k], #[trigger] out@[k]),
            decreases ps@.len() - j,
        {
            let p = ps[j];
            let ghost before = agg;
            let label = aggregate_label(agg.from_year, agg.to_year, p, origin.as_str());
            let d = agg.normalize_taking(p, origin.clone(), label);
            proof {
                assert(!ps@.take(j as int).contains(p)) by {
                    if ps@.take(j as int).contains(p) {
                        let k = choose|k: int| 0 <= k < j && ps@.take(j as int)[k] == p;
                        assert(ps@[k] == ps@[j as int]);
                    }
                }
                assert(ps@.take(j as int).push(p) =~= ps@.take(j + 1));
                assert forall|i: int| 0 <= i < orig.tables@.len() implies {
                    &&& claimed_records(orig.tables@[i].records, p, d.tables@[i].records)
                    &&& remaining_records(orig.tables@[i].records, ps@.take(j + 1), agg.tables@[i].records)
                    &&& agg.tables@[i].kind == orig.tables@[i].kind
                } by {
                    lemma_records_step(
                        orig.tables@[i].records,
                        ps@.take(j as int),
                        before.tables@[i].records,
                        p,
                        agg.tables@[i].records,
                        d.tables@[i].records,
                    );
                }
            }
            out.push(d);
            j = j + 1;
        }
        out
    }
}

proof fn lemma_remaining_records_none(a: AggregateRecords, ps: Seq<AggregateParameter>)
    requires
        ps.len() == 0,
    ensures
        remaining_records(a, ps, a),
{
    match a {
        AggregateRecords::Celsius(v) => crate::normalize::lemma_remaining_none(v@, ps),
        AggregateRecords::CelsiusWithDate(v) => crate::normalize::lemma_remaining_none(v@, ps),
        AggregateRecords::Days(v) => crate::normalize::lemma_remaining_none(v@, ps),
        AggregateRecords::Mm(v) => crate::normalize::lemma_remaining_none(v@, ps),
        AggregateRecords::MmWithDate(v) => crate::normalize::lemma_remaining_none(v@, ps),
        AggregateRecords::Percentage(v) => crate::normalize::lemma_remaining_none(v@, ps),
        AggregateRecords::TenthsOfHectoPascal(v) => crate::normalize::lemma_remaining_none(v@, ps),
        AggregateRecords::TenthsOfHectoPascalWithDate(v) => {
            crate::normalize::lemma_remaining_none(v@, ps)
        },
        AggregateRecords::Hours(v) => crate::normalize::lemma_remaining_none(v@, ps),
        AggregateRecords::TenthsOfMm(v) => crate::normalize::lemma_remaining_none(v@, ps),
        AggregateRecords::Kilometers(v) => crate::normalize::lemma_remaining_none(v@, ps),
        AggregateRecords::KilometersPerHour(v) => crate::normalize::lemma_remaining_none(v@, ps),
    }
}

/// Whether `b` is `a` with its aggregates dropped.
pub open spec fn without_aggregate(a: YearlyData, b: YearlyData) -> bool {
    &&& b.year == a.year
    &&& b.is_aggregate == a.is_aggregate
    &&& b.stations == a.stations
    &&& b.tables == a.tables
    &&& is_empty_aggregate(b.aggregate)
}

/// Whether the datasets `r` derive, at index `data.len() + 8 k + j`, the
/// dataset of the `j`th normalized parameter from the aggregates of `data[k]`.
pub open spec fn normalized_slot(
    data: Seq<YearlyData>,
    r: Seq<YearlyData>,
    k: int,
    j: int,
) -> bool {
    normalized_from(
        data[k].aggregate,
        data[k].year@,
        normalized_parameters()[j],
        r[data.len() + normalized_parameters().len() * k + j],
    )
}

impl YearlyData {
    /// Completes the datasets read from the data directory as `aggregate_data`
    /// asks. With `No`, the aggregates are dropped; with `Full`, the datasets
    /// are returned as they are; with `Normalize`, each dataset comes first
    /// without its aggregates, and after all of them come, dataset by dataset,
    /// the datasets that its aggregates give for each normalized parameter.
    pub fn all_from_manifest_dir(
        data: Vec<YearlyData>,
        aggregate_data: AggregateDataProcessing,
    ) -> (r: Vec<YearlyData>)
        ensures
            aggregate_data == AggregateDataProcessing::Full ==> r == data,
            aggregate_data != AggregateDataProcessing::Full ==> {
                &&& forall|i: int| 0 <= i < data@.len() ==> without_aggregate(data@[i], #[trigger] r@[i])
            },
            aggregate_data == AggregateDataProcessing::No ==> r@.len() == data@.len(),
            aggregate_data == AggregateDataProcessing::Normalize ==> {
                &&& r@.len() == data@.len() * (1 + normalized_parameters().len())
                &&& forall|k: int, j: int|
                    0 <= k < data@.len() && 0 <= j < normalized_parameters().len()
                        ==> #[trigger] normalized_slot(data@, r@, k, j)
            },
    {
        if aggregate_data == AggregateDataProcessing::Full {
            return data;
        }
        let ghost orig = data@;
        let n = data.len();
        let mut pending = data;
        let mut firsts: Vec<YearlyData> = Vec::new();
        let mut extra: Vec<YearlyData> = Vec::new();
        let mut k: usize = 0;
        while k < n
            invariant
                n == orig.len(),
                k <= n,
                pending@ == orig.skip(k as int),
                firsts@.len() == k,
                forall|i: int| 0 <= i < k ==> without_aggregate(orig[i], #[trigger] firsts@[i]),
                aggregate_data == AggregateDataProcessing::No ==> extra@.len() == 0,
                aggregate_data == AggregateDataProcessing::Normalize ==> extra@.len() == 8 * k,
                aggregate_data == AggregateDataProcessing::Normalize ==> forall|i: int, j: int|
                    0 <= i < k && 0 <= j < 8 ==> normalized_from(
                        orig[i].aggregate,
                        orig[i].year@,
                        normalized_parameters()[j],
                        #[trigger] extra@[8 * i + j],
                    ),
            decreases n - k,
        {
            assert(pending@[0] == orig[k as int]);
            let mut d = pending.remove(0);
            assert(pending@ =~= orig.skip(k + 1));
            let mut agg = AggregateData::empty();
            std::mem::swap(&mut d.aggregate, &mut agg);
            if aggregate_data == AggregateDataProcessing::Normalize {
                let mut outs = agg.normalize(&d.year);
                let ghost before = extra@;
                extra.append(&mut outs);
                proof {
                    assert forall|i: int, j: int|
                        0 <= i < k + 1 && 0 <= j < 8 implies normalized_from(
                        orig[i].aggregate,
                        orig[i].year@,
                        normalized_parameters()[j],
                        #[trigger] extra@[8 * i + j],
                    ) by {
                        if i < k {
                            assert(8 * i + j < 8 * k) by (nonlinear_arith)
                                requires
                                    i < k,
                                    0 <= j < 8,
                            ;
                            assert(extra@[8 * i + j] == before[8 * i + j]);
                        } else {
                            assert(extra@[8 * i + j] == extra@[8 * k + j]);
                        }
                    }
                }
            }
            firsts.push(d);
            k = k + 1;
        }
        let ghost heads = firsts@;
        let ghost tail = extra@;
        firsts.append(&mut extra);
        proof {
            assert(normalized_parameters().len() == 8);
            if aggregate_data == AggregateDataProcessing::Normalize {
                assert(n + 8 * n == n * (1 + 8)) by (nonlinear_arith);
                assert forall|i: int, j: int|
                    0 <= i < n && 0 <= j < 8 implies #[trigger] normalized_slot(orig, firsts@, i, j) by {
                    assert(0 <= 8 * i + j < 8 * n) by (nonlinear_arith)
                        requires
                            0 <= i < n,
                            0 <= j < 8,
                    ;
                    assert(firsts@[n + 8 * i + j] == tail[8 * i + j]);
                }
            }
            assert forall|i: int| 0 <= i < n implies without_aggregate(orig[i], #[trigger] firsts@[i]) by {
                assert(firsts@[i] == heads[i]);
            }
        }
        firsts
    }
}

/// The first year of the reference period of the aggregate tables.
pub const AGGREGATE_FROM_YEAR: u32 = 1981;

/// The last year of the reference period of the aggregate tables.
pub const AGGREGATE_TO_YEAR: u32 = 2010;

/// Why the tables of a year could not be read.
#[derive(Debug, Clone, Copy, PartialEq, Eq, Structural)]
pub enum LoadError {
    /// The table of stations.
    Stations(TableError),
    /// The monthly table of a kind.
    Monthly(RecordKind, TableError),
    /// The aggregate table of a kind.
    Aggregate(RecordKind, TableError),
}

/// Whether the bytes read as a table of station records of the kind.
pub open spec fn yearly_ok(k: RecordKind, bytes: Seq<u8>) -> bool {
    exists|v: YearlyRecords| yearly_read(kind_payload(k), bytes, Ok(v))
}

/// Whether the bytes read as a table of aggregate records of the kind.
pub open spec fn aggregate_ok(k: RecordKind, bytes: Seq<u8>) -> bool {
    exists|v: AggregateRecords| aggregate_read(kind_payload(k), bytes, Ok(v))
}

/// Whether `r` is what reading the tables `files`, one per kind in the order
/// of `all_kinds`, as station records gives: the tables, or the error of the
/// first one that fails.
pub open spec fn monthly_read(files: Seq<Vec<u8>>, r: Result<Vec<YearlyTable>, LoadError>) -> bool {
    match r {
        Ok(v) => {
            &&& v@.len() == files.len()
            &&& forall|i: int|
                0 <= i < files.len() ==> (#[trigger] v@[i]).kind == all_kinds()[i] && yearly_read(
                    kind_payload(all_kinds()[i]),
                    files[i]@,
                    Ok(v@[i].records),
                )
        },
        Err(LoadError::Monthly(k, e)) => exists|i: int|
            0 <= i < files.len() && #[trigger] all_kinds()[i] == k && yearly_read(
                kind_payload(k),
                files[i]@,
                Err(e),
            ) && forall|j: int| 0 <= j < i ==> yearly_ok(all_kinds()[j], #[trigger] files[j]@),
        Err(_) => false,
    }
}

/// Whether `r` is what reading the tables `files`, one per kind in the order
/// of `all_kinds`, as aggregate records gives: the tables, or the error of the
/// first one that fails.
pub open spec fn aggregates_read(
    files: Seq<Vec<u8>>,
    r: Result<Vec<AggregateTable>, LoadError>,
) -> bool {
    match r {
        Ok(v) => {
            &&& v@.len() == files.len()
            &&& forall|i: int|
                0 <= i < files.len() ==> (#[trigger] v@[i]).kind == all_kinds()[i] && aggregate_read(
                    kind_payload(all_kinds()[i]),
                    files[i]@,
                    Ok(v@[i].records),
                )
        },
        Err(LoadError::Aggregate(k, e)) => exists|i: int|
            0 <= i < files.len() && #[trigger] all_kinds()[i] == k && aggregate_read(
                kind_payload(k),
                files[i]@,
                Err(e),
            ) && forall|j: int| 0 <= j < i ==> aggregate_ok(all_kinds()[j], #[trigger] files[j]@),
        Err(_) => false,
    }
}

/// Reads one monthly table per kind, in the order of `all_kinds`.
pub fn read_monthly_tables(files: &Vec<Vec<u8>>) -> (r: Result<Vec<YearlyTable>, LoadError>)
    requires
        files@.len() == all_kinds().len(),
    ensures
        monthly_read(files@, r),
{
    let kinds = RecordKind::all();
    let mut out: Vec<YearlyTable> = Vec::new();
    let mut i: usize = 0;
    while i < files.len()
        invariant
            kinds@ == all_kinds(),
            files@.len() == all_kinds().len(),
            i <= files@.len(),
            out@.len() == i,
            forall|k: int|
                0 <= k < i ==> (#[trigger] out@[k]).kind == all_kinds()[k] && yearly_read(
                    kind_payload(all_kinds()[k]),
                    files@[k]@,
                    Ok(out@[k].records),
                ),
        decreases files@.len() - i,
    {
        let kind = kinds[i];
        match read_yearly_records(kind, files[i].as_slice()) {
            Ok(records) => {
                out.push(YearlyTable { kind, records });
            },
            Err(e) => {
                let r = Err(LoadError::Monthly(kind, e));
                assert(monthly_read(files@, r)) by {
                    assert forall|j: int| 0 <= j < i implies yearly_ok(all_kinds()[j], #[trigger] files@[j]@) by {
                        assert(yearly_read(kind_payload(all_kinds()[j]), files@[j]@, Ok(out@[j].records)));
                    }
                    assert(all_kinds()[i as int] == kind);
                }
                return r;
            },
        }
        i = i + 1;
    }
    Ok(out)
}

/// Reads one aggregate table per kind, in the order of `all_kinds`.
pub fn read_aggregate_tables(files: &Vec<Vec<u8>>) -> (r: Result<Vec<AggregateTable>, LoadError>)
    requires
        files@.len() == all_kinds().len(),
    ensures
        aggregates_read(files@, r),
{
    let kinds = RecordKind::all();
    let mut out: Vec<AggregateTable> = Vec::new();
    let mut i: usize = 0;
    while i < files.len()
        invariant
            kinds@ == all_kinds(),
            files@.len() == all_kinds().len(),
            i <= files@.len(),
            out@.len() == i,
            forall|k: int|
                0 <= k < i ==> (#[trigger] out@[k]).kind == all_kinds()[k] && aggregate_read(
                    kind_payload(all_kinds()[k]),
                    files@[k]@,
                    Ok(out@[k].records),
                ),
        decreases files@.len() - i,
    {
        let kind = kinds[i];
        match read_aggregate_records(kind, files[i].as_slice()) {
            Ok(records) => {
                out.push(AggregateTable { kind, records });
            },
            Err(e) => {
                let r = Err(LoadError::Aggregate(kind, e));
                assert(aggregates_read(files@, r)) by {
                    assert forall|j: int| 0 <= j < i implies aggregate_ok(all_kinds()[j], #[trigger] files@[j]@) by {
                        assert(aggregate_read(kind_payload(all_kinds()[j]), files@[j]@, Ok(out@[j].records)));
                    }
                    assert(all_kinds()[i as int] == kind);
                }
                return r;
            },
        }
        i = i + 1;
    }
    Ok(out)
}

impl YearlyData {
    /// The dataset of a year from the bytes of its tables: the stations, one
    /// monthly table per kind in the order of `all_kinds`, and where given, one
    /// aggregate table per kind over the reference period. Reading stops at the
    /// first table that fails, in that order.
    pub fn from_csv(
        year: u32,
        stations: &[u8],
        monthly: &Vec<Vec<u8>>,
        aggregates: Option<&Vec<Vec<u8>>>,
    ) -> (r: Result<YearlyData, LoadError>)
        requires
            monthly@.len() == all_kinds().len(),
            aggregates is Some ==> aggregates->Some_0@.len() == all_kinds().len(),
        ensures
            match r {
                Ok(d) => {
                    &&& d.year@ == nat_text(year as nat)
                    &&& d.is_aggregate is None
                    &&& read_as::<Station>(stations@, Ok(d.stations))
                    &&& monthly_read(monthly@, Ok(d.tables))
                    &&& match aggregates {
                        Some(files) => {
                            &&& d.aggregate.from_year == AGGREGATE_FROM_YEAR
                            &&& d.aggregate.to_year == AGGREGATE_TO_YEAR
                            &&& aggregates_read(files@, Ok(d.aggregate.tables))
                        },
                        None => is_empty_aggregate(d.aggregate),
                    }
                },
                Err(LoadError::Stations(e)) => read_as::<Station>(stations@, Err(e)),
                Err(LoadError::Monthly(k, e)) => {
                    &&& exists|v: Vec<Station>| read_as::<Station>(stations@, Ok(v))
                    &&& monthly_read(monthly@, Err(LoadError::Monthly(k, e)))
                },
                Err(LoadError::Aggregate(k, e)) => {
                    &&& exists|v: Vec<Station>| read_as::<Station>(stations@, Ok(v))
                    &&& exists|v: Vec<YearlyTable>| monthly_read(monthly@, Ok(v))
                    &&& aggregates is Some
                    &&& aggregates_read(aggregates->Some_0@, Err(LoadError::Aggregate(k, e)))
                },
            },
    {
        let station_list = match read_records::<Station>(stations) {
            Ok(v) => v,
            Err(e) => return Err(LoadError::Stations(e)),
        };
        let tables = match read_monthly_tables(monthly) {
            Ok(t) => t,
            Err(e) => return Err(e),
        };
        let aggregate = match aggregates {
            Some(files) => match read_aggregate_tables(files) {
                Ok(t) => AggregateData {
                    from_year: AGGREGATE_FROM_YEAR,
                    to_year: AGGREGATE_TO_YEAR,
                    tables: t,
                },
                Err(e) => return Err(e),
            },
            None => AggregateData::empty(),
        };
        let mut label = String::new();
        push_decimal(&mut label, year);
        assert(label@ =~= nat_text(year as nat));
        Ok(YearlyData { year: label, is_aggregate: None, stations: station_list, tables, aggregate })
    }
}

} // verus!
