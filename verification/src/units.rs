//! The unit-conversion command's decisions: recognising a unit name,
//! checking that two units belong to the same family, and resolving both to
//! their places in the conversion tables.  The tables themselves hold
//! floating-point factors and live with the caller; everything decided here
//! is exact.

use vstd::prelude::*;

use crate::text::{ascii_lower, str_eq_lowered};

verus! {

/// A velocity unit.
#[derive(Clone, Copy, Debug, PartialEq, Eq, Structural)]
pub enum VelocityType {
    /// Kilometres per hour.
    KilometersPerHour,
    /// Miles per hour.
    MilesPerHour,
    /// Metres per second.
    MetersPerSecond,
    /// Feet per second.
    FeetPerSecond,
}

/// A distance unit.
#[derive(Clone, Copy, Debug, PartialEq, Eq, Structural)]
pub enum DistanceType {
    /// A kilometre.
    Kilometer,
    /// A metre.
    Meter,
    /// A centimetre.
    Centimeter,
    /// A millimetre.
    Millimeter,
    /// A mile.
    Mile,
    /// A foot.
    Foot,
    /// A yard.
    Yard,
    /// An inch.
    Inch,
}

/// A temperature unit.
#[derive(Clone, Copy, Debug, PartialEq, Eq, Structural)]
pub enum TemperatureType {
    /// Degrees Celsius.
    Celsius,
    /// Kelvin.
    Kelvin,
    /// Degrees Fahrenheit.
    Fahrenheit,
}

/// A recognised unit: one of the three families, with its member.
#[derive(Clone, Copy, Debug, PartialEq, Eq, Structural)]
pub enum Unit {
    /// A velocity unit.
    Velocity(VelocityType),
    /// A distance unit.
    Distance(DistanceType),
    /// A temperature unit.
    Temperature(TemperatureType),
}

/// The row or column of a velocity unit in the velocity table.
pub open spec fn velocity_index(t: VelocityType) -> int {
    match t {
        VelocityType::KilometersPerHour => 0,
        VelocityType::MilesPerHour => 1,
        VelocityType::MetersPerSecond => 2,
        VelocityType::FeetPerSecond => 3,
    }
}

/// The row or column of a distance unit in the distance table.
pub open spec fn distance_index(t: DistanceType) -> int {
    match t {
        DistanceType::Kilometer => 0,
        DistanceType::Meter => 1,
        DistanceType::Centimeter => 2,
        DistanceType::Millimeter => 3,
        DistanceType::Mile => 4,
        DistanceType::Foot => 5,
        DistanceType::Yard => 6,
        DistanceType::Inch => 7,
    }
}

/// The row or column of a temperature unit in the temperature table.
pub open spec fn temperature_index(t: TemperatureType) -> int {
    match t {
        TemperatureType::Celsius => 0,
        TemperatureType::Kelvin => 1,
        TemperatureType::Fahrenheit => 2,
    }
}

/// The unit a name denotes, after ASCII lower-casing, or nothing for an
/// unknown name.
pub open spec fn unit_for(s: Seq<char>) -> Option<Unit> {
    let l = ascii_lower(s);
    if l == "kmh"@ || l == "km/h"@ {
        Some(Unit::Velocity(VelocityType::KilometersPerHour))
    } else if l == "ms"@ || l == "m/s"@ {
        Some(Unit::Velocity(VelocityType::MetersPerSecond))
    } else if l == "mph"@ || l == "m/h"@ {
        Some(Unit::Velocity(VelocityType::MilesPerHour))
    } else if l == "fts"@ || l == "ft/s"@ {
        Some(Unit::Velocity(VelocityType::FeetPerSecond))
    } else if l == "km"@ {
        Some(Unit::Distance(DistanceType::Kilometer))
    } else if l == "m"@ {
        Some(Unit::Distance(DistanceType::Meter))
    } else if l == "cm"@ {
        Some(Unit::Distance(DistanceType::Centimeter))
    } else if l == "mm"@ {
        Some(Unit::Distance(DistanceType::Millimeter))
    } else if l == "mi"@ {
        Some(Unit::Distance(DistanceType::Mile))
    } else if l == "ft"@ {
        Some(Unit::Distance(DistanceType::Foot))
    } else if l == "yd"@ {
        Some(Unit::Distance(DistanceType::Yard))
    } else if l == "in"@ || l == "inch"@ || l == "inches"@ {
        Some(Unit::Distance(DistanceType::Inch))
    } else if l == "c"@ || l == "°c"@ {
        Some(Unit::Temperature(TemperatureType::Celsius))
    } else if l == "k"@ {
        Some(Unit::Temperature(TemperatureType::Kelvin))
    } else if l == "f"@ || l == "°f"@ {
        Some(Unit::Temperature(TemperatureType::Fahrenheit))
    } else {
        None
    }
}

/// Recognises the unit a name denotes, case-insensitively for ASCII
/// letters.
pub fn get_unit(unit_string: &str) -> (r: Option<Unit>)
    ensures
        r == unit_for(unit_string@),
{
    if str_eq_lowered(unit_string, "kmh") || str_eq_lowered(unit_string, "km/h") {
        Some(Unit::Velocity(VelocityType::KilometersPerHour))
    } else if str_eq_lowered(unit_string, "ms") || str_eq_lowered(unit_string, "m/s") {
        Some(Unit::Velocity(VelocityType::MetersPerSecond))
    } else if str_eq_lowered(unit_string, "mph") || str_eq_lowered(unit_string, "m/h") {
        Some(Unit::Velocity(VelocityType::MilesPerHour))
    } else if str_eq_lowered(unit_string, "fts") || str_eq_lowered(unit_string, "ft/s") {
        Some(Unit::Velocity(VelocityType::FeetPerSecond))
    } else if str_eq_lowered(unit_string, "km") {
        Some(Unit::Distance(DistanceType::Kilometer))
    } else if str_eq_lowered(unit_string, "m") {
        Some(Unit::Distance(DistanceType::Meter))
    } else if str_eq_lowered(unit_string, "cm") {
        Some(Unit::Distance(DistanceType::Centimeter))
    } else if str_eq_lowered(unit_string, "mm") {
        Some(Unit::Distance(DistanceType::Millimeter))
    } else if str_eq_lowered(unit_string, "mi") {
        Some(Unit::Distance(DistanceType::Mile))
    } else if str_eq_lowered(unit_string, "ft") {
        Some(Unit::Distance(DistanceType::Foot))
    } else if str_eq_lowered(unit_string, "yd") {
        Some(Unit::Distance(DistanceType::Yard))
    } else if str_eq_lowered(unit_string, "in") || str_eq_lowered(unit_string, "inch")
        || str_eq_lowered(unit_string, "inches") {
        Some(Unit::Distance(DistanceType::Inch))
    } else if str_eq_lowered(unit_string, "c") || str_eq_lowered(unit_string, "°c") {
        Some(Unit::Temperature(TemperatureType::Celsius))
    } else if str_eq_lowered(unit_string, "k") {
        Some(Unit::Temperature(TemperatureType::Kelvin))
    } else if str_eq_lowered(unit_string, "f") || str_eq_lowered(unit_string, "°f") {
        Some(Unit::Temperature(TemperatureType::Fahrenheit))
    } else {
        None
    }
}

/// Why a conversion cannot be planned.
#[derive(Clone, Copy, Debug, PartialEq, Eq, Structural)]
pub enum ConversionError {
    /// The source unit name is not recognised.
    InvalidSource,
    /// The destination unit name is not recognised.
    InvalidDestination,
    /// The two units belong to different families.
    UnrelatedUnits,
}

/// Which of the three conversion tables a planned conversion uses.
#[derive(Clone, Copy, Debug, PartialEq, Eq, Structural)]
pub enum UnitKind {
    /// The velocity table.
    Velocity,
    /// The distance table.
    Distance,
    /// The temperature table.
    Temperature,
}

/// A planned conversion: the table to use and the places of the source and
/// destination units in it.
#[derive(Clone, Copy, Debug, PartialEq, Eq, Structural)]
pub struct ConversionPlan {
    /// The table to use.
    pub kind: UnitKind,
    /// The source unit's row.
    pub source_index: usize,
    /// The destination unit's column.
    pub dest_index: usize,
}

/// The conversion two unit names ask for: rejected when either name is
/// unknown or the units are of different families, resolved to table
/// places otherwise.
pub open spec fn conversion_plan(source: Seq<char>, dest: Seq<char>) -> Result<
    ConversionPlan,
    ConversionError,
> {
    match unit_for(source) {
        None => Err(ConversionError::InvalidSource),
        Some(source_unit) => match unit_for(dest) {
            None => Err(ConversionError::InvalidDestination),
            Some(dest_unit) => match (source_unit, dest_unit) {
                (Unit::Velocity(a), Unit::Velocity(b)) => Ok(
                    ConversionPlan {
                        kind: UnitKind::Velocity,
                        source_index: velocity_index(a) as usize,
                        dest_index: velocity_index(b) as usize,
                    },
                ),
                (Unit::Distance(a), Unit::Distance(b)) => Ok(
                    ConversionPlan {
                        kind: UnitKind::Distance,
                        source_index: distance_index(a) as usize,
                        dest_index: distance_index(b) as usize,
                    },
                ),
                (Unit::Temperature(a), Unit::Temperature(b)) => Ok(
                    ConversionPlan {
                        kind: UnitKind::Temperature,
                        source_index: temperature_index(a) as usize,
                        dest_index: temperature_index(b) as usize,
                    },
                ),
                _ => Err(ConversionError::UnrelatedUnits),
            },
        },
    }
}

/// Plans the conversion two unit names ask for: rejects an unknown source
/// or destination name, rejects units of different families, and resolves
/// related units to their places in the family's table.
pub fn plan_conversion(source_unit_str: &str, dest_unit_str: &str) -> (r: Result<
    ConversionPlan,
    ConversionError,
>)
    ensures
        r == conversion_plan(source_unit_str@, dest_unit_str@),
{
    let source_unit = match get_unit(source_unit_str) {
        Some(unit) => unit,
        None => {
            return Err(ConversionError::InvalidSource);
        },
    };
    let dest_unit = match get_unit(dest_unit_str) {
        Some(unit) => unit,
        None => {
            return Err(ConversionError::InvalidDestination);
        },
    };
    match (source_unit, dest_unit) {
        (Unit::Velocity(a), Unit::Velocity(b)) => Ok(
            ConversionPlan {
                kind: UnitKind::Velocity,
                source_index: velocity_table_index(a),
                dest_index: velocity_table_index(b),
            },
        ),
        (Unit::Distance(a), Unit::Distance(b)) => Ok(
            ConversionPlan {
                kind: UnitKind::Distance,
                source_index: distance_table_index(a),
                dest_index: distance_table_index(b),
            },
        ),
        (Unit::Temperature(a), Unit::Temperature(b)) => Ok(
            ConversionPlan {
                kind: UnitKind::Temperature,
                source_index: temperature_table_index(a),
                dest_index: temperature_table_index(b),
            },
        ),
        _ => Err(ConversionError::UnrelatedUnits),
    }
}

/// Resolves a velocity unit to its place in the velocity table.
pub fn velocity_table_index(t: VelocityType) -> (r: usize)
    ensures
        r == velocity_index(t),
{
    match t {
        VelocityType::KilometersPerHour => 0,
        VelocityType::MilesPerHour => 1,
        VelocityType::MetersPerSecond => 2,
        VelocityType::FeetPerSecond => 3,
    }
}

/// Resolves a distance unit to its place in the distance table.
pub fn distance_table_index(t: DistanceType) -> (r: usize)
    ensures
        r == distance_index(t),
{
    match t {
        DistanceType::Kilometer => 0,
        DistanceType::Meter => 1,
        DistanceType::Centimeter => 2,
        DistanceType::Millimeter => 3,
        DistanceType::Mile => 4,
        DistanceType::Foot => 5,
        DistanceType::Yard => 6,
        DistanceType::Inch => 7,
    }
}

/// Resolves a temperature unit to its place in the temperature table.
pub fn temperature_table_index(t: TemperatureType) -> (r: usize)
    ensures
        r == temperature_index(t),
{
    match t {
        TemperatureType::Celsius => 0,
        TemperatureType::Kelvin => 1,
        TemperatureType::Fahrenheit => 2,
    }
}

} // verus!
