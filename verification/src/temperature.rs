//! Temperature readings in the configured unit.

use crate::config::TemperatureType;
use crate::text::{
    decimal_of, fields_of, lemma_fields_are_words, parse_decimal, parse_decimal_from, split_fields,
    tail, views,
};
use vstd::prelude::*;

verus! {

/// What the temperature probe reads for one sensor: its label and its
/// temperature in thousandths of a degree Celsius.
#[derive(Clone, Debug, PartialEq, Eq)]
pub struct TempSample {
    pub name: String,
    pub millicelsius: i32,
}

/// The reading of one sensor: its label and its temperature in thousandths
/// of a degree of the configured unit.
#[derive(Clone, Debug, PartialEq, Eq)]
pub struct TempHarvest {
    pub name: String,
    pub temperature: i64,
}

/// `millicelsius` expressed in thousandths of a degree of `unit`. A
/// Fahrenheit value that is not whole is rounded down.
pub open spec fn in_unit(unit: TemperatureType, millicelsius: i32) -> i64 {
    match unit {
        TemperatureType::Celsius => millicelsius as i64,
        TemperatureType::Kelvin => (millicelsius + 273_150) as i64,
        TemperatureType::Fahrenheit => ((millicelsius * 9) / 5 + 32_000) as i64,
    }
}

/// Expresses a temperature in thousandths of a degree of `unit`.
pub fn convert(unit: TemperatureType, millicelsius: i32) -> (converted: i64)
    ensures
        converted == in_unit(unit, millicelsius),
{
    let celsius: i64 = millicelsius as i64;
    match unit {
        TemperatureType::Celsius => celsius,
        TemperatureType::Kelvin => celsius + 273_150,
        TemperatureType::Fahrenheit => {
            let ninefold: i64 = celsius * 9;
            let fifth: i64 = if ninefold >= 0 {
                ninefold / 5
            } else {
                -((4 - ninefold) / 5)
            };
            fifth + 32_000
        },
    }
}

/// The temperature that a sensor's kernel file holds, in thousandths of a
/// degree Celsius: the file's one and only field, a decimal with or
/// without a minus sign before it, that fits in an `i32`.
pub open spec fn millicelsius_of(text: Seq<u8>) -> Option<i32> {
    let fields = fields_of(text);
    if fields.len() != 1 {
        None
    } else if fields[0].len() > 0 && fields[0][0] == 45 {
        match decimal_of(fields[0].skip(1)) {
            Some(below) => if below <= 0x8000_0000 {
                Some((-below) as i32)
            } else {
                None
            },
            None => None,
        }
    } else {
        match decimal_of(fields[0]) {
            Some(above) => if above <= i32::MAX {
                Some(above as i32)
            } else {
                None
            },
            None => None,
        }
    }
}

/// Reads the temperature out of a sensor's kernel file.
pub fn parse_millicelsius(bytes: &[u8]) -> (temperature: Option<i32>)
    ensures
        temperature == millicelsius_of(bytes@),
{
    proof {
        assert(tail(bytes@, 0) =~= bytes@);
        lemma_fields_are_words(bytes@);
    }
    let fields = split_fields(bytes, 0);
    if fields.len() != 1 {
        return None;
    }
    let field = fields[0].as_slice();
    assert(field@ == views(fields@)[0]);
    assert(field@.len() > 0);
    if field[0] == 45 {
        match parse_decimal_from(field, 1) {
            Some(below) => if below <= 0x8000_0000 {
                Some((-(below as i64)) as i32)
            } else {
                None
            },
            None => None,
        }
    } else {
        match parse_decimal(field) {
            Some(above) => if above <= 0x7fff_ffff {
                Some(above as i32)
            } else {
                None
            },
            None => None,
        }
    }
}

/// The reading of one sensor.
pub open spec fn temp_reading(unit: TemperatureType, sample: TempSample) -> TempHarvest {
    TempHarvest { name: sample.name, temperature: in_unit(unit, sample.millicelsius) }
}

/// The readings of all sensors of a sample, in the sample's order.
pub open spec fn temp_readings(unit: TemperatureType, samples: Seq<TempSample>) -> Seq<
    TempHarvest,
> {
    Seq::new(samples.len(), |i: int| temp_reading(unit, samples[i]))
}

/// The readings that a cycle's temperature probe leads to; absent where the
/// probe gave no sample.
pub open spec fn temp_readings_of(
    unit: TemperatureType,
    samples: Option<Vec<TempSample>>,
) -> Option<Seq<TempHarvest>> {
    match samples {
        Some(samples) => Some(temp_readings(unit, samples@)),
        None => None,
    }
}

/// Computes the readings of all sensors of a sample.
pub fn read_temperatures(unit: TemperatureType, samples: &Vec<TempSample>) -> (harvest: Vec<
    TempHarvest,
>)
    ensures
        harvest@ == temp_readings(unit, samples@),
{
    let mut harvest: Vec<TempHarvest> = Vec::new();
    let mut i: usize = 0;
    while i < samples.len()
        invariant
            i <= samples.len(),
            harvest@.len() == i,
            forall|j: int| 0 <= j < i ==> harvest@[j] == temp_reading(unit, samples@[j]),
        decreases samples.len() - i,
    {
        let sample = &samples[i];
        harvest.push(
            TempHarvest {
                name: sample.name.clone(),
                temperature: convert(unit, sample.millicelsius),
            },
        );
        i = i + 1;
    }
    assert(harvest@ =~= temp_readings(unit, samples@));
    harvest
}

} // verus!
