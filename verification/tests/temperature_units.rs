use data_harvester::config::TemperatureType;
use data_harvester::temperature::{convert, read_temperatures, TempHarvest, TempSample};

#[test]
fn celsius_is_kept() {
    assert_eq!(convert(TemperatureType::Celsius, 42_500), 42_500);
    assert_eq!(convert(TemperatureType::Celsius, -10_000), -10_000);
    assert_eq!(convert(TemperatureType::Celsius, i32::MIN), i32::MIN as i64);
}

#[test]
fn kelvin_is_shifted() {
    assert_eq!(convert(TemperatureType::Kelvin, 0), 273_150);
    assert_eq!(convert(TemperatureType::Kelvin, -273_150), 0);
    assert_eq!(convert(TemperatureType::Kelvin, 100_000), 373_150);
    assert_eq!(convert(TemperatureType::Kelvin, i32::MAX), i32::MAX as i64 + 273_150);
}

#[test]
fn fahrenheit_is_scaled_and_shifted() {
    assert_eq!(convert(TemperatureType::Fahrenheit, 0), 32_000);
    assert_eq!(convert(TemperatureType::Fahrenheit, 100_000), 212_000);
    assert_eq!(convert(TemperatureType::Fahrenheit, -40_000), -40_000);
    assert_eq!(convert(TemperatureType::Fahrenheit, 37_000), 98_600);
}

#[test]
fn fahrenheit_rounds_down() {
    assert_eq!(convert(TemperatureType::Fahrenheit, 1), 32_001);
    assert_eq!(convert(TemperatureType::Fahrenheit, 2), 32_003);
    assert_eq!(convert(TemperatureType::Fahrenheit, 3), 32_005);
    assert_eq!(convert(TemperatureType::Fahrenheit, -1), 31_998);
    assert_eq!(convert(TemperatureType::Fahrenheit, -2), 31_996);
    assert_eq!(convert(TemperatureType::Fahrenheit, -5), 31_991);
    assert_eq!(convert(TemperatureType::Fahrenheit, i32::MAX), 3_865_470_564 + 32_000);
    assert_eq!(convert(TemperatureType::Fahrenheit, i32::MIN), -3_865_470_567 + 32_000);
}

#[test]
fn every_sensor_is_converted_in_order() {
    let samples = vec![
        TempSample { name: "cpu".to_string(), millicelsius: 50_000 },
        TempSample { name: "gpu".to_string(), millicelsius: -5_000 },
    ];
    assert_eq!(
        read_temperatures(TemperatureType::Kelvin, &samples),
        vec![
            TempHarvest { name: "cpu".to_string(), temperature: 323_150 },
            TempHarvest { name: "gpu".to_string(), temperature: 268_150 },
        ]
    );
    assert_eq!(read_temperatures(TemperatureType::Fahrenheit, &vec![]), vec![]);
}
