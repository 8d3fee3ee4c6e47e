use lps22::{decode_pressure, decode_temperature};

#[test]
fn it_works() {
    assert_eq!(2 + 2, 4);
}

#[test]
fn temperature_zero() {
    let raw = decode_temperature([0x00, 0x00]);
    assert_eq!(raw, 0);
    assert_eq!(f64::from(raw) / 100.0, 0.0);
}

#[test]
fn temperature_minus_one_hundredth() {
    let raw = decode_temperature([0xFF, 0xFF]);
    assert_eq!(raw, -1);
    assert_eq!(f64::from(raw) / 100.0, -0.01);
}

#[test]
fn temperature_one_degree() {
    let raw = decode_temperature([0x64, 0x00]);
    assert_eq!(raw, 100);
    assert_eq!(f64::from(raw) / 100.0, 1.0);
}

#[test]
fn temperature_low_byte_comes_first() {
    assert_eq!(decode_temperature([0x01, 0x00]), 1);
    assert_eq!(decode_temperature([0x00, 0x01]), 256);
    assert_eq!(decode_temperature([0x34, 0x12]), 0x1234);
}

#[test]
fn temperature_extremes() {
    assert_eq!(decode_temperature([0xFF, 0x7F]), i16::MAX);
    assert_eq!(decode_temperature([0x00, 0x80]), i16::MIN);
    assert_eq!(decode_temperature([0xFF, 0x00]), 255);
    assert_eq!(decode_temperature([0x00, 0xFF]), -256);
}

#[test]
fn temperature_round_trips_for_every_group() {
    for high in 0..=255u8 {
        for low in 0..=255u8 {
            let temperature = decode_temperature([low, high]);
            assert_eq!(temperature, i16::from_le_bytes([low, high]));
            assert_eq!(temperature.to_le_bytes(), [low, high]);
        }
    }
}

#[test]
fn temperature_reaches_every_value() {
    for temperature in i16::MIN..=i16::MAX {
        assert_eq!(decode_temperature(temperature.to_le_bytes()), temperature);
    }
}

#[test]
fn pressure_one_hectopascal() {
    let raw = decode_pressure([0x00, 0x10, 0x00]);
    assert_eq!(raw, 4096);
    assert_eq!(f64::from(raw) / 4096.0, 1.0);
}

#[test]
fn pressure_sixteen_hectopascal() {
    let raw = decode_pressure([0x00, 0x00, 0x01]);
    assert_eq!(raw, 65536);
    assert_eq!(f64::from(raw) / 4096.0, 16.0);
}

#[test]
fn pressure_low_byte_comes_first() {
    assert_eq!(decode_pressure([0x01, 0x00, 0x00]), 1);
    assert_eq!(decode_pressure([0x00, 0x01, 0x00]), 256);
    assert_eq!(decode_pressure([0x56, 0x34, 0x12]), 0x123456);
}

#[test]
fn pressure_is_never_negative() {
    assert_eq!(decode_pressure([0x00, 0x00, 0x00]), 0);
    assert_eq!(decode_pressure([0x00, 0x00, 0x80]), 0x80_0000);
    assert_eq!(decode_pressure([0xFF, 0xFF, 0xFF]), 0xFF_FFFF);
}

#[test]
fn pressure_is_the_weighted_sum_of_its_bytes() {
    for high in 0..=255u8 {
        for middle in 0..=255u8 {
            for low in 0..=255u8 {
                let expected = u32::from(low) + 256 * u32::from(middle) + 65536 * u32::from(high);
                assert_eq!(decode_pressure([low, middle, high]), expected);
            }
        }
    }
}
