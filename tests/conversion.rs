use i2c_sensors::calibration::Bmp085Parameters;
use i2c_sensors::conversion::ArithmeticError;

#[test]
fn real_value_calculation() {
    let params = Bmp085Parameters::init_as_datasheet();

    let ut = 27898;
    let up = 23843;

    assert_eq!(params.calculate_real_temp(ut), Ok(150));
    assert_eq!(params.calcuate_real_pressure(ut, up), Ok(69965));
}

#[test]
fn datasheet_coefficients() {
    let p = Bmp085Parameters::init_as_datasheet();
    assert_eq!(p.oversampling, 0);
    assert_eq!((p.ac1, p.ac2, p.ac3), (408, -72, -14383));
    assert_eq!((p.ac4, p.ac5, p.ac6), (32741, 32757, 23153));
    assert_eq!((p.b1, p.b2, p.mb, p.mc, p.md), (6190, 4, -32768, -8711, 2868));
}

#[test]
fn temperature_ignores_oversampling_and_pressure_coefficients() {
    let base = Bmp085Parameters::init_as_datasheet();
    for oversampling in 0..4u8 {
        let p = Bmp085Parameters { oversampling, ac1: 1, ac2: 2, ac3: 3, ac4: 4, b1: 5, b2: 6, mb: 7, ..base };
        assert_eq!(p.calculate_real_temp(27898), Ok(150));
        assert_eq!(p.calculate_real_temp(30000), Ok(313));
    }
}

#[test]
fn pressure_at_each_oversampling() {
    let base = Bmp085Parameters::init_as_datasheet();
    let expected = [69965, 69963, 69964, 69964];
    for oversampling in 0..4u8 {
        let p = Bmp085Parameters { oversampling, ..base };
        assert_eq!(
            p.calcuate_real_pressure(27898, 23843u32 << oversampling),
            Ok(expected[oversampling as usize])
        );
    }
}

#[test]
fn conversion_at_extreme_raw_values() {
    let p = Bmp085Parameters::init_as_datasheet();
    assert_eq!(p.calculate_real_temp(0), Ok(-1392));
    assert_eq!(p.calcuate_real_pressure(0, 0), Ok(176963));
    assert_eq!(p.calculate_real_temp(65535), Ok(2623));
    assert_eq!(p.calcuate_real_pressure(65535, 65535), Ok(813105));
    assert_eq!(p.calcuate_real_pressure(30000, 30000), Ok(91596));
}

#[test]
fn zero_temperature_divisor_is_an_error() {
    // ut == ac6 makes x1 zero, and md == 0 makes x1 + md zero.
    let p = Bmp085Parameters { ac6: 27898, md: 0, ..Bmp085Parameters::init_as_datasheet() };
    assert_eq!(p.calculate_real_temp(27898), Err(ArithmeticError::ZeroTemperatureDivisor));
    assert_eq!(p.calcuate_real_pressure(27898, 23843), Err(ArithmeticError::ZeroTemperatureDivisor));
    assert!(p.calculate_real_temp(27900).is_ok());
}

#[test]
fn zero_pressure_divisor_is_an_error() {
    let p = Bmp085Parameters { ac4: 0, ..Bmp085Parameters::init_as_datasheet() };
    assert_eq!(p.calculate_real_temp(27898), Ok(150));
    assert_eq!(p.calcuate_real_pressure(27898, 23843), Err(ArithmeticError::ZeroPressureDivisor));
}

#[test]
fn temperature_outside_sixteen_bits_is_not_cut() {
    // x1 + md is 1 here, so b5 is -17842995 and (b5 + 8) >> 4 is -1115187.
    let p = Bmp085Parameters::init_as_datasheet();
    assert_eq!(p.calculate_real_temp(20286), Ok(-1115187));
}
