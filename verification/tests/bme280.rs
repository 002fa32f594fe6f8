use smt_api_client::drivers::bme280::{
    parse_calibration, raw_readings, Bme280, CalibrationData, MeasurementsBME280, CALIB_A_LEN, CALIB_B_LEN,
    DATA_LEN, REG_CALIB_A, REG_CALIB_B, REG_CONFIG, REG_CTRL_HUM, REG_CTRL_MEAS, REG_DATA, REG_RESET,
    RESET_COMMAND,
};

struct Trim {
    t: (u16, i16, i16),
    p: (u16, [i16; 8]),
    h1: u8,
    h2: i16,
    h3: u8,
    h4: i16,
    h5: i16,
    h6: i8,
}

/// The calibration of the worked example in the datasheet, with typical
/// humidity trimming.
fn datasheet_trim() -> Trim {
    Trim {
        t: (27504, 26435, -1000),
        p: (36477, [-10685, 3024, 2855, 140, -7, 15500, -14600, 6000]),
        h1: 75,
        h2: 362,
        h3: 0,
        h4: 313,
        h5: 50,
        h6: 30,
    }
}

/// The register contents that hold `trim`.
fn encode(trim: &Trim) -> ([u8; 26], [u8; 7]) {
    let mut a = [0u8; 26];
    a[0..2].copy_from_slice(&trim.t.0.to_le_bytes());
    a[2..4].copy_from_slice(&trim.t.1.to_le_bytes());
    a[4..6].copy_from_slice(&trim.t.2.to_le_bytes());
    a[6..8].copy_from_slice(&trim.p.0.to_le_bytes());
    for (i, v) in trim.p.1.iter().enumerate() {
        a[8 + 2 * i..10 + 2 * i].copy_from_slice(&v.to_le_bytes());
    }
    a[24] = 0xAA;
    a[25] = trim.h1;
    let mut b = [0u8; 7];
    b[0..2].copy_from_slice(&trim.h2.to_le_bytes());
    b[2] = trim.h3;
    b[3] = (trim.h4 >> 4) as u8;
    b[4] = ((trim.h4 & 0x0F) as u8) | (((trim.h5 & 0x0F) as u8) << 4);
    b[5] = (trim.h5 >> 4) as u8;
    b[6] = trim.h6 as u8;
    (a, b)
}

/// The data registers for raw readings `p`, `t` (20 bits) and `h` (16 bits).
fn data(p: u32, t: u32, h: u16) -> [u8; 8] {
    [
        (p >> 12) as u8,
        (p >> 4) as u8,
        ((p & 0x0F) << 4) as u8,
        (t >> 12) as u8,
        (t >> 4) as u8,
        ((t & 0x0F) << 4) as u8,
        (h >> 8) as u8,
        h as u8,
    ]
}

fn calibrated(trim: &Trim) -> Bme280<()> {
    let (a, b) = encode(trim);
    let mut dev = Bme280::new((), 0x76);
    dev.read_calibration(&a, &b);
    dev
}

#[test]
fn register_map() {
    assert_eq!(REG_RESET, 0xE0);
    assert_eq!(RESET_COMMAND, 0xB6);
    assert_eq!(REG_CALIB_A, 0x88);
    assert_eq!(CALIB_A_LEN, 26);
    assert_eq!(REG_CALIB_B, 0xE1);
    assert_eq!(CALIB_B_LEN, 7);
    assert_eq!(REG_DATA, 0xF7);
    assert_eq!(DATA_LEN, 8);
}

#[test]
fn init_sequence_configures_the_chip() {
    let seq = Bme280::<()>::init_sequence();
    assert_eq!(
        seq,
        [(REG_RESET, 0xB6), (REG_CTRL_HUM, 0x01), (REG_CTRL_MEAS, 0x27), (REG_CONFIG, 0xA0)]
    );
    assert_eq!(REG_CTRL_HUM, 0xF2);
    assert_eq!(REG_CTRL_MEAS, 0xF4);
    assert_eq!(REG_CONFIG, 0xF5);
}

#[test]
fn new_keeps_address_and_bus() {
    let mut dev = Bme280::new(7u32, 0x77);
    assert_eq!(dev.address(), 0x77);
    *dev.bus() += 1;
    assert_eq!(*dev.bus(), 8);
}

#[test]
fn uncalibrated_chip_reads_zero_temperature() {
    let dev = Bme280::new((), 0x76);
    // With every trimming value zero, t_fine is 0 and so is the temperature.
    assert_eq!(dev.compensate_temp(519888), Some((0, 0)));
}

#[test]
fn calibration_is_little_endian() {
    let trim = datasheet_trim();
    let (a, b) = encode(&trim);
    let c: CalibrationData = parse_calibration(&a, &b);
    assert_eq!(c.dig_t1, 27504);
    assert_eq!(c.dig_t2, 26435);
    assert_eq!(c.dig_t3, -1000);
    assert_eq!(c.dig_p1, 36477);
    assert_eq!(c.dig_p2, -10685);
    assert_eq!(c.dig_p3, 3024);
    assert_eq!(c.dig_p4, 2855);
    assert_eq!(c.dig_p5, 140);
    assert_eq!(c.dig_p6, -7);
    assert_eq!(c.dig_p7, 15500);
    assert_eq!(c.dig_p8, -14600);
    assert_eq!(c.dig_p9, 6000);
    assert_eq!(c.dig_h1, 75);
    assert_eq!(c.dig_h2, 362);
    assert_eq!(c.dig_h3, 0);
    assert_eq!(c.dig_h4, 313);
    assert_eq!(c.dig_h5, 50);
    assert_eq!(c.dig_h6, 30);
}

#[test]
fn calibration_shares_the_nibbles_of_e5() {
    let a = [0u8; 26];
    let b = [0x34, 0x12, 0x7F, 0xAB, 0xCD, 0xEF, 0xF6];
    let c = parse_calibration(&a, &b);
    assert_eq!(c.dig_h2, 0x1234);
    assert_eq!(c.dig_h3, 0x7F);
    assert_eq!(c.dig_h4, 0xABD);
    assert_eq!(c.dig_h5, 0xEFC);
    assert_eq!(c.dig_h6, -10);
    let b = [0xFF, 0xFF, 0, 0, 0, 0, 0x80];
    let c = parse_calibration(&a, &b);
    assert_eq!(c.dig_h2, -1);
    assert_eq!(c.dig_h6, -128);
}

#[test]
fn raw_readings_are_twenty_and_sixteen_bits() {
    let d = data(415148, 519888, 30000);
    assert_eq!(raw_readings(&d), (415148, 519888, 30000));
    assert_eq!(raw_readings(&[0xFF; 8]), (0xFFFFF, 0xFFFFF, 0xFFFF));
    assert_eq!(raw_readings(&[0; 8]), (0, 0, 0));
}

#[test]
fn datasheet_temperature() {
    let dev = calibrated(&datasheet_trim());
    // 25.08 degrees, t_fine = 128422
    assert_eq!(dev.compensate_temp(519888), Some((2508, 128422)));
}

#[test]
fn datasheet_pressure() {
    let dev = calibrated(&datasheet_trim());
    let p = dev.compensate_pressure(415148, 128422).unwrap();
    assert_eq!(p, 25767233);
    let pa = p as f64 / 256.0;
    assert!((pa - 100653.27).abs() < 0.1);
}

#[test]
fn pressure_is_zero_when_p1_is_zero() {
    let mut trim = datasheet_trim();
    trim.p.0 = 0;
    let dev = calibrated(&trim);
    assert_eq!(dev.compensate_pressure(415148, 128422), Some(0));
}

#[test]
fn humidity_examples() {
    let dev = calibrated(&datasheet_trim());
    assert_eq!(dev.compensate_humidity(30000, 128422), Some(56317));
    assert_eq!(dev.compensate_humidity(25000, 128422), Some(27726));
    // Limited to 0 ..= 100 %RH.
    assert_eq!(dev.compensate_humidity(0, 128422), Some(0));
    assert_eq!(dev.compensate_humidity(65535, 128422), Some(102400));
}

#[test]
fn measure_combines_the_three_formulas() {
    let dev = calibrated(&datasheet_trim());
    let m: MeasurementsBME280 = dev.measure(&data(415148, 519888, 30000)).unwrap();
    assert_eq!(m.temperature, 2508);
    assert_eq!(m.pressure, 25767233);
    assert_eq!(m.humidity, 56317);
    assert!((m.temperature as f32 / 100.0 - 25.08).abs() < 1e-4);
    assert!((m.humidity as f32 / 1024.0 - 55.0).abs() < 0.01);
}

#[test]
fn overflow_gives_no_reading() {
    // ((adc_T >> 3) - 2 * dig_T1) * dig_T2 exceeds i32 here.
    let mut trim = datasheet_trim();
    trim.t = (0, 32767, 0);
    let dev = calibrated(&trim);
    assert_eq!(dev.compensate_temp(0xFFFFF), None);
    assert!(dev.measure(&data(415148, 0xFFFFF, 30000)).is_none());
}
