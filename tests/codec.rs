use capsules::codec::{
    accel_aligned, accel_mg, decode_i16, decode_i8, gyro_rate, gyro_temperature, mag_mgauss,
    temperature_aligned, temperature_celsius,
};

#[test]
fn decode_i16_little_endian_twos_complement() {
    assert_eq!(decode_i16(0x00, 0x10), 4096);
    assert_eq!(decode_i16(0x34, 0x12), 0x1234);
    assert_eq!(decode_i16(0xFF, 0xFF), -1);
    assert_eq!(decode_i16(0x00, 0x80), -32768);
    assert_eq!(decode_i16(0xFF, 0x7F), 32767);
}

#[test]
fn decode_i8_twos_complement() {
    assert_eq!(decode_i8(0x7F), 127);
    assert_eq!(decode_i8(0x80), -128);
    assert_eq!(decode_i8(0xFE), -2);
}

#[test]
fn gyro_rate_per_scale() {
    assert_eq!(gyro_rate(1000, 0), 8);
    assert_eq!(gyro_rate(1000, 1), 17);
    assert_eq!(gyro_rate(1000, 2), 70);
    assert_eq!(gyro_rate(32767, 2), 2293);
    assert_eq!(gyro_rate(-32768, 2), -2293);
    assert_eq!(gyro_rate(-1000, 0), -8);
    assert_eq!(gyro_rate(1000, 7), 70);
}

#[test]
fn gyro_temperature_in_hundredths() {
    assert_eq!(gyro_temperature(25), 2500);
    assert_eq!(gyro_temperature(0xFE), -200);
}

#[test]
fn accel_high_resolution_two_g_truncates() {
    // 16 digits at 0.98 mg per digit is 15.68 mg, truncated to 15.
    let raw = decode_i16(0x00, 0x01);
    assert_eq!(accel_aligned(raw, 0), 16);
    assert_eq!(accel_mg(raw, 0, 0), 15);
    let raw = decode_i16(0x00, 0x10);
    assert_eq!(accel_aligned(raw, 0), 256);
    assert_eq!(accel_mg(raw, 0, 0), 250);
}

#[test]
fn accel_shift_per_mode() {
    assert_eq!(accel_aligned(0x1000, 0), 0x100);
    assert_eq!(accel_aligned(0x1000, 1), 0x40);
    assert_eq!(accel_aligned(0x1000, 2), 0x10);
    assert_eq!(accel_aligned(-17, 0), -2);
}

#[test]
fn accel_scale_table_entries() {
    assert_eq!(accel_mg(1600, 0, 1), 195);
    assert_eq!(accel_mg(1600, 0, 3), 1172);
    assert_eq!(accel_mg(6400, 1, 2), 1563);
    assert_eq!(accel_mg(25600, 2, 3), 18758);
    assert_eq!(accel_mg(25600, 2, 0), 1563);
}

#[test]
fn accel_negative_truncates_toward_zero() {
    assert_eq!(accel_mg(-16, 0, 0), 0);
    assert_eq!(accel_mg(-17, 0, 0), -1);
    assert_eq!(accel_mg(-1600, 0, 0), -98);
}

#[test]
fn magnetometer_one_and_a_half_mgauss_per_digit() {
    assert_eq!(mag_mgauss(10), 15);
    assert_eq!(mag_mgauss(3), 4);
    assert_eq!(mag_mgauss(-1), -1);
    assert_eq!(mag_mgauss(-3), -4);
}

#[test]
fn device_temperature_quarter_degree_plus_offset() {
    let aligned = temperature_aligned(decode_i16(0x40, 0x06));
    assert_eq!(aligned, 25);
    assert_eq!(temperature_celsius(aligned), 31);
    assert_eq!(temperature_aligned(-16384), -256);
    assert_eq!(temperature_celsius(-256), -39);
    assert_eq!(temperature_celsius(-4), 24);
    assert_eq!(temperature_celsius(0), 25);
}
