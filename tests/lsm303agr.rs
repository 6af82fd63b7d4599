use capsules::components::Lsm303agrI2CComponent;
use capsules::driver::{CallbackArgs, ReturnCode, Xyz};
use capsules::lsm303agr::{
    I2cError, I2cTarget, I2cTransfer, Lsm303agrAccelDataRate, Lsm303agrI2C,
    Lsm303agrMagnetoDataRate, Lsm303agrScale,
};

fn driver() -> Lsm303agrI2C<u32, u32, u32> {
    Lsm303agrI2CComponent::new().finalize::<u32, u32, u32>()
}

fn started(r: (ReturnCode, Option<I2cTransfer>)) -> I2cTransfer {
    assert_eq!(r.0, ReturnCode::Success);
    r.1.unwrap()
}

fn respond(t: I2cTransfer, bytes: &[u8]) -> Vec<u8> {
    let mut b = t.buffer;
    b[..bytes.len()].copy_from_slice(bytes);
    b
}

#[test]
fn configure_runs_four_steps_in_order() {
    let mut d = driver();
    d.subscribe(0, Some(9));
    let t = d
        .configure(
            Lsm303agrAccelDataRate::DataRate25Hz,
            false,
            Lsm303agrScale::Scale2G,
            false,
            true,
            Lsm303agrMagnetoDataRate::DataRate10Hz,
        )
        .ok()
        .unwrap();
    assert_eq!(t.target, I2cTarget::Accelerometer);
    assert_eq!((t.write_len, t.read_len), (2, 0));
    assert_eq!(&t.buffer[..2], &[0x20, 0x37]);

    let (out, next) = d.command_complete(t.buffer, I2cError::CommandComplete);
    assert_eq!(out.callback, Some((9, CallbackArgs::new(1, 0, 0))));
    let t = next.unwrap();
    assert_eq!(t.target, I2cTarget::Accelerometer);
    assert_eq!(&t.buffer[..2], &[0x23, 0x80]);

    // A failed step still hands on to the next one.
    let (out, next) = d.command_complete(t.buffer, I2cError::AddressNak);
    assert_eq!(out.callback, Some((9, CallbackArgs::zero())));
    let t = next.unwrap();
    assert_eq!(t.target, I2cTarget::Accelerometer);
    assert_eq!(&t.buffer[..2], &[0x1F, 0xC0]);

    let (out, next) = d.command_complete(t.buffer, I2cError::CommandComplete);
    assert_eq!(out.callback, Some((9, CallbackArgs::new(1, 0, 0))));
    let t = next.unwrap();
    assert_eq!(t.target, I2cTarget::Magnetometer);
    assert_eq!((t.write_len, t.read_len), (3, 0));
    assert_eq!(&t.buffer[..3], &[0x60, 0x80, 0x02]);

    let (out, next) = d.command_complete(t.buffer, I2cError::DataNak);
    assert_eq!(out.callback, Some((9, CallbackArgs::zero())));
    assert!(next.is_none());
    assert!(d.is_idle());

    // The chain is over: a later setting completes without a follow-up.
    let t = started(d.command(4, 0, 0));
    assert_eq!(&t.buffer[..2], &[0x1F, 0x00]);
    let (_, next) = d.command_complete(t.buffer, I2cError::CommandComplete);
    assert!(next.is_none());
}

#[test]
fn configure_records_high_resolution_and_scale() {
    let mut d = driver();
    let t = d
        .configure(
            Lsm303agrAccelDataRate::Normal1344LowPower5376Hz,
            true,
            Lsm303agrScale::Scale16G,
            true,
            false,
            Lsm303agrMagnetoDataRate::DataRate100Hz,
        )
        .ok()
        .unwrap();
    assert_eq!(&t.buffer[..2], &[0x20, 0x9F]);
    let (_, next) = d.command_complete(t.buffer, I2cError::CommandComplete);
    let t = next.unwrap();
    assert_eq!(&t.buffer[..2], &[0x23, 0xB8]);
    let (_, next) = d.command_complete(t.buffer, I2cError::CommandComplete);
    let t = next.unwrap();
    assert_eq!(&t.buffer[..2], &[0x1F, 0x00]);
    let (_, next) = d.command_complete(t.buffer, I2cError::CommandComplete);
    let t = next.unwrap();
    assert_eq!(&t.buffer[..3], &[0x60, 0x8C, 0x02]);
    let (_, next) = d.command_complete(t.buffer, I2cError::CommandComplete);
    assert!(next.is_none());
    assert_eq!(d.get_accel_mode(), 0);
}

#[test]
fn busy_during_configuration() {
    let mut d = driver();
    let t = d
        .configure(
            Lsm303agrAccelDataRate::DataRate1Hz,
            false,
            Lsm303agrScale::Scale4G,
            false,
            false,
            Lsm303agrMagnetoDataRate::DataRate20Hz,
        )
        .ok()
        .unwrap();
    for n in 1..=8 {
        let r = d.command(n, 1, 1);
        assert_eq!(r.0, ReturnCode::Busy);
        assert!(r.1.is_none());
    }
    let again = d.configure(
        Lsm303agrAccelDataRate::DataRate400Hz,
        true,
        Lsm303agrScale::Scale16G,
        true,
        true,
        Lsm303agrMagnetoDataRate::DataRate100Hz,
    );
    assert_eq!(again.err(), Some(ReturnCode::Busy));
    assert_eq!(d.read_accelerometer().err(), Some(ReturnCode::Busy));
    // The refused calls changed nothing: the chain goes on with the first values.
    let (_, next) = d.command_complete(t.buffer, I2cError::CommandComplete);
    let t = next.unwrap();
    assert_eq!(&t.buffer[..2], &[0x23, 0x90]);
}

#[test]
fn invalid_configuration_codes() {
    let mut d = driver();
    for (n, arg) in [(2usize, 10usize), (3, 4), (5, 4), (2, usize::MAX)] {
        let r = d.command(n, arg, 0);
        assert_eq!(r.0, ReturnCode::InvalidArgument);
        assert!(r.1.is_none());
        assert!(d.is_idle());
    }
    let t = started(d.command(2, 9, 1));
    assert_eq!(&t.buffer[..2], &[0x20, 0x9F]);
}

#[test]
fn unknown_numbers_unsupported() {
    let mut d = driver();
    assert_eq!(d.command(0, 0, 0).0, ReturnCode::Success);
    for n in [9usize, 10, 100, usize::MAX] {
        let r = d.command(n, 0, 0);
        assert_eq!(r.0, ReturnCode::Unsupported);
        assert!(r.1.is_none());
    }
    assert_eq!(d.subscribe(1, Some(3)), ReturnCode::Unsupported);
    assert!(d.is_idle());
}

#[test]
fn identity_check() {
    let mut d = driver();
    d.subscribe(0, Some(5));
    let t = started(d.command(1, 0, 0));
    assert_eq!(t.target, I2cTarget::Accelerometer);
    assert_eq!((t.write_len, t.read_len), (1, 2));
    assert_eq!(t.buffer[0], 0x0F);
    let (out, _) = d.command_complete(respond(t, &[0x33, 0x33]), I2cError::CommandComplete);
    assert_eq!(out.callback, Some((5, CallbackArgs::new(1, 0x33, 0))));
    let t = d.is_present().ok().unwrap();
    let (out, _) = d.command_complete(respond(t, &[0x40, 0x40]), I2cError::CommandComplete);
    assert_eq!(out.callback, Some((5, CallbackArgs::zero())));
    let t = d.is_present().ok().unwrap();
    let (out, _) = d.command_complete(respond(t, &[0x33, 0x33]), I2cError::AddressNak);
    assert_eq!(out.callback, Some((5, CallbackArgs::zero())));
}

#[test]
fn read_acceleration_high_resolution() {
    let mut d = driver();
    d.subscribe(0, Some(1));
    d.set_nine_dof_client(2);
    let t = started(d.command(3, 0, 1));
    assert_eq!(&t.buffer[..2], &[0x23, 0x88]);
    d.command_complete(t.buffer, I2cError::CommandComplete);
    let t = started(d.command(6, 0, 0));
    assert_eq!(t.target, I2cTarget::Accelerometer);
    assert_eq!((t.write_len, t.read_len), (1, 6));
    assert_eq!(t.buffer[0], 0xA8);
    let b = respond(t, &[0x00, 0x01, 0xEF, 0xFF, 0x00, 0x10]);
    let (out, next) = d.command_complete(b, I2cError::CommandComplete);
    assert!(next.is_none());
    assert_eq!(out.callback, Some((1, CallbackArgs::new(16, -2, 256))));
    assert_eq!(out.nine_dof, Some((2, Xyz { x: 15, y: -1, z: 250 })));
    assert!(out.temperature.is_none());
}

#[test]
fn read_acceleration_normal_and_low_power() {
    let mut d = driver();
    d.set_nine_dof_client(2);
    let t = d.read_accelerometer().ok().unwrap();
    let b = respond(t, &[0x00, 0x19, 0, 0, 0, 0]);
    let (out, _) = d.command_complete(b, I2cError::CommandComplete);
    assert_eq!(out.nine_dof, Some((2, Xyz { x: 390, y: 0, z: 0 })));
    let t = d.set_power_mode(Lsm303agrAccelDataRate::DataRate10Hz, true).ok().unwrap();
    assert_eq!(&t.buffer[..2], &[0x20, 0x2F]);
    d.command_complete(t.buffer, I2cError::CommandComplete);
    let t = d.read_acceleration_xyz().ok().unwrap();
    let b = respond(t, &[0x00, 0x64, 0, 0, 0, 0]);
    let (out, _) = d.command_complete(b, I2cError::CommandComplete);
    assert_eq!(out.nine_dof, Some((2, Xyz { x: 1563, y: 0, z: 0 })));
}

#[test]
fn failed_acceleration_read_gives_zeros() {
    let mut d = driver();
    d.subscribe(0, Some(1));
    d.set_nine_dof_client(2);
    let t = d.read_acceleration_xyz().ok().unwrap();
    let b = respond(t, &[0x00, 0x01, 0xEF, 0xFF, 0x00, 0x10]);
    let (out, _) = d.command_complete(b, I2cError::Overrun);
    assert_eq!(out.callback, Some((1, CallbackArgs::zero())));
    assert_eq!(out.nine_dof, Some((2, Xyz::zero())));
    assert!(d.is_idle());
}

#[test]
fn read_magnetometer() {
    let mut d = driver();
    d.subscribe(0, Some(1));
    d.set_nine_dof_client(2);
    let t = started(d.command(8, 0, 0));
    assert_eq!(t.target, I2cTarget::Magnetometer);
    assert_eq!((t.write_len, t.read_len), (1, 6));
    assert_eq!(t.buffer[0], 0x68);
    let b = respond(t, &[0x00, 0x0A, 0x00, 0x14, 0xFF, 0xFE]);
    let (out, _) = d.command_complete(b, I2cError::CommandComplete);
    assert_eq!(out.callback, Some((1, CallbackArgs::new(10, -2, 20))));
    assert_eq!(out.nine_dof, Some((2, Xyz { x: 15, y: -3, z: 30 })));
    let t = d.read_magnetometer().ok().unwrap();
    let (out, _) = d.command_complete(t.buffer, I2cError::ArbitrationLost);
    assert_eq!(out.callback, Some((1, CallbackArgs::zero())));
    assert_eq!(out.nine_dof, Some((2, Xyz::zero())));
}

#[test]
fn read_temperature() {
    let mut d = driver();
    d.subscribe(0, Some(1));
    d.set_temperature_client(3);
    let t = started(d.command(7, 0, 0));
    assert_eq!(t.target, I2cTarget::Magnetometer);
    assert_eq!((t.write_len, t.read_len), (1, 2));
    assert_eq!(t.buffer[0], 0x8C);
    let (out, _) = d.command_complete(respond(t, &[0x06, 0x40]), I2cError::CommandComplete);
    assert_eq!(out.callback, Some((1, CallbackArgs::new(25, 0, 0))));
    assert_eq!(out.temperature, Some((3, 31)));
    assert!(out.nine_dof.is_none());
    let t = d.read_temperature().ok().unwrap();
    let (out, _) = d.command_complete(respond(t, &[0x06, 0x40]), I2cError::DataNak);
    assert_eq!(out.callback, Some((1, CallbackArgs::zero())));
    assert_eq!(out.temperature, Some((3, 0)));
}

#[test]
fn settings_commands_frames() {
    let mut d = driver();
    let t = started(d.command(4, 7, 0));
    assert_eq!(&t.buffer[..2], &[0x1F, 0xC0]);
    d.command_complete(t.buffer, I2cError::CommandComplete);
    let t = started(d.command(5, 2, 0));
    assert_eq!(t.target, I2cTarget::Magnetometer);
    assert_eq!(&t.buffer[..3], &[0x60, 0x88, 0x02]);
    d.command_complete(t.buffer, I2cError::CommandComplete);
    let t = d.set_magneto_data_rate(Lsm303agrMagnetoDataRate::DataRate20Hz).ok().unwrap();
    assert_eq!(&t.buffer[..3], &[0x60, 0x84, 0x02]);
    d.command_complete(t.buffer, I2cError::CommandComplete);
    let t = d.set_temperature(false).ok().unwrap();
    assert_eq!(&t.buffer[..2], &[0x1F, 0x00]);
    d.command_complete(t.buffer, I2cError::CommandComplete);
    let t = d.set_scale_and_resolution(Lsm303agrScale::Scale8G, false).ok().unwrap();
    assert_eq!(&t.buffer[..2], &[0x23, 0xA0]);
}

#[test]
fn resubscribe_replaces_callback() {
    let mut d = driver();
    d.subscribe(0, Some(1));
    d.subscribe(0, Some(2));
    let t = d.set_temperature(true).ok().unwrap();
    let (out, _) = d.command_complete(t.buffer, I2cError::CommandComplete);
    assert_eq!(out.callback, Some((2, CallbackArgs::new(1, 0, 0))));
    d.subscribe(0, None);
    let t = d.set_temperature(true).ok().unwrap();
    let (out, _) = d.command_complete(t.buffer, I2cError::CommandComplete);
    assert!(out.callback.is_none());
}

#[test]
fn codes_and_addresses() {
    assert_eq!(Lsm303agrAccelDataRate::from_usize(3), Some(Lsm303agrAccelDataRate::DataRate25Hz));
    assert_eq!(Lsm303agrAccelDataRate::from_usize(10), None);
    assert_eq!(Lsm303agrAccelDataRate::LowPower1620Hz.code(), 8);
    assert_eq!(Lsm303agrScale::from_usize(3), Some(Lsm303agrScale::Scale16G));
    assert_eq!(Lsm303agrScale::from_usize(4), None);
    assert_eq!(Lsm303agrMagnetoDataRate::from_usize(1), Some(Lsm303agrMagnetoDataRate::DataRate20Hz));
    assert_eq!(Lsm303agrMagnetoDataRate::from_usize(4), None);
    assert_eq!(I2cTarget::Accelerometer.address(), 0x19);
    assert_eq!(I2cTarget::Magnetometer.address(), 0x1e);
}

#[test]
fn completion_while_idle_delivers_nothing() {
    let mut d = driver();
    d.subscribe(0, Some(1));
    let (out, next) = d.command_complete(vec![0u8; 8], I2cError::CommandComplete);
    assert!(out.callback.is_none());
    assert!(next.is_none());
    assert!(d.is_idle());
}
