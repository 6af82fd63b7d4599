use capsules::components::I3g4250dSpiComponent;
use capsules::driver::{CallbackArgs, ReturnCode, Xyz};
use capsules::i3g4250d::{ClockPhase, ClockPolarity, I3g4250dSpi, SpiTransfer};

fn driver() -> I3g4250dSpi<u32, u32, u32> {
    let (d, _) = I3g4250dSpiComponent::new().finalize::<u32, u32, u32>();
    d
}

fn rx_with(bytes: &[u8]) -> Vec<u8> {
    let mut rx = vec![0u8; 10];
    rx[..bytes.len()].copy_from_slice(bytes);
    rx
}

fn started(r: (ReturnCode, Option<SpiTransfer>)) -> SpiTransfer {
    assert_eq!(r.0, ReturnCode::Success);
    r.1.unwrap()
}

#[test]
fn component_gives_spi_settings() {
    let (_, settings) = I3g4250dSpiComponent::new().finalize::<u32, u32, u32>();
    assert_eq!(settings.polarity, ClockPolarity::IdleHigh);
    assert_eq!(settings.phase, ClockPhase::SampleTrailing);
    assert_eq!(settings.rate, 1_000_000);
}

#[test]
fn gyro_identity_check() {
    let mut d = driver();
    assert_eq!(d.subscribe(0, Some(7)), ReturnCode::Success);
    let t = started(d.command(1, 0, 0));
    assert_eq!(t.len, 2);
    assert_eq!(&t.write[..2], &[0x8F, 0x00]);
    assert!(t.read.is_some());
    let out = d.read_write_done(t.write, Some(rx_with(&[0x00, 0xD3])), 2);
    assert_eq!(out.callback, Some((7, CallbackArgs::new(1, 0xD3, 0))));
    assert!(out.nine_dof.is_none());
    assert!(d.is_idle());
}

#[test]
fn gyro_identity_mismatch_reports_the_byte() {
    let mut d = driver();
    d.subscribe(0, Some(7));
    let t = d.is_present().ok().unwrap();
    let out = d.read_write_done(t.write, Some(rx_with(&[0x00, 0x42])), 2);
    assert_eq!(out.callback, Some((7, CallbackArgs::new(0, 0x42, 0))));
}

#[test]
fn gyro_busy_leaves_state_unchanged() {
    let mut d = driver();
    let t = started(d.command(2, 0, 0));
    assert_eq!(&t.write[..2], &[0x20, 0x0F]);
    assert!(t.read.is_none());
    for n in 1..=7 {
        let r = d.command(n, 2, 0);
        assert_eq!(r.0, ReturnCode::Busy);
        assert!(r.1.is_none());
    }
    assert_eq!(d.set_scale(5).err(), Some(ReturnCode::Busy));
    assert_eq!(d.power_on().err(), Some(ReturnCode::Busy));
    assert!(!d.is_idle());
    d.read_write_done(t.write, None, 2);
    assert!(d.is_idle());
    // The refused set_scale left the scale at 245 dps.
    d.set_nine_dof_client(3);
    let t = d.read_xyz().ok().unwrap();
    let out = d.read_write_done(t.write, Some(rx_with(&[0x00, 0xE8, 0x03])), 7);
    assert_eq!(out.nine_dof, Some((3, Xyz { x: 8, y: 0, z: 0 })));
}

#[test]
fn gyro_read_xyz_decodes_with_scale() {
    let mut d = driver();
    d.subscribe(0, Some(1));
    d.set_nine_dof_client(2);
    let t = started(d.command(3, 1, 0));
    assert_eq!(&t.write[..2], &[0x23, 0x10]);
    d.read_write_done(t.write, t.read, 2);
    let t = started(d.command(6, 0, 0));
    assert_eq!(t.len, 7);
    assert_eq!(&t.write[..7], &[0xE8, 0, 0, 0, 0, 0, 0]);
    let rx = rx_with(&[0x00, 0xE8, 0x03, 0x18, 0xFC, 0x00, 0x00]);
    let out = d.read_write_done(t.write, Some(rx), 7);
    assert_eq!(out.callback, Some((1, CallbackArgs::new(1000, -1000, 0))));
    assert_eq!(out.nine_dof, Some((2, Xyz { x: 17, y: -17, z: 0 })));
    assert!(out.temperature.is_none());
}

#[test]
fn gyro_short_read_gives_zeros() {
    let mut d = driver();
    d.subscribe(0, Some(1));
    d.set_nine_dof_client(2);
    let t = d.read_gyroscope().ok().unwrap();
    let rx = rx_with(&[0x00, 0xE8, 0x03, 0x18, 0xFC, 0x01, 0x02]);
    let out = d.read_write_done(t.write, Some(rx), 5);
    assert_eq!(out.callback, Some((1, CallbackArgs::zero())));
    assert_eq!(out.nine_dof, Some((2, Xyz::zero())));
    assert!(d.is_idle());
}

#[test]
fn gyro_missing_receive_buffer_gives_zeros() {
    let mut d = driver();
    d.subscribe(0, Some(1));
    d.set_temperature_client(4);
    let t = d.read_temperature().ok().unwrap();
    let out = d.read_write_done(t.write, None, 2);
    assert_eq!(out.callback, Some((1, CallbackArgs::zero())));
    assert_eq!(out.temperature, Some((4, 0)));
    // The receive buffer was not handed back: later reads also come back empty.
    let t = d.read_temperature().ok().unwrap();
    assert!(t.read.is_none());
    let out = d.read_write_done(t.write, t.read, 2);
    assert_eq!(out.temperature, Some((4, 0)));
}

#[test]
fn gyro_read_temperature() {
    let mut d = driver();
    d.subscribe(0, Some(1));
    d.set_temperature_client(4);
    let t = started(d.command(7, 0, 0));
    assert_eq!(&t.write[..2], &[0xA6, 0x00]);
    let out = d.read_write_done(t.write, Some(rx_with(&[0x00, 0xFE])), 2);
    assert_eq!(out.callback, Some((1, CallbackArgs::new(-2, 0, 0))));
    assert_eq!(out.temperature, Some((4, -200)));
}

#[test]
fn gyro_filter_commands() {
    let mut d = driver();
    d.subscribe(0, Some(1));
    let t = started(d.command(4, 1, 0));
    assert_eq!(&t.write[..2], &[0x24, 0x10]);
    let out = d.read_write_done(t.write, t.read, 2);
    assert_eq!(out.callback, Some((1, CallbackArgs::zero())));
    let t = started(d.command(4, 0, 0));
    assert_eq!(&t.write[..2], &[0x24, 0x00]);
    d.read_write_done(t.write, t.read, 2);
    let t = started(d.command(5, 2, 9));
    assert_eq!(&t.write[..2], &[0x21, 0x29]);
    d.read_write_done(t.write, t.read, 2);
    let t = started(d.command(5, 0x107, 0x1F));
    assert_eq!(&t.write[..2], &[0x21, 0x3F]);
}

#[test]
fn gyro_invalid_scale() {
    let mut d = driver();
    let r = d.command(3, 3, 0);
    assert_eq!(r.0, ReturnCode::InvalidArgument);
    assert!(r.1.is_none());
    assert!(d.is_idle());
    let t = started(d.command(3, 2, 0));
    assert_eq!(&t.write[..2], &[0x23, 0x20]);
}

#[test]
fn gyro_unknown_numbers_unsupported() {
    let mut d = driver();
    assert_eq!(d.command(0, 0, 0).0, ReturnCode::Success);
    for n in [8usize, 10, 100, usize::MAX] {
        let r = d.command(n, 0, 0);
        assert_eq!(r.0, ReturnCode::Unsupported);
        assert!(r.1.is_none());
    }
    assert_eq!(d.subscribe(1, Some(3)), ReturnCode::Unsupported);
    assert!(d.is_idle());
}

#[test]
fn gyro_resubscribe_replaces_callback() {
    let mut d = driver();
    d.subscribe(0, Some(1));
    d.subscribe(0, Some(2));
    let t = d.power_on().ok().unwrap();
    let out = d.read_write_done(t.write, t.read, 2);
    assert_eq!(out.callback, Some((2, CallbackArgs::zero())));
    d.subscribe(0, None);
    let t = d.power_on().ok().unwrap();
    let out = d.read_write_done(t.write, t.read, 2);
    assert!(out.callback.is_none());
}
