//! Driver for the LSM303AGR three-axis accelerometer and three-axis
//! magnetometer on an I2C bus, with its temperature sensor.
//!
//! Commands (`command`):
//! - `0`: succeeds, does nothing.
//! - `1`: identity check; the callback gets 1 and the identity byte when the
//!   accelerometer answers with the expected identity, zeros otherwise.
//! - `2`: set the accelerometer power mode, `data1` a data rate code (0..9),
//!   `data2` non-zero for low power.
//! - `3`: set the accelerometer scale, `data1` a scale code (0..3), and
//!   resolution, `data2` non-zero for high resolution.
//! - `4`: enable (`data1` non-zero) or disable the temperature sensor.
//! - `5`: set the magnetometer data rate, `data1` a rate code (0..3).
//! - `6`: read the acceleration; the callback gets the aligned X, Y, Z samples.
//! - `7`: read the temperature; the callback gets the aligned sample.
//! - `8`: read the magnetic field; the callback gets the raw X, Y, Z samples.
//!
//! A setting command's callback gets 1 when the bus reported success, 0
//! otherwise. Subscribe number 0 sets the one-shot callback that every
//! completion calls.
use vstd::prelude::*;

use crate::codec::{
    accel_aligned, accel_aligned_of, accel_mg, accel_mg_of, be_sample, decode_i16, le_sample,
    mag_mgauss, mag_mgauss_of, temperature_aligned, temperature_aligned_of, temperature_celsius,
    temperature_celsius_of,
};
use crate::driver::{
    deliver_to, with_client, zero_args, zero_xyz, CallbackArgs, Deliveries, ReturnCode, Xyz,
};

verus! {

/// Size of the buffer the driver exchanges with the bus.
pub const LSM303AGR_BUFFER_SIZE: usize = 8;

/// Identity byte of the accelerometer.
pub const LSM303AGR_WHO_AM_I_A: u8 = 0x33;

/// Register address bit that makes the accelerometer step through
/// consecutive registers.
pub const REGISTER_AUTO_INCREMENT: u8 = 0x80;

pub const OUT_TEMP_L_A: u8 = 0x0C;

pub const WHO_AM_I_A: u8 = 0x0F;

pub const TEMP_CFG_REG_A: u8 = 0x1F;

pub const CTRL_REG1_A: u8 = 0x20;

pub const CTRL_REG4_A: u8 = 0x23;

pub const OUT_X_L_A: u8 = 0x28;

pub const CFG_REG_A_M: u8 = 0x60;

pub const OUTX_L_REG_M: u8 = 0x68;

/// CFG_REG_B_M value written after CFG_REG_A_M: offset cancellation on.
pub const CFG_REG_B_M_OFFSET_CANCELLATION: u8 = 0x02;

/// Accelerometer output data rate (CTRL_REG1_A, bits 7:4).
#[derive(Clone, Copy, Debug, PartialEq, Eq, Structural)]
pub enum Lsm303agrAccelDataRate {
    Off,
    DataRate1Hz,
    DataRate10Hz,
    DataRate25Hz,
    DataRate50Hz,
    DataRate100Hz,
    DataRate200Hz,
    DataRate400Hz,
    LowPower1620Hz,
    Normal1344LowPower5376Hz,
}

/// Magnetometer output data rate (CFG_REG_A_M, bits 3:2).
#[derive(Clone, Copy, Debug, PartialEq, Eq, Structural)]
pub enum Lsm303agrMagnetoDataRate {
    DataRate10Hz,
    DataRate20Hz,
    DataRate50Hz,
    DataRate100Hz,
}

/// Accelerometer full scale (CTRL_REG4_A, bits 5:4).
#[derive(Clone, Copy, Debug, PartialEq, Eq, Structural)]
pub enum Lsm303agrScale {
    Scale2G,
    Scale4G,
    Scale8G,
    Scale16G,
}

impl Lsm303agrAccelDataRate {
    pub open spec fn spec_code(self) -> u8 {
        match self {
            Lsm303agrAccelDataRate::Off => 0,
            Lsm303agrAccelDataRate::DataRate1Hz => 1,
            Lsm303agrAccelDataRate::DataRate10Hz => 2,
            Lsm303agrAccelDataRate::DataRate25Hz => 3,
            Lsm303agrAccelDataRate::DataRate50Hz => 4,
            Lsm303agrAccelDataRate::DataRate100Hz => 5,
            Lsm303agrAccelDataRate::DataRate200Hz => 6,
            Lsm303agrAccelDataRate::DataRate400Hz => 7,
            Lsm303agrAccelDataRate::LowPower1620Hz => 8,
            Lsm303agrAccelDataRate::Normal1344LowPower5376Hz => 9,
        }
    }

    /// The rate whose code is `n`, if there is one.
    pub open spec fn spec_from_code(n: usize) -> Option<Lsm303agrAccelDataRate> {
        if n == 0 {
            Some(Lsm303agrAccelDataRate::Off)
        } else if n == 1 {
            Some(Lsm303agrAccelDataRate::DataRate1Hz)
        } else if n == 2 {
            Some(Lsm303agrAccelDataRate::DataRate10Hz)
        } else if n == 3 {
            Some(Lsm303agrAccelDataRate::DataRate25Hz)
        } else if n == 4 {
            Some(Lsm303agrAccelDataRate::DataRate50Hz)
        } else if n == 5 {
            Some(Lsm303agrAccelDataRate::DataRate100Hz)
        } else if n == 6 {
            Some(Lsm303agrAccelDataRate::DataRate200Hz)
        } else if n == 7 {
            Some(Lsm303agrAccelDataRate::DataRate400Hz)
        } else if n == 8 {
            Some(Lsm303agrAccelDataRate::LowPower1620Hz)
        } else if n == 9 {
            Some(Lsm303agrAccelDataRate::Normal1344LowPower5376Hz)
        } else {
            None
        }
    }

    pub fn code(&self) -> (r: u8)
        ensures
            r == self.spec_code(),
            r < 10,
    {
        match self {
            Lsm303agrAccelDataRate::Off => 0,
            Lsm303agrAccelDataRate::DataRate1Hz => 1,
            Lsm303agrAccelDataRate::DataRate10Hz => 2,
            Lsm303agrAccelDataRate::DataRate25Hz => 3,
            Lsm303agrAccelDataRate::DataRate50Hz => 4,
            Lsm303agrAccelDataRate::DataRate100Hz => 5,
            Lsm303agrAccelDataRate::DataRate200Hz => 6,
            Lsm303agrAccelDataRate::DataRate400Hz => 7,
            Lsm303agrAccelDataRate::LowPower1620Hz => 8,
            Lsm303agrAccelDataRate::Normal1344LowPower5376Hz => 9,
        }
    }

    pub fn from_usize(n: usize) -> (r: Option<Lsm303agrAccelDataRate>)
        ensures
            r == Self::spec_from_code(n),
            r is Some <==> n < 10,
            r matches Some(v) ==> v.spec_code() == n,
    {
        match n {
            0 => Some(Lsm303agrAccelDataRate::Off),
            1 => Some(Lsm303agrAccelDataRate::DataRate1Hz),
            2 => Some(Lsm303agrAccelDataRate::DataRate10Hz),
            3 => Some(Lsm303agrAccelDataRate::DataRate25Hz),
            4 => Some(Lsm303agrAccelDataRate::DataRate50Hz),
            5 => Some(Lsm303agrAccelDataRate::DataRate100Hz),
            6 => Some(Lsm303agrAccelDataRate::DataRate200Hz),
            7 => Some(Lsm303agrAccelDataRate::DataRate400Hz),
            8 => Some(Lsm303agrAccelDataRate::LowPower1620Hz),
            9 => Some(Lsm303agrAccelDataRate::Normal1344LowPower5376Hz),
            _ => None,
        }
    }
}

impl Lsm303agrMagnetoDataRate {
    pub open spec fn spec_code(self) -> u8 {
        match self {
            Lsm303agrMagnetoDataRate::DataRate10Hz => 0,
            Lsm303agrMagnetoDataRate::DataRate20Hz => 1,
            Lsm303agrMagnetoDataRate::DataRate50Hz => 2,
            Lsm303agrMagnetoDataRate::DataRate100Hz => 3,
        }
    }

    /// The rate whose code is `n`, if there is one.
    pub open spec fn spec_from_code(n: usize) -> Option<Lsm303agrMagnetoDataRate> {
        if n == 0 {
            Some(Lsm303agrMagnetoDataRate::DataRate10Hz)
        } else if n == 1 {
            Some(Lsm303agrMagnetoDataRate::DataRate20Hz)
        } else if n == 2 {
            Some(Lsm303agrMagnetoDataRate::DataRate50Hz)
        } else if n == 3 {
            Some(Lsm303agrMagnetoDataRate::DataRate100Hz)
        } else {
            None
        }
    }

    pub fn code(&self) -> (r: u8)
        ensures
            r == self.spec_code(),
            r < 4,
    {
        match self {
            Lsm303agrMagnetoDataRate::DataRate10Hz => 0,
            Lsm303agrMagnetoDataRate::DataRate20Hz => 1,
            Lsm303agrMagnetoDataRate::DataRate50Hz => 2,
            Lsm303agrMagnetoDataRate::DataRate100Hz => 3,
        }
    }

    pub fn from_usize(n: usize) -> (r: Option<Lsm303agrMagnetoDataRate>)
        ensures
            r == Self::spec_from_code(n),
            r is Some <==> n < 4,
            r matches Some(v) ==> v.spec_code() == n,
    {
        match n {
            0 => Some(Lsm303agrMagnetoDataRate::DataRate10Hz),
            1 => Some(Lsm303agrMagnetoDataRate::DataRate20Hz),
            2 => Some(Lsm303agrMagnetoDataRate::DataRate50Hz),
            3 => Some(Lsm303agrMagnetoDataRate::DataRate100Hz),
            _ => None,
        }
    }
}

impl Lsm303agrScale {
    pub open spec fn spec_code(self) -> u8 {
        match self {
            Lsm303agrScale::Scale2G => 0,
            Lsm303agrScale::Scale4G => 1,
            Lsm303agrScale::Scale8G => 2,
            Lsm303agrScale::Scale16G => 3,
        }
    }

    /// The scale whose code is `n`, if there is one.
    pub open spec fn spec_from_code(n: usize) -> Option<Lsm303agrScale> {
        if n == 0 {
            Some(Lsm303agrScale::Scale2G)
        } else if n == 1 {
            Some(Lsm303agrScale::Scale4G)
        } else if n == 2 {
            Some(Lsm303agrScale::Scale8G)
        } else if n == 3 {
            Some(Lsm303agrScale::Scale16G)
        } else {
            None
        }
    }

    pub fn code(&self) -> (r: u8)
        ensures
            r == self.spec_code(),
            r < 4,
    {
        match self {
            Lsm303agrScale::Scale2G => 0,
            Lsm303agrScale::Scale4G => 1,
            Lsm303agrScale::Scale8G => 2,
            Lsm303agrScale::Scale16G => 3,
        }
    }

    pub fn from_usize(n: usize) -> (r: Option<Lsm303agrScale>)
        ensures
            r == Self::spec_from_code(n),
            r is Some <==> n < 4,
            r matches Some(v) ==> v.spec_code() == n,
    {
        match n {
            0 => Some(Lsm303agrScale::Scale2G),
            1 => Some(Lsm303agrScale::Scale4G),
            2 => Some(Lsm303agrScale::Scale8G),
            3 => Some(Lsm303agrScale::Scale16G),
            _ => None,
        }
    }
}

/// The operation in flight.
#[derive(Clone, Copy, Debug, PartialEq, Eq, Structural)]
pub enum Lsm303agrState {
    Idle,
    IsPresent,
    SetPowerMode,
    SetScaleAndResolution,
    ReadAccelerationXYZ,
    SetTemperature,
    SetMagDataRate,
    ReadTemperature,
    ReadMagnetometerXYZ,
}

/// Outcome the I2C bus reports for a transfer.
#[derive(Clone, Copy, Debug, PartialEq, Eq, Structural)]
pub enum I2cError {
    AddressNak,
    DataNak,
    ArbitrationLost,
    Overrun,
    /// The transfer completed.
    CommandComplete,
}

/// Which of the package's two bus devices a transfer addresses.
#[derive(Clone, Copy, Debug, PartialEq, Eq, Structural)]
pub enum I2cTarget {
    Accelerometer,
    Magnetometer,
}

/// Bus address of the accelerometer.
pub const ACCELEROMETER_ADDRESS: u8 = 0x19;

/// Bus address of the magnetometer.
pub const MAGNETOMETER_ADDRESS: u8 = 0x1e;

impl I2cTarget {
    /// The device's seven-bit bus address.
    pub fn address(&self) -> (r: u8)
        ensures
            r == if *self == I2cTarget::Accelerometer {
                ACCELEROMETER_ADDRESS
            } else {
                MAGNETOMETER_ADDRESS
            },
    {
        match self {
            I2cTarget::Accelerometer => ACCELEROMETER_ADDRESS,
            I2cTarget::Magnetometer => MAGNETOMETER_ADDRESS,
        }
    }
}

/// A transfer for the bus to perform: write the first `write_len` bytes of
/// `buffer` to `target`, then, when `read_len` is not zero, read `read_len`
/// bytes back into the start of `buffer`. The buffer belongs to the bus until
/// it is handed back to `command_complete`.
pub struct I2cTransfer {
    pub target: I2cTarget,
    pub buffer: Vec<u8>,
    pub write_len: usize,
    pub read_len: usize,
}

pub struct Lsm303agrI2C<C, N, T> {
    config_in_progress: bool,
    callback: Option<C>,
    state: Lsm303agrState,
    accel_scale: Lsm303agrScale,
    accel_high_resolution: bool,
    mag_data_rate: Lsm303agrMagnetoDataRate,
    accel_data_rate: Lsm303agrAccelDataRate,
    low_power: bool,
    temperature: bool,
    buffer: Option<Vec<u8>>,
    nine_dof_client: Option<N>,
    temperature_client: Option<T>,
}

/// The driver's state as seen by its callers: the operation in flight,
/// whether the configuration chain is running, the configuration, the
/// registered clients, and whether the driver holds its buffer (else the bus
/// has it).
pub struct Lsm303agrView<C, N, T> {
    pub config_in_progress: bool,
    pub state: Lsm303agrState,
    pub accel_scale: Lsm303agrScale,
    pub accel_high_resolution: bool,
    pub mag_data_rate: Lsm303agrMagnetoDataRate,
    pub accel_data_rate: Lsm303agrAccelDataRate,
    pub low_power: bool,
    pub temperature: bool,
    pub callback: Option<C>,
    pub nine_dof_client: Option<N>,
    pub temperature_client: Option<T>,
    pub holds_buffer: bool,
}

impl<C, N, T> View for Lsm303agrI2C<C, N, T> {
    type V = Lsm303agrView<C, N, T>;

    closed spec fn view(&self) -> Lsm303agrView<C, N, T> {
        Lsm303agrView {
            config_in_progress: self.config_in_progress,
            state: self.state,
            accel_scale: self.accel_scale,
            accel_high_resolution: self.accel_high_resolution,
            mag_data_rate: self.mag_data_rate,
            accel_data_rate: self.accel_data_rate,
            low_power: self.low_power,
            temperature: self.temperature,
            callback: self.callback,
            nine_dof_client: self.nine_dof_client,
            temperature_client: self.temperature_client,
            holds_buffer: self.buffer is Some,
        }
    }
}

/// A new driver: idle, holding its buffer, no client registered, 1 Hz normal
/// mode at 2 g, temperature sensor off, magnetometer at 10 Hz.
pub open spec fn initial_view<C, N, T>() -> Lsm303agrView<C, N, T> {
    Lsm303agrView {
        config_in_progress: false,
        state: Lsm303agrState::Idle,
        accel_scale: Lsm303agrScale::Scale2G,
        accel_high_resolution: false,
        mag_data_rate: Lsm303agrMagnetoDataRate::DataRate10Hz,
        accel_data_rate: Lsm303agrAccelDataRate::DataRate1Hz,
        low_power: false,
        temperature: false,
        callback: None,
        nine_dof_client: None,
        temperature_client: None,
        holds_buffer: true,
    }
}

/// The steps of the configuration chain.
pub open spec fn is_chain_step(s: Lsm303agrState) -> bool {
    s == Lsm303agrState::SetPowerMode || s == Lsm303agrState::SetScaleAndResolution || s
        == Lsm303agrState::SetTemperature || s == Lsm303agrState::SetMagDataRate
}

/// CTRL_REG1_A: data rate, low power enable, X, Y and Z enabled.
pub open spec fn ctrl_reg1_a(rate: Lsm303agrAccelDataRate, low_power: bool) -> u8 {
    (rate.spec_code() * 16 + if low_power {
        8int
    } else {
        0int
    } + 7) as u8
}

/// CTRL_REG4_A: block data update, full scale, high resolution.
pub open spec fn ctrl_reg4_a(scale: Lsm303agrScale, high_resolution: bool) -> u8 {
    (128 + scale.spec_code() * 16 + if high_resolution {
        8int
    } else {
        0int
    }) as u8
}

/// TEMP_CFG_REG_A: both temperature enable bits set or both clear.
pub open spec fn temp_cfg_reg_a(enabled: bool) -> u8 {
    if enabled {
        192
    } else {
        0
    }
}

/// CFG_REG_A_M: temperature compensation, data rate, continuous mode.
pub open spec fn cfg_reg_a_m(rate: Lsm303agrMagnetoDataRate) -> u8 {
    (128 + rate.spec_code() * 4) as u8
}

/// The bytes written for the operation `v.state`, under the configuration of `v`.
pub open spec fn frame<C, N, T>(v: Lsm303agrView<C, N, T>) -> Seq<u8> {
    match v.state {
        Lsm303agrState::IsPresent => seq![WHO_AM_I_A],
        Lsm303agrState::SetPowerMode => seq![
            CTRL_REG1_A,
            ctrl_reg1_a(v.accel_data_rate, v.low_power),
        ],
        Lsm303agrState::SetScaleAndResolution => seq![
            CTRL_REG4_A,
            ctrl_reg4_a(v.accel_scale, v.accel_high_resolution),
        ],
        Lsm303agrState::ReadAccelerationXYZ => seq![OUT_X_L_A | REGISTER_AUTO_INCREMENT],
        Lsm303agrState::SetTemperature => seq![TEMP_CFG_REG_A, temp_cfg_reg_a(v.temperature)],
        Lsm303agrState::SetMagDataRate => seq![
            CFG_REG_A_M,
            cfg_reg_a_m(v.mag_data_rate),
            CFG_REG_B_M_OFFSET_CANCELLATION,
        ],
        Lsm303agrState::ReadTemperature => seq![OUT_TEMP_L_A | REGISTER_AUTO_INCREMENT],
        Lsm303agrState::ReadMagnetometerXYZ => seq![OUTX_L_REG_M],
        Lsm303agrState::Idle => seq![],
    }
}

/// Number of bytes the operation reads back.
pub open spec fn read_len_of(s: Lsm303agrState) -> usize {
    match s {
        Lsm303agrState::IsPresent => 2,
        Lsm303agrState::ReadAccelerationXYZ => 6,
        Lsm303agrState::ReadTemperature => 2,
        Lsm303agrState::ReadMagnetometerXYZ => 6,
        _ => 0,
    }
}

/// The device the operation addresses.
pub open spec fn target_of(s: Lsm303agrState) -> I2cTarget {
    match s {
        Lsm303agrState::SetMagDataRate => I2cTarget::Magnetometer,
        Lsm303agrState::ReadTemperature => I2cTarget::Magnetometer,
        Lsm303agrState::ReadMagnetometerXYZ => I2cTarget::Magnetometer,
        _ => I2cTarget::Accelerometer,
    }
}

/// `v` with the operation `s` in flight and its buffer given to the bus.
pub open spec fn started<C, N, T>(v: Lsm303agrView<C, N, T>, s: Lsm303agrState) -> Lsm303agrView<C, N, T> {
    Lsm303agrView { state: s, holds_buffer: false, ..v }
}

/// `t` is the transfer that starts the operation of `after`.
pub open spec fn is_transfer<C, N, T>(t: I2cTransfer, after: Lsm303agrView<C, N, T>) -> bool {
    &&& t.target == target_of(after.state)
    &&& t.buffer@.len() == LSM303AGR_BUFFER_SIZE
    &&& t.write_len == frame(after).len()
    &&& t.buffer@.subrange(0, t.write_len as int) == frame(after)
    &&& t.read_len == read_len_of(after.state)
}

/// `r` is the result of asking for the operation of `after` from state
/// `before`: Busy with nothing changed when an operation is in flight, else
/// the transfer that starts it.
pub open spec fn admitted<C, N, T>(
    r: Result<I2cTransfer, ReturnCode>,
    before: Lsm303agrView<C, N, T>,
    now: Lsm303agrView<C, N, T>,
    after: Lsm303agrView<C, N, T>,
) -> bool {
    &&& before.state != Lsm303agrState::Idle ==> r == Err::<I2cTransfer, ReturnCode>(
        ReturnCode::Busy,
    ) && now == before
    &&& before.state == Lsm303agrState::Idle ==> r is Ok && now == after && is_transfer(
        r->Ok_0,
        after,
    )
}

/// Whether the completion of the operation of `v` starts the next step of
/// the configuration chain.
pub open spec fn chain_continues<C, N, T>(v: Lsm303agrView<C, N, T>) -> bool {
    v.config_in_progress && (v.state == Lsm303agrState::SetPowerMode || v.state
        == Lsm303agrState::SetScaleAndResolution || v.state == Lsm303agrState::SetTemperature)
}

/// The state after the operation of `v` completes, whatever the bus
/// reported: idle with the buffer back, then, while the configuration chain
/// runs, the next step started; the last step ends the chain.
pub open spec fn after_completion<C, N, T>(v: Lsm303agrView<C, N, T>) -> Lsm303agrView<C, N, T> {
    let idle = Lsm303agrView { state: Lsm303agrState::Idle, holds_buffer: true, ..v };
    if !v.config_in_progress {
        idle
    } else if v.state == Lsm303agrState::SetPowerMode {
        started(idle, Lsm303agrState::SetScaleAndResolution)
    } else if v.state == Lsm303agrState::SetScaleAndResolution {
        started(idle, Lsm303agrState::SetTemperature)
    } else if v.state == Lsm303agrState::SetTemperature {
        started(idle, Lsm303agrState::SetMagDataRate)
    } else {
        Lsm303agrView { config_in_progress: false, ..idle }
    }
}

/// The resolution mode the accelerometer samples in: 0 high resolution
/// (12 bits), 1 normal (10 bits), 2 low power (8 bits).
pub open spec fn accel_mode<C, N, T>(v: Lsm303agrView<C, N, T>) -> u8 {
    if v.accel_high_resolution {
        0
    } else if v.low_power {
        2
    } else {
        1
    }
}

/// The arguments of the generic callback when the operation of `v`
/// completes with buffer contents `b`, `ok` telling whether the bus reported
/// success.
pub open spec fn completion_args<C, N, T>(v: Lsm303agrView<C, N, T>, b: Seq<u8>, ok: bool) -> CallbackArgs {
    match v.state {
        Lsm303agrState::IsPresent => if ok && b[1] == LSM303AGR_WHO_AM_I_A {
            CallbackArgs { data1: 1, data2: b[1] as i32, data3: 0 }
        } else {
            zero_args()
        },
        Lsm303agrState::ReadAccelerationXYZ => if ok {
            CallbackArgs {
                data1: accel_aligned_of(le_sample(b, 0), accel_mode(v)) as i32,
                data2: accel_aligned_of(le_sample(b, 2), accel_mode(v)) as i32,
                data3: accel_aligned_of(le_sample(b, 4), accel_mode(v)) as i32,
            }
        } else {
            zero_args()
        },
        Lsm303agrState::ReadTemperature => if ok {
            CallbackArgs {
                data1: temperature_aligned_of(be_sample(b, 0)) as i32,
                data2: 0,
                data3: 0,
            }
        } else {
            zero_args()
        },
        Lsm303agrState::ReadMagnetometerXYZ => if ok {
            CallbackArgs {
                data1: be_sample(b, 0) as i32,
                data2: be_sample(b, 4) as i32,
                data3: be_sample(b, 2) as i32,
            }
        } else {
            zero_args()
        },
        _ => CallbackArgs {
            data1: if ok {
                1
            } else {
                0
            },
            data2: 0,
            data3: 0,
        },
    }
}

/// The reading a completed acceleration (milli-g) or magnetic field
/// (milli-gauss) read reports to the motion client.
pub open spec fn motion_reading<C, N, T>(v: Lsm303agrView<C, N, T>, b: Seq<u8>, ok: bool) -> Xyz {
    if !ok {
        zero_xyz()
    } else if v.state == Lsm303agrState::ReadAccelerationXYZ {
        Xyz {
            x: accel_mg_of(le_sample(b, 0), accel_mode(v), v.accel_scale.spec_code()) as i32,
            y: accel_mg_of(le_sample(b, 2), accel_mode(v), v.accel_scale.spec_code()) as i32,
            z: accel_mg_of(le_sample(b, 4), accel_mode(v), v.accel_scale.spec_code()) as i32,
        }
    } else {
        Xyz {
            x: mag_mgauss_of(be_sample(b, 0) as int) as i32,
            y: mag_mgauss_of(be_sample(b, 4) as int) as i32,
            z: mag_mgauss_of(be_sample(b, 2) as int) as i32,
        }
    }
}

/// The temperature, in degrees Celsius, that a completed temperature read
/// reports to the temperature client.
pub open spec fn temperature_reading(b: Seq<u8>, ok: bool) -> i32 {
    if ok {
        temperature_celsius_of(temperature_aligned_of(be_sample(b, 0)) as int) as i32
    } else {
        0
    }
}

/// `d` is what the completion of the operation of `v` hands out: the generic
/// callback for any operation, the motion client after an axis read, the
/// temperature client after a temperature read; nothing when no operation
/// was in flight.
pub open spec fn delivered<C, N, T>(
    d: Deliveries<C, N, T>,
    v: Lsm303agrView<C, N, T>,
    b: Seq<u8>,
    ok: bool,
) -> bool {
    &&& d.callback == if v.state == Lsm303agrState::Idle {
        None
    } else {
        with_client(v.callback, completion_args(v, b, ok))
    }
    &&& d.nine_dof == if v.state == Lsm303agrState::ReadAccelerationXYZ || v.state
        == Lsm303agrState::ReadMagnetometerXYZ {
        with_client(v.nine_dof_client, motion_reading(v, b, ok))
    } else {
        None
    }
    &&& d.temperature == if v.state == Lsm303agrState::ReadTemperature {
        with_client(v.temperature_client, temperature_reading(b, ok))
    } else {
        None
    }
}

impl<C: Copy, N: Copy, T: Copy> Lsm303agrI2C<C, N, T> {
    /// The buffer is with the driver exactly when it is idle and has its full
    /// size, and the configuration chain runs only through its own steps.
    pub closed spec fn wf(&self) -> bool {
        &&& (self.state == Lsm303agrState::Idle <==> self.buffer is Some)
        &&& (self.buffer matches Some(b) ==> b@.len() == LSM303AGR_BUFFER_SIZE)
        &&& (self.config_in_progress ==> is_chain_step(self.state))
    }

    pub fn new(buffer: Vec<u8>) -> (r: Self)
        requires
            buffer@.len() == LSM303AGR_BUFFER_SIZE,
        ensures
            r.wf(),
            r@ == initial_view::<C, N, T>(),
    {
        Lsm303agrI2C {
            config_in_progress: false,
            callback: None,
            state: Lsm303agrState::Idle,
            accel_scale: Lsm303agrScale::Scale2G,
            accel_high_resolution: false,
            mag_data_rate: Lsm303agrMagnetoDataRate::DataRate10Hz,
            accel_data_rate: Lsm303agrAccelDataRate::DataRate1Hz,
            low_power: false,
            temperature: false,
            buffer: Some(buffer),
            nine_dof_client: None,
            temperature_client: None,
        }
    }

    pub fn is_idle(&self) -> (r: bool)
        ensures
            r == (self@.state == Lsm303agrState::Idle),
    {
        match self.state {
            Lsm303agrState::Idle => true,
            _ => false,
        }
    }

    /// The accelerometer's resolution mode under the current configuration.
    pub fn get_accel_mode(&self) -> (r: u8)
        ensures
            r == accel_mode(self@),
            r < 3,
    {
        if self.accel_high_resolution {
            0
        } else if self.low_power {
            2
        } else {
            1
        }
    }

    /// Records the operation `s` and builds its transfer from the current
    /// configuration.
    fn start(&mut self, s: Lsm303agrState) -> (t: I2cTransfer)
        requires
            old(self).state == Lsm303agrState::Idle,
            old(self).buffer matches Some(b) && b@.len() == LSM303AGR_BUFFER_SIZE,
            s != Lsm303agrState::Idle,
            old(self).config_in_progress ==> is_chain_step(s),
        ensures
            final(self).wf(),
            final(self)@ == started(old(self)@, s),
            is_transfer(t, final(self)@),
    {
        let mut buf = self.buffer.take().unwrap();
        let (target, write_len, read_len) = match s {
            Lsm303agrState::IsPresent => {
                buf[0] = WHO_AM_I_A;
                (I2cTarget::Accelerometer, 1usize, 2usize)
            },
            Lsm303agrState::SetPowerMode => {
                buf[0] = CTRL_REG1_A;
                buf[1] = self.accel_data_rate.code() * 16 + if self.low_power {
                    8
                } else {
                    0
                } + 7;
                (I2cTarget::Accelerometer, 2, 0)
            },
            Lsm303agrState::SetScaleAndResolution => {
                buf[0] = CTRL_REG4_A;
                buf[1] = 128 + self.accel_scale.code() * 16 + if self.accel_high_resolution {
                    8
                } else {
                    0
                };
                (I2cTarget::Accelerometer, 2, 0)
            },
            Lsm303agrState::ReadAccelerationXYZ => {
                buf[0] = OUT_X_L_A | REGISTER_AUTO_INCREMENT;
                (I2cTarget::Accelerometer, 1, 6)
            },
            Lsm303agrState::SetTemperature => {
                buf[0] = TEMP_CFG_REG_A;
                buf[1] = if self.temperature {
                    192
                } else {
                    0
                };
                (I2cTarget::Accelerometer, 2, 0)
            },
            Lsm303agrState::SetMagDataRate => {
                buf[0] = CFG_REG_A_M;
                buf[1] = 128 + self.mag_data_rate.code() * 4;
                buf[2] = CFG_REG_B_M_OFFSET_CANCELLATION;
                (I2cTarget::Magnetometer, 3, 0)
            },
            Lsm303agrState::ReadTemperature => {
                buf[0] = OUT_TEMP_L_A | REGISTER_AUTO_INCREMENT;
                (I2cTarget::Magnetometer, 1, 2)
            },
            _ => {
                buf[0] = OUTX_L_REG_M;
                (I2cTarget::Magnetometer, 1, 6)
            },
        };
        self.state = s;
        assert(buf@.subrange(0, write_len as int) =~= frame(self@));
        I2cTransfer { target, buffer: buf, write_len, read_len }
    }

    /// Checks that the accelerometer is present by reading its identity register.
    pub fn is_present(&mut self) -> (r: Result<I2cTransfer, ReturnCode>)
        requires
            old(self).wf(),
        ensures
            final(self).wf(),
            admitted(r, old(self)@, final(self)@, started(old(self)@, Lsm303agrState::IsPresent)),
    {
        if !self.is_idle() {
            return Err(ReturnCode::Busy);
        }
        Ok(self.start(Lsm303agrState::IsPresent))
    }

    /// Sets the accelerometer data rate and low power mode, with all three
    /// axes enabled.
    pub fn set_power_mode(&mut self, data_rate: Lsm303agrAccelDataRate, low_power: bool) -> (r:
        Result<I2cTransfer, ReturnCode>)
        requires
            old(self).wf(),
        ensures
            final(self).wf(),
            admitted(
                r,
                old(self)@,
                final(self)@,
                started(
                    Lsm303agrView { accel_data_rate: data_rate, low_power, ..old(self)@ },
                    Lsm303agrState::SetPowerMode,
                ),
            ),
    {
        if !self.is_idle() {
            return Err(ReturnCode::Busy);
        }
        self.accel_data_rate = data_rate;
        self.low_power = low_power;
        Ok(self.start(Lsm303agrState::SetPowerMode))
    }

    /// Sets the accelerometer full scale and high resolution mode.
    pub fn set_scale_and_resolution(&mut self, scale: Lsm303agrScale, high_resolution: bool) -> (r:
        Result<I2cTransfer, ReturnCode>)
        requires
            old(self).wf(),
        ensures
            final(self).wf(),
            admitted(
                r,
                old(self)@,
                final(self)@,
                started(
                    Lsm303agrView {
                        accel_scale: scale,
                        accel_high_resolution: high_resolution,
                        ..old(self)@
                    },
                    Lsm303agrState::SetScaleAndResolution,
                ),
            ),
    {
        if !self.is_idle() {
            return Err(ReturnCode::Busy);
        }
        self.accel_scale = scale;
        self.accel_high_resolution = high_resolution;
        Ok(self.start(Lsm303agrState::SetScaleAndResolution))
    }

    /// Reads the three acceleration samples.
    pub fn read_acceleration_xyz(&mut self) -> (r: Result<I2cTransfer, ReturnCode>)
        requires
            old(self).wf(),
        ensures
            final(self).wf(),
            admitted(
                r,
                old(self)@,
                final(self)@,
                started(old(self)@, Lsm303agrState::ReadAccelerationXYZ),
            ),
    {
        if !self.is_idle() {
            return Err(ReturnCode::Busy);
        }
        Ok(self.start(Lsm303agrState::ReadAccelerationXYZ))
    }

    /// Enables or disables the temperature sensor.
    pub fn set_temperature(&mut self, temperature: bool) -> (r: Result<I2cTransfer, ReturnCode>)
        requires
            old(self).wf(),
        ensures
            final(self).wf(),
            admitted(
                r,
                old(self)@,
                final(self)@,
                started(Lsm303agrView { temperature, ..old(self)@ }, Lsm303agrState::SetTemperature),
            ),
    {
        if !self.is_idle() {
            return Err(ReturnCode::Busy);
        }
        self.temperature = temperature;
        Ok(self.start(Lsm303agrState::SetTemperature))
    }

    /// Sets the magnetometer data rate, in continuous mode with temperature
    /// compensation and offset cancellation.
    pub fn set_magneto_data_rate(&mut self, data_rate: Lsm303agrMagnetoDataRate) -> (r: Result<
        I2cTransfer,
        ReturnCode,
    >)
        requires
            old(self).wf(),
        ensures
            final(self).wf(),
            admitted(
                r,
                old(self)@,
                final(self)@,
                started(
                    Lsm303agrView { mag_data_rate: data_rate, ..old(self)@ },
                    Lsm303agrState::SetMagDataRate,
                ),
            ),
    {
        if !self.is_idle() {
            return Err(ReturnCode::Busy);
        }
        self.mag_data_rate = data_rate;
        Ok(self.start(Lsm303agrState::SetMagDataRate))
    }

    /// Reads the temperature sample.
    pub fn read_temperature(&mut self) -> (r: Result<I2cTransfer, ReturnCode>)
        requires
            old(self).wf(),
        ensures
            final(self).wf(),
            admitted(
                r,
                old(self)@,
                final(self)@,
                started(old(self)@, Lsm303agrState::ReadTemperature),
            ),
    {
        if !self.is_idle() {
            return Err(ReturnCode::Busy);
        }
        Ok(self.start(Lsm303agrState::ReadTemperature))
    }

    /// Reads the three magnetic field samples.
    pub fn read_magnetometer_xyz(&mut self) -> (r: Result<I2cTransfer, ReturnCode>)
        requires
            old(self).wf(),
        ensures
            final(self).wf(),
            admitted(
                r,
                old(self)@,
                final(self)@,
                started(old(self)@, Lsm303agrState::ReadMagnetometerXYZ),
            ),
    {
        if !self.is_idle() {
            return Err(ReturnCode::Busy);
        }
        Ok(self.start(Lsm303agrState::ReadMagnetometerXYZ))
    }

    /// Starts an acceleration read on behalf of the motion client.
    pub fn read_accelerometer(&mut self) -> (r: Result<I2cTransfer, ReturnCode>)
        requires
            old(self).wf(),
        ensures
            final(self).wf(),
            admitted(
                r,
                old(self)@,
                final(self)@,
                started(old(self)@, Lsm303agrState::ReadAccelerationXYZ),
            ),
    {
        self.read_acceleration_xyz()
    }

    /// Starts a magnetic field read on behalf of the motion client.
    pub fn read_magnetometer(&mut self) -> (r: Result<I2cTransfer, ReturnCode>)
        requires
            old(self).wf(),
        ensures
            final(self).wf(),
            admitted(
                r,
                old(self)@,
                final(self)@,
                started(old(self)@, Lsm303agrState::ReadMagnetometerXYZ),
            ),
    {
        self.read_magnetometer_xyz()
    }

    /// Records the whole configuration and starts the configuration chain
    /// with its first step, the power mode. Each completion of a step starts
    /// the next: scale and resolution, temperature enable, magnetometer rate.
    pub fn configure(
        &mut self,
        accel_data_rate: Lsm303agrAccelDataRate,
        low_power: bool,
        accel_scale: Lsm303agrScale,
        accel_high_resolution: bool,
        temperature: bool,
        mag_data_rate: Lsm303agrMagnetoDataRate,
    ) -> (r: Result<I2cTransfer, ReturnCode>)
        requires
            old(self).wf(),
        ensures
            final(self).wf(),
            admitted(
                r,
                old(self)@,
                final(self)@,
                configured(
                    old(self)@,
                    accel_data_rate,
                    low_power,
                    accel_scale,
                    accel_high_resolution,
                    temperature,
                    mag_data_rate,
                ),
            ),
    {
        if !self.is_idle() {
            return Err(ReturnCode::Busy);
        }
        self.config_in_progress = true;
        self.accel_scale = accel_scale;
        self.accel_high_resolution = accel_high_resolution;
        self.low_power = low_power;
        self.temperature = temperature;
        self.mag_data_rate = mag_data_rate;
        self.accel_data_rate = accel_data_rate;
        Ok(self.start(Lsm303agrState::SetPowerMode))
    }

    /// Registers the motion client, replacing any earlier one.
    pub fn set_nine_dof_client(&mut self, client: N)
        requires
            old(self).wf(),
        ensures
            final(self).wf(),
            final(self)@ == (Lsm303agrView { nine_dof_client: Some(client), ..old(self)@ }),
    {
        self.nine_dof_client = Some(client);
    }

    /// Registers the temperature client, replacing any earlier one.
    pub fn set_temperature_client(&mut self, client: T)
        requires
            old(self).wf(),
        ensures
            final(self).wf(),
            final(self)@ == (Lsm303agrView { temperature_client: Some(client), ..old(self)@ }),
    {
        self.temperature_client = Some(client);
    }

    /// Sets (subscribe number 0) the one-shot callback, replacing the one held
    /// before; `None` clears it.
    pub fn subscribe(&mut self, subscribe_num: usize, callback: Option<C>) -> (r: ReturnCode)
        requires
            old(self).wf(),
        ensures
            final(self).wf(),
            subscribe_num == 0 ==> r == ReturnCode::Success && final(self)@ == (Lsm303agrView {
                callback,
                ..old(self)@
            }),
            subscribe_num != 0 ==> r == ReturnCode::Unsupported && final(self)@ == old(self)@,
    {
        if subscribe_num == 0 {
            self.callback = callback;
            ReturnCode::Success
        } else {
            ReturnCode::Unsupported
        }
    }

    /// Dispatches a command number with its two arguments. A started
    /// operation comes back with `Success` and the transfer to perform.
    pub fn command(&mut self, command_num: usize, data1: usize, data2: usize) -> (r: (
        ReturnCode,
        Option<I2cTransfer>,
    ))
        requires
            old(self).wf(),
        ensures
            final(self).wf(),
            r.0 != ReturnCode::Success || command_num == 0 <==> r.1 is None,
            command_num == 0 ==> r.0 == ReturnCode::Success && final(self)@ == old(self)@,
            command_num > 8 ==> r.0 == ReturnCode::Unsupported && final(self)@ == old(self)@,
            1 <= command_num <= 8 && old(self)@.state != Lsm303agrState::Idle ==> r.0
                == ReturnCode::Busy && final(self)@ == old(self)@,
            old(self)@.state == Lsm303agrState::Idle && invalid_argument(command_num, data1) ==> r.0
                == ReturnCode::InvalidArgument && final(self)@ == old(self)@,
            1 <= command_num <= 8 && old(self)@.state == Lsm303agrState::Idle && !invalid_argument(
                command_num,
                data1,
            ) ==> r.0 == ReturnCode::Success && final(self)@ == command_target(
                old(self)@,
                command_num,
                data1,
                data2,
            ) && is_transfer(r.1->0, final(self)@),
    {
        let res = match command_num {
            0 => {
                return (ReturnCode::Success, None);
            },
            1 => self.is_present(),
            2 => {
                if !self.is_idle() {
                    Err(ReturnCode::Busy)
                } else {
                    match Lsm303agrAccelDataRate::from_usize(data1) {
                        Some(data_rate) => self.set_power_mode(data_rate, data2 != 0),
                        None => Err(ReturnCode::InvalidArgument),
                    }
                }
            },
            3 => {
                if !self.is_idle() {
                    Err(ReturnCode::Busy)
                } else {
                    match Lsm303agrScale::from_usize(data1) {
                        Some(scale) => self.set_scale_and_resolution(scale, data2 != 0),
                        None => Err(ReturnCode::InvalidArgument),
                    }
                }
            },
            4 => self.set_temperature(data1 != 0),
            5 => {
                if !self.is_idle() {
                    Err(ReturnCode::Busy)
                } else {
                    match Lsm303agrMagnetoDataRate::from_usize(data1) {
                        Some(data_rate) => self.set_magneto_data_rate(data_rate),
                        None => Err(ReturnCode::InvalidArgument),
                    }
                }
            },
            6 => self.read_acceleration_xyz(),
            7 => self.read_temperature(),
            8 => self.read_magnetometer_xyz(),
            _ => {
                return (ReturnCode::Unsupported, None);
            },
        };
        match res {
            Ok(t) => (ReturnCode::Success, Some(t)),
            Err(e) => (e, None),
        }
    }

    /// Decodes an acceleration response: the aligned samples for the generic
    /// callback and the readings in milli-g for the motion client.
    fn decode_acceleration(&self, b: &Vec<u8>) -> (r: (CallbackArgs, Xyz))
        requires
            b@.len() == LSM303AGR_BUFFER_SIZE,
        ensures
            r.0 == completion_args(
                Lsm303agrView { state: Lsm303agrState::ReadAccelerationXYZ, ..self@ },
                b@,
                true,
            ),
            r.1 == motion_reading(
                Lsm303agrView { state: Lsm303agrState::ReadAccelerationXYZ, ..self@ },
                b@,
                true,
            ),
    {
        let mode = self.get_accel_mode();
        let scale = self.accel_scale.code();
        let x = decode_i16(b[0], b[1]);
        let y = decode_i16(b[2], b[3]);
        let z = decode_i16(b[4], b[5]);
        (
            CallbackArgs::new(
                accel_aligned(x, mode) as i32,
                accel_aligned(y, mode) as i32,
                accel_aligned(z, mode) as i32,
            ),
            Xyz { x: accel_mg(x, mode, scale), y: accel_mg(y, mode, scale), z: accel_mg(z, mode, scale) },
        )
    }

    /// Decodes a magnetic field response: the raw samples for the generic
    /// callback and the readings in milli-gauss for the motion client. The
    /// response holds X, Z, Y in that order.
    fn decode_magnetic_field(&self, b: &Vec<u8>) -> (r: (CallbackArgs, Xyz))
        requires
            b@.len() == LSM303AGR_BUFFER_SIZE,
        ensures
            r.0 == completion_args(
                Lsm303agrView { state: Lsm303agrState::ReadMagnetometerXYZ, ..self@ },
                b@,
                true,
            ),
            r.1 == motion_reading(
                Lsm303agrView { state: Lsm303agrState::ReadMagnetometerXYZ, ..self@ },
                b@,
                true,
            ),
    {
        let x = decode_i16(b[1], b[0]);
        let z = decode_i16(b[3], b[2]);
        let y = decode_i16(b[5], b[4]);
        (
            CallbackArgs::new(x as i32, y as i32, z as i32),
            Xyz { x: mag_mgauss(x), y: mag_mgauss(y), z: mag_mgauss(z) },
        )
    }

    /// Takes back the buffer of the finished transfer and returns the driver
    /// to idle, then, while the configuration chain runs, starts its next
    /// step whatever the bus reported. Says what to deliver: the decoded
    /// response when the bus reported success, zeros when it did not; and
    /// the transfer of the next chain step, if one was started.
    pub fn command_complete(&mut self, buffer: Vec<u8>, error: I2cError) -> (r: (
        Deliveries<C, N, T>,
        Option<I2cTransfer>,
    ))
        requires
            old(self).wf(),
            buffer@.len() == LSM303AGR_BUFFER_SIZE,
        ensures
            final(self).wf(),
            final(self)@ == after_completion(old(self)@),
            !chain_continues(old(self)@) ==> final(self)@.state == Lsm303agrState::Idle,
            r.1 is Some <==> chain_continues(old(self)@),
            r.1 matches Some(t) ==> is_transfer(t, final(self)@),
            delivered(r.0, old(self)@, buffer@, error == I2cError::CommandComplete),
            error != I2cError::CommandComplete ==> {
                &&& (r.0.callback matches Some(c) ==> c.1 == zero_args())
                &&& (r.0.nine_dof matches Some(n) ==> n.1 == zero_xyz())
                &&& (r.0.temperature matches Some(t) ==> t.1 == 0)
            },
    {
        let state = self.state;
        let ok = error == I2cError::CommandComplete;
        let mut args = CallbackArgs::zero();
        let mut nine_dof = None;
        let mut temperature = None;
        match state {
            Lsm303agrState::Idle => {},
            Lsm303agrState::IsPresent => {
                if ok && buffer[1] == LSM303AGR_WHO_AM_I_A {
                    args = CallbackArgs::new(1, buffer[1] as i32, 0);
                }
            },
            Lsm303agrState::ReadAccelerationXYZ => {
                let mut reading = Xyz::zero();
                if ok {
                    let (a, m) = self.decode_acceleration(&buffer);
                    args = a;
                    reading = m;
                }
                nine_dof = deliver_to(&self.nine_dof_client, reading);
            },
            Lsm303agrState::ReadMagnetometerXYZ => {
                let mut reading = Xyz::zero();
                if ok {
                    let (a, m) = self.decode_magnetic_field(&buffer);
                    args = a;
                    reading = m;
                }
                nine_dof = deliver_to(&self.nine_dof_client, reading);
            },
            Lsm303agrState::ReadTemperature => {
                let mut reading: i32 = 0;
                if ok {
                    let aligned = temperature_aligned(decode_i16(buffer[1], buffer[0]));
                    args = CallbackArgs::new(aligned as i32, 0, 0);
                    reading = temperature_celsius(aligned);
                }
                temperature = deliver_to(&self.temperature_client, reading);
            },
            _ => {
                args = CallbackArgs::new(
                    if ok {
                        1
                    } else {
                        0
                    },
                    0,
                    0,
                );
            },
        }
        let callback = match state {
            Lsm303agrState::Idle => None,
            _ => deliver_to(&self.callback, args),
        };
        self.buffer = Some(buffer);
        self.state = Lsm303agrState::Idle;
        let next = if self.config_in_progress {
            match state {
                Lsm303agrState::SetPowerMode => Some(
                    self.start(Lsm303agrState::SetScaleAndResolution),
                ),
                Lsm303agrState::SetScaleAndResolution => Some(
                    self.start(Lsm303agrState::SetTemperature),
                ),
                Lsm303agrState::SetTemperature => Some(self.start(Lsm303agrState::SetMagDataRate)),
                _ => {
                    self.config_in_progress = false;
                    None
                },
            }
        } else {
            None
        };
        (Deliveries { callback, nine_dof, temperature }, next)
    }
}

/// Whether the command's first argument fails to select a defined
/// configuration value.
pub open spec fn invalid_argument(command_num: usize, data1: usize) -> bool {
    (command_num == 2 && data1 >= 10) || (command_num == 3 && data1 >= 4) || (command_num == 5
        && data1 >= 4)
}

/// The state a command that starts an operation leads to from `v`.
pub open spec fn command_target<C, N, T>(
    v: Lsm303agrView<C, N, T>,
    command_num: usize,
    data1: usize,
    data2: usize,
) -> Lsm303agrView<C, N, T> {
    if command_num == 1 {
        started(v, Lsm303agrState::IsPresent)
    } else if command_num == 2 {
        started(
            Lsm303agrView {
                accel_data_rate: Lsm303agrAccelDataRate::spec_from_code(data1)->0,
                low_power: data2 != 0,
                ..v
            },
            Lsm303agrState::SetPowerMode,
        )
    } else if command_num == 3 {
        started(
            Lsm303agrView {
                accel_scale: Lsm303agrScale::spec_from_code(data1)->0,
                accel_high_resolution: data2 != 0,
                ..v
            },
            Lsm303agrState::SetScaleAndResolution,
        )
    } else if command_num == 4 {
        started(Lsm303agrView { temperature: data1 != 0, ..v }, Lsm303agrState::SetTemperature)
    } else if command_num == 5 {
        started(
            Lsm303agrView {
                mag_data_rate: Lsm303agrMagnetoDataRate::spec_from_code(data1)->0,
                ..v
            },
            Lsm303agrState::SetMagDataRate,
        )
    } else if command_num == 6 {
        started(v, Lsm303agrState::ReadAccelerationXYZ)
    } else if command_num == 7 {
        started(v, Lsm303agrState::ReadTemperature)
    } else {
        started(v, Lsm303agrState::ReadMagnetometerXYZ)
    }
}

/// The state `configure` leads to from an idle `v`: the whole configuration
/// recorded, the chain running, its first step started.
pub open spec fn configured<C, N, T>(
    v: Lsm303agrView<C, N, T>,
    accel_data_rate: Lsm303agrAccelDataRate,
    low_power: bool,
    accel_scale: Lsm303agrScale,
    accel_high_resolution: bool,
    temperature: bool,
    mag_data_rate: Lsm303agrMagnetoDataRate,
) -> Lsm303agrView<C, N, T> {
    started(
        Lsm303agrView {
            config_in_progress: true,
            accel_scale,
            accel_high_resolution,
            low_power,
            temperature,
            mag_data_rate,
            accel_data_rate,
            ..v
        },
        Lsm303agrState::SetPowerMode,
    )
}

/// Configuration runs as four transfers in a fixed order. From an idle
/// driver, `configure` starts the power mode step; the completion of each
/// step, whatever the bus reported for it, starts the next with the
/// configured values: scale and resolution, then temperature enable, then
/// magnetometer data rate. The completion of the fourth starts nothing and
/// leaves the driver idle with the chain over and the configuration recorded.
pub proof fn lemma_configuration_chain<C, N, T>(
    v: Lsm303agrView<C, N, T>,
    accel_data_rate: Lsm303agrAccelDataRate,
    low_power: bool,
    accel_scale: Lsm303agrScale,
    accel_high_resolution: bool,
    temperature: bool,
    mag_data_rate: Lsm303agrMagnetoDataRate,
)
    requires
        v.state == Lsm303agrState::Idle,
    ensures
        ({
            let s1 = configured(
                v,
                accel_data_rate,
                low_power,
                accel_scale,
                accel_high_resolution,
                temperature,
                mag_data_rate,
            );
            let s2 = after_completion(s1);
            let s3 = after_completion(s2);
            let s4 = after_completion(s3);
            let s5 = after_completion(s4);
            &&& s1.state == Lsm303agrState::SetPowerMode
            &&& frame(s1) == seq![CTRL_REG1_A, ctrl_reg1_a(accel_data_rate, low_power)]
            &&& chain_continues(s1)
            &&& s2.state == Lsm303agrState::SetScaleAndResolution
            &&& frame(s2) == seq![CTRL_REG4_A, ctrl_reg4_a(accel_scale, accel_high_resolution)]
            &&& chain_continues(s2)
            &&& s3.state == Lsm303agrState::SetTemperature
            &&& frame(s3) == seq![TEMP_CFG_REG_A, temp_cfg_reg_a(temperature)]
            &&& chain_continues(s3)
            &&& s4.state == Lsm303agrState::SetMagDataRate
            &&& frame(s4) == seq![
                CFG_REG_A_M,
                cfg_reg_a_m(mag_data_rate),
                CFG_REG_B_M_OFFSET_CANCELLATION,
            ]
            &&& !chain_continues(s4)
            &&& s5 == (Lsm303agrView {
                config_in_progress: false,
                state: Lsm303agrState::Idle,
                accel_scale,
                accel_high_resolution,
                mag_data_rate,
                accel_data_rate,
                low_power,
                temperature,
                holds_buffer: true,
                ..v
            })
        }),
{
}

} // verus!
