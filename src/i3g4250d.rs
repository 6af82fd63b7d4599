//! Driver for the I3G4250D three-axis gyroscope and temperature sensor on a
//! SPI bus.
//!
//! Commands (`command`):
//! - `0`: succeeds, does nothing.
//! - `1`: identity check; the callback gets 1 and the identity byte when the
//!   device answers with the expected identity, 0 otherwise.
//! - `2`: power on.
//! - `3`: set the full scale, `data1` 0 (245 dps), 1 (500 dps) or 2 (2000 dps).
//! - `4`: enable (`data1 == 1`) or disable the high pass filter.
//! - `5`: set the high pass filter mode (`data1`) and divider (`data2`).
//! - `6`: read the three axes; the callback gets the raw X, Y and Z samples.
//! - `7`: read the temperature; the callback gets the raw sample.
//!
//! Subscribe number 0 sets the one-shot callback that every completion calls.
use vstd::prelude::*;

use crate::codec::{
    decode_i16, decode_i8, gyro_rate, gyro_rate_of, gyro_temperature, gyro_temperature_of, i16_of,
    i8_of,
};
use crate::driver::{
    deliver_to, with_client, zero_args, zero_xyz, CallbackArgs, Deliveries, ReturnCode, Xyz,
};

verus! {

pub const I3G4250D_TX_SIZE: usize = 10;

pub const I3G4250D_RX_SIZE: usize = 10;

/// Identity byte the device answers with.
pub const I3G4250D_WHO_AM_I: u8 = 0xD3;

pub const I3G4250D_REG_WHO_AM_I: u8 = 0x0F;

pub const I3G4250D_REG_CTRL_REG1: u8 = 0x20;

pub const I3G4250D_REG_CTRL_REG2: u8 = 0x21;

pub const I3G4250D_REG_CTRL_REG4: u8 = 0x23;

pub const I3G4250D_REG_CTRL_REG5: u8 = 0x24;

pub const I3G4250D_REG_OUT_TEMP: u8 = 0x26;

pub const I3G4250D_REG_OUT_X_L: u8 = 0x28;

/// Address bit that marks a register read.
pub const I3G4250D_READ: u8 = 0x80;

/// Address bit that makes the device step through consecutive registers.
pub const I3G4250D_AUTO_INCREMENT: u8 = 0x40;

/// Value written to CTRL_REG1 on power on: normal mode, all axes enabled.
pub const I3G4250D_POWER_ON: u8 = 0x0F;

/// The operation in flight.
#[derive(Clone, Copy, Debug, PartialEq, Eq, Structural)]
pub enum I3g4250dStatus {
    Idle,
    IsPresent,
    PowerOn,
    EnableHpf,
    SetHpfParameters,
    SetScale,
    ReadXYZ,
    ReadTemperature,
}

#[derive(Clone, Copy, Debug, PartialEq, Eq, Structural)]
pub enum ClockPolarity {
    IdleLow,
    IdleHigh,
}

#[derive(Clone, Copy, Debug, PartialEq, Eq, Structural)]
pub enum ClockPhase {
    SampleLeading,
    SampleTrailing,
}

/// Settings the SPI bus must run with for this device.
#[derive(Clone, Copy, Debug, PartialEq, Eq, Structural)]
pub struct SpiConfiguration {
    pub polarity: ClockPolarity,
    pub phase: ClockPhase,
    pub rate: u32,
}

/// A full-duplex transfer for the bus to perform: `len` bytes of `write` go
/// out while as many come back into `read`, when there is one. Both buffers
/// belong to the bus until they are handed back to `read_write_done`.
pub struct SpiTransfer {
    pub write: Vec<u8>,
    pub read: Option<Vec<u8>>,
    pub len: usize,
}

pub struct I3g4250dSpi<C, N, T> {
    txbuffer: Option<Vec<u8>>,
    rxbuffer: Option<Vec<u8>>,
    status: I3g4250dStatus,
    hpf_enabled: bool,
    hpf_mode: u8,
    hpf_divider: u8,
    scale: u8,
    callback: Option<C>,
    nine_dof_client: Option<N>,
    temperature_client: Option<T>,
}

/// The driver's state as seen by its callers: the operation in flight, the
/// configuration, the registered clients, and which buffers the driver holds
/// (the others are with the bus).
pub struct I3g4250dView<C, N, T> {
    pub status: I3g4250dStatus,
    pub hpf_enabled: bool,
    pub hpf_mode: u8,
    pub hpf_divider: u8,
    pub scale: u8,
    pub callback: Option<C>,
    pub nine_dof_client: Option<N>,
    pub temperature_client: Option<T>,
    pub holds_tx: bool,
    pub holds_rx: bool,
}

impl<C, N, T> View for I3g4250dSpi<C, N, T> {
    type V = I3g4250dView<C, N, T>;

    closed spec fn view(&self) -> I3g4250dView<C, N, T> {
        I3g4250dView {
            status: self.status,
            hpf_enabled: self.hpf_enabled,
            hpf_mode: self.hpf_mode,
            hpf_divider: self.hpf_divider,
            scale: self.scale,
            callback: self.callback,
            nine_dof_client: self.nine_dof_client,
            temperature_client: self.temperature_client,
            holds_tx: self.txbuffer is Some,
            holds_rx: self.rxbuffer is Some,
        }
    }
}

/// A new driver: idle, holding both buffers, no client registered, filter
/// off, scale code 0.
pub open spec fn initial_view<C, N, T>() -> I3g4250dView<C, N, T> {
    I3g4250dView {
        status: I3g4250dStatus::Idle,
        hpf_enabled: false,
        hpf_mode: 0,
        hpf_divider: 0,
        scale: 0,
        callback: None,
        nine_dof_client: None,
        temperature_client: None,
        holds_tx: true,
        holds_rx: true,
    }
}

/// The low byte of a command argument.
pub open spec fn low_byte(d: usize) -> u8 {
    (d % 256) as u8
}

/// Whether the operation reads registers back, and so needs the receive buffer.
pub open spec fn status_reads(s: I3g4250dStatus) -> bool {
    s == I3g4250dStatus::IsPresent || s == I3g4250dStatus::ReadXYZ || s
        == I3g4250dStatus::ReadTemperature
}

/// The bytes sent for the operation `v.status`, under the configuration of `v`.
pub open spec fn frame<C, N, T>(v: I3g4250dView<C, N, T>) -> Seq<u8> {
    match v.status {
        I3g4250dStatus::IsPresent => seq![I3G4250D_REG_WHO_AM_I | I3G4250D_READ, 0u8],
        I3g4250dStatus::PowerOn => seq![I3G4250D_REG_CTRL_REG1, I3G4250D_POWER_ON],
        I3g4250dStatus::EnableHpf => seq![
            I3G4250D_REG_CTRL_REG5,
            if v.hpf_enabled {
                16u8
            } else {
                0u8
            },
        ],
        I3g4250dStatus::SetHpfParameters => seq![
            I3G4250D_REG_CTRL_REG2,
            ((v.hpf_mode % 4) * 16 + v.hpf_divider % 16) as u8,
        ],
        I3g4250dStatus::SetScale => seq![I3G4250D_REG_CTRL_REG4, ((v.scale % 4) * 16) as u8],
        I3g4250dStatus::ReadXYZ => seq![
            I3G4250D_REG_OUT_X_L | I3G4250D_READ | I3G4250D_AUTO_INCREMENT,
            0u8,
            0u8,
            0u8,
            0u8,
            0u8,
            0u8,
        ],
        I3g4250dStatus::ReadTemperature => seq![I3G4250D_REG_OUT_TEMP | I3G4250D_READ, 0u8],
        I3g4250dStatus::Idle => seq![],
    }
}

/// `v` with the operation `s` in flight and the buffers it takes given to the bus.
pub open spec fn started<C, N, T>(v: I3g4250dView<C, N, T>, s: I3g4250dStatus) -> I3g4250dView<C, N, T> {
    I3g4250dView {
        status: s,
        holds_tx: false,
        holds_rx: v.holds_rx && !status_reads(s),
        ..v
    }
}

/// `t` is the transfer that starts the operation of `after`, from a driver in
/// state `before`.
pub open spec fn is_transfer<C, N, T>(
    t: SpiTransfer,
    before: I3g4250dView<C, N, T>,
    after: I3g4250dView<C, N, T>,
) -> bool {
    &&& t.write@.len() == I3G4250D_TX_SIZE
    &&& t.len == frame(after).len()
    &&& t.write@.subrange(0, t.len as int) == frame(after)
    &&& (t.read is Some <==> (before.holds_rx && status_reads(after.status)))
    &&& (t.read matches Some(rx) ==> rx@.len() == I3G4250D_RX_SIZE)
}

/// `r` is the result of asking for the operation of `after` from state
/// `before`: Busy with nothing changed when an operation is in flight, else
/// the transfer that starts it.
pub open spec fn admitted<C, N, T>(
    r: Result<SpiTransfer, ReturnCode>,
    before: I3g4250dView<C, N, T>,
    now: I3g4250dView<C, N, T>,
    after: I3g4250dView<C, N, T>,
) -> bool {
    &&& before.status != I3g4250dStatus::Idle ==> r == Err::<SpiTransfer, ReturnCode>(
        ReturnCode::Busy,
    ) && now == before
    &&& before.status == I3g4250dStatus::Idle ==> r is Ok && now == after && is_transfer(
        r->Ok_0,
        before,
        after,
    )
}

/// `v` once its operation has completed: idle, holding the transmit buffer
/// again, and the receive buffer if the bus handed one back.
pub open spec fn completed<C, N, T>(v: I3g4250dView<C, N, T>, rx_back: bool) -> I3g4250dView<C, N, T> {
    I3g4250dView {
        status: I3g4250dStatus::Idle,
        holds_tx: true,
        holds_rx: v.holds_rx || rx_back,
        ..v
    }
}

/// The contents of a buffer handed back by the bus, if any.
pub open spec fn contents(b: Option<Vec<u8>>) -> Option<Seq<u8>> {
    match b {
        Some(v) => Some(v@),
        None => None,
    }
}

/// Number of bytes a transfer for the operation must have moved for its
/// response to be complete.
pub open spec fn response_len(s: I3g4250dStatus) -> int {
    if s == I3g4250dStatus::ReadXYZ {
        7
    } else {
        2
    }
}

/// The response of the operation `s` arrived whole: a receive buffer came back
/// and the transfer moved enough bytes.
pub open spec fn response_ok(s: I3g4250dStatus, rx: Option<Seq<u8>>, len: usize) -> bool {
    rx is Some && len >= response_len(s)
}

/// The arguments of the generic callback when the operation of `v` completes
/// with receive buffer `rx` after moving `len` bytes.
pub open spec fn completion_args<C, N, T>(
    v: I3g4250dView<C, N, T>,
    rx: Option<Seq<u8>>,
    len: usize,
) -> CallbackArgs {
    if !response_ok(v.status, rx, len) {
        zero_args()
    } else {
        let b = rx->0;
        match v.status {
            I3g4250dStatus::IsPresent => CallbackArgs {
                data1: if b[1] == I3G4250D_WHO_AM_I {
                    1
                } else {
                    0
                },
                data2: b[1] as i32,
                data3: 0,
            },
            I3g4250dStatus::ReadXYZ => CallbackArgs {
                data1: i16_of(b[1], b[2]) as i32,
                data2: i16_of(b[3], b[4]) as i32,
                data3: i16_of(b[5], b[6]) as i32,
            },
            I3g4250dStatus::ReadTemperature => CallbackArgs {
                data1: i8_of(b[1]) as i32,
                data2: 0,
                data3: 0,
            },
            _ => zero_args(),
        }
    }
}

/// The angular rates, in hundredths of a degree per second, that a completed
/// axis read reports to the motion client.
pub open spec fn motion_reading<C, N, T>(
    v: I3g4250dView<C, N, T>,
    rx: Option<Seq<u8>>,
    len: usize,
) -> Xyz {
    if !response_ok(v.status, rx, len) {
        zero_xyz()
    } else {
        let b = rx->0;
        Xyz {
            x: gyro_rate_of(i16_of(b[1], b[2]), v.scale) as i32,
            y: gyro_rate_of(i16_of(b[3], b[4]), v.scale) as i32,
            z: gyro_rate_of(i16_of(b[5], b[6]), v.scale) as i32,
        }
    }
}

/// The temperature, in hundredths of a degree Celsius, that a completed
/// temperature read reports to the temperature client.
pub open spec fn temperature_reading<C, N, T>(
    v: I3g4250dView<C, N, T>,
    rx: Option<Seq<u8>>,
    len: usize,
) -> i32 {
    if !response_ok(v.status, rx, len) {
        0
    } else {
        gyro_temperature_of(rx->0[1]) as i32
    }
}

/// `d` is what the completion of the operation of `v` hands out: the generic
/// callback always, the motion client after an axis read, the temperature
/// client after a temperature read.
pub open spec fn delivered<C, N, T>(
    d: Deliveries<C, N, T>,
    v: I3g4250dView<C, N, T>,
    rx: Option<Seq<u8>>,
    len: usize,
) -> bool {
    &&& d.callback == with_client(v.callback, completion_args(v, rx, len))
    &&& d.nine_dof == if v.status == I3g4250dStatus::ReadXYZ {
        with_client(v.nine_dof_client, motion_reading(v, rx, len))
    } else {
        None
    }
    &&& d.temperature == if v.status == I3g4250dStatus::ReadTemperature {
        with_client(v.temperature_client, temperature_reading(v, rx, len))
    } else {
        None
    }
}

impl<C: Copy, N: Copy, T: Copy> I3g4250dSpi<C, N, T> {
    /// The transmit buffer is with the driver exactly when it is idle, and
    /// every buffer the driver holds has its full size.
    pub closed spec fn wf(&self) -> bool {
        &&& (self.status == I3g4250dStatus::Idle <==> self.txbuffer is Some)
        &&& (self.txbuffer matches Some(b) ==> b@.len() == I3G4250D_TX_SIZE)
        &&& (self.rxbuffer matches Some(b) ==> b@.len() == I3G4250D_RX_SIZE)
    }

    pub fn new(txbuffer: Vec<u8>, rxbuffer: Vec<u8>) -> (r: Self)
        requires
            txbuffer@.len() == I3G4250D_TX_SIZE,
            rxbuffer@.len() == I3G4250D_RX_SIZE,
        ensures
            r.wf(),
            r@ == initial_view::<C, N, T>(),
    {
        I3g4250dSpi {
            txbuffer: Some(txbuffer),
            rxbuffer: Some(rxbuffer),
            status: I3g4250dStatus::Idle,
            hpf_enabled: false,
            hpf_mode: 0,
            hpf_divider: 0,
            scale: 0,
            callback: None,
            nine_dof_client: None,
            temperature_client: None,
        }
    }

    pub fn is_idle(&self) -> (r: bool)
        ensures
            r == (self@.status == I3g4250dStatus::Idle),
    {
        match self.status {
            I3g4250dStatus::Idle => true,
            _ => false,
        }
    }

    /// Records the operation `s` and builds its transfer from the current
    /// configuration.
    fn start(&mut self, s: I3g4250dStatus) -> (t: SpiTransfer)
        requires
            old(self).wf(),
            old(self)@.status == I3g4250dStatus::Idle,
            s != I3g4250dStatus::Idle,
        ensures
            final(self).wf(),
            final(self)@ == started(old(self)@, s),
            is_transfer(t, old(self)@, final(self)@),
    {
        let mut buf = self.txbuffer.take().unwrap();
        let len: usize = match s {
            I3g4250dStatus::IsPresent => {
                buf[0] = I3G4250D_REG_WHO_AM_I | I3G4250D_READ;
                buf[1] = 0;
                2
            },
            I3g4250dStatus::PowerOn => {
                buf[0] = I3G4250D_REG_CTRL_REG1;
                buf[1] = I3G4250D_POWER_ON;
                2
            },
            I3g4250dStatus::EnableHpf => {
                buf[0] = I3G4250D_REG_CTRL_REG5;
                buf[1] = if self.hpf_enabled {
                    16
                } else {
                    0
                };
                2
            },
            I3g4250dStatus::SetHpfParameters => {
                buf[0] = I3G4250D_REG_CTRL_REG2;
                buf[1] = (self.hpf_mode % 4) * 16 + self.hpf_divider % 16;
                2
            },
            I3g4250dStatus::SetScale => {
                buf[0] = I3G4250D_REG_CTRL_REG4;
                buf[1] = (self.scale % 4) * 16;
                2
            },
            I3g4250dStatus::ReadXYZ => {
                buf[0] = I3G4250D_REG_OUT_X_L | I3G4250D_READ | I3G4250D_AUTO_INCREMENT;
                buf[1] = 0;
                buf[2] = 0;
                buf[3] = 0;
                buf[4] = 0;
                buf[5] = 0;
                buf[6] = 0;
                7
            },
            _ => {
                buf[0] = I3G4250D_REG_OUT_TEMP | I3G4250D_READ;
                buf[1] = 0;
                2
            },
        };
        let read = match s {
            I3g4250dStatus::IsPresent | I3g4250dStatus::ReadXYZ | I3g4250dStatus::ReadTemperature => {
                self.rxbuffer.take()
            },
            _ => None,
        };
        self.status = s;
        assert(buf@.subrange(0, len as int) =~= frame(self@));
        SpiTransfer { write: buf, read, len }
    }

    /// Checks that the device is present by reading its identity register.
    pub fn is_present(&mut self) -> (r: Result<SpiTransfer, ReturnCode>)
        requires
            old(self).wf(),
        ensures
            final(self).wf(),
            admitted(r, old(self)@, final(self)@, started(old(self)@, I3g4250dStatus::IsPresent)),
    {
        if !self.is_idle() {
            return Err(ReturnCode::Busy);
        }
        Ok(self.start(I3g4250dStatus::IsPresent))
    }

    /// Switches the device to normal mode with all three axes enabled.
    pub fn power_on(&mut self) -> (r: Result<SpiTransfer, ReturnCode>)
        requires
            old(self).wf(),
        ensures
            final(self).wf(),
            admitted(r, old(self)@, final(self)@, started(old(self)@, I3g4250dStatus::PowerOn)),
    {
        if !self.is_idle() {
            return Err(ReturnCode::Busy);
        }
        Ok(self.start(I3g4250dStatus::PowerOn))
    }

    /// Enables or disables the high pass filter.
    pub fn enable_hpf(&mut self, enabled: bool) -> (r: Result<SpiTransfer, ReturnCode>)
        requires
            old(self).wf(),
        ensures
            final(self).wf(),
            admitted(
                r,
                old(self)@,
                final(self)@,
                started(
                    I3g4250dView { hpf_enabled: enabled, ..old(self)@ },
                    I3g4250dStatus::EnableHpf,
                ),
            ),
    {
        if !self.is_idle() {
            return Err(ReturnCode::Busy);
        }
        self.hpf_enabled = enabled;
        Ok(self.start(I3g4250dStatus::EnableHpf))
    }

    /// Sets the high pass filter mode (two bits) and cut-off divider (four bits).
    pub fn set_hpf_parameters(&mut self, mode: u8, divider: u8) -> (r: Result<SpiTransfer, ReturnCode>)
        requires
            old(self).wf(),
        ensures
            final(self).wf(),
            admitted(
                r,
                old(self)@,
                final(self)@,
                started(
                    I3g4250dView { hpf_mode: mode, hpf_divider: divider, ..old(self)@ },
                    I3g4250dStatus::SetHpfParameters,
                ),
            ),
    {
        if !self.is_idle() {
            return Err(ReturnCode::Busy);
        }
        self.hpf_mode = mode;
        self.hpf_divider = divider;
        Ok(self.start(I3g4250dStatus::SetHpfParameters))
    }

    /// Sets the full scale: 0 for 245, 1 for 500, 2 for 2000 degrees per second.
    pub fn set_scale(&mut self, scale: u8) -> (r: Result<SpiTransfer, ReturnCode>)
        requires
            old(self).wf(),
        ensures
            final(self).wf(),
            scale <= 2 ==> admitted(
                r,
                old(self)@,
                final(self)@,
                started(I3g4250dView { scale, ..old(self)@ }, I3g4250dStatus::SetScale),
            ),
            scale > 2 ==> final(self)@ == old(self)@,
            scale > 2 && old(self)@.status != I3g4250dStatus::Idle ==> r == Err::<
                SpiTransfer,
                ReturnCode,
            >(ReturnCode::Busy),
            scale > 2 && old(self)@.status == I3g4250dStatus::Idle ==> r == Err::<
                SpiTransfer,
                ReturnCode,
            >(ReturnCode::InvalidArgument),
    {
        if !self.is_idle() {
            return Err(ReturnCode::Busy);
        }
        if scale > 2 {
            return Err(ReturnCode::InvalidArgument);
        }
        self.scale = scale;
        Ok(self.start(I3g4250dStatus::SetScale))
    }

    /// Reads the three angular rate samples.
    pub fn read_xyz(&mut self) -> (r: Result<SpiTransfer, ReturnCode>)
        requires
            old(self).wf(),
        ensures
            final(self).wf(),
            admitted(r, old(self)@, final(self)@, started(old(self)@, I3g4250dStatus::ReadXYZ)),
    {
        if !self.is_idle() {
            return Err(ReturnCode::Busy);
        }
        Ok(self.start(I3g4250dStatus::ReadXYZ))
    }

    /// Reads the temperature sample.
    pub fn read_temperature(&mut self) -> (r: Result<SpiTransfer, ReturnCode>)
        requires
            old(self).wf(),
        ensures
            final(self).wf(),
            admitted(
                r,
                old(self)@,
                final(self)@,
                started(old(self)@, I3g4250dStatus::ReadTemperature),
            ),
    {
        if !self.is_idle() {
            return Err(ReturnCode::Busy);
        }
        Ok(self.start(I3g4250dStatus::ReadTemperature))
    }

    /// Starts an angular rate read on behalf of the motion client.
    pub fn read_gyroscope(&mut self) -> (r: Result<SpiTransfer, ReturnCode>)
        requires
            old(self).wf(),
        ensures
            final(self).wf(),
            admitted(r, old(self)@, final(self)@, started(old(self)@, I3g4250dStatus::ReadXYZ)),
    {
        self.read_xyz()
    }

    /// The bus settings the device needs: clock idle high, sampling on the
    /// trailing edge, 1 MHz.
    pub fn configure(&self) -> (r: SpiConfiguration)
        ensures
            r == (SpiConfiguration {
                polarity: ClockPolarity::IdleHigh,
                phase: ClockPhase::SampleTrailing,
                rate: 1_000_000,
            }),
    {
        SpiConfiguration {
            polarity: ClockPolarity::IdleHigh,
            phase: ClockPhase::SampleTrailing,
            rate: 1_000_000,
        }
    }

    /// Registers the motion client, replacing any earlier one.
    pub fn set_nine_dof_client(&mut self, client: N)
        requires
            old(self).wf(),
        ensures
            final(self).wf(),
            final(self)@ == (I3g4250dView { nine_dof_client: Some(client), ..old(self)@ }),
    {
        self.nine_dof_client = Some(client);
    }

    /// Registers the temperature client, replacing any earlier one.
    pub fn set_temperature_client(&mut self, client: T)
        requires
            old(self).wf(),
        ensures
            final(self).wf(),
            final(self)@ == (I3g4250dView { temperature_client: Some(client), ..old(self)@ }),
    {
        self.temperature_client = Some(client);
    }

    /// Dispatches a command number with its two arguments. A started
    /// operation comes back with `Success` and the transfer to perform.
    pub fn command(&mut self, command_num: usize, data1: usize, data2: usize) -> (r: (
        ReturnCode,
        Option<SpiTransfer>,
    ))
        requires
            old(self).wf(),
        ensures
            final(self).wf(),
            r.0 != ReturnCode::Success || command_num == 0 <==> r.1 is None,
            command_num == 0 ==> r.0 == ReturnCode::Success && final(self)@ == old(self)@,
            command_num > 7 ==> r.0 == ReturnCode::Unsupported && final(self)@ == old(self)@,
            1 <= command_num <= 7 && old(self)@.status != I3g4250dStatus::Idle ==> r.0
                == ReturnCode::Busy && final(self)@ == old(self)@,
            command_num == 3 && data1 > 2 && old(self)@.status == I3g4250dStatus::Idle ==> r.0
                == ReturnCode::InvalidArgument && final(self)@ == old(self)@,
            1 <= command_num <= 7 && old(self)@.status == I3g4250dStatus::Idle && !(command_num
                == 3 && data1 > 2) ==> r.0 == ReturnCode::Success && final(self)@ == command_target(
                old(self)@,
                command_num,
                data1,
                data2,
            ) && is_transfer(r.1->0, old(self)@, final(self)@),
    {
        let res = match command_num {
            0 => {
                return (ReturnCode::Success, None);
            },
            1 => self.is_present(),
            2 => self.power_on(),
            3 => {
                if data1 > 2 {
                    self.set_scale(3)
                } else {
                    self.set_scale(data1 as u8)
                }
            },
            4 => self.enable_hpf(data1 == 1),
            5 => self.set_hpf_parameters((data1 % 256) as u8, (data2 % 256) as u8),
            6 => self.read_xyz(),
            7 => self.read_temperature(),
            _ => {
                return (ReturnCode::Unsupported, None);
            },
        };
        match res {
            Ok(t) => (ReturnCode::Success, Some(t)),
            Err(e) => (e, None),
        }
    }

    /// Sets (subscribe number 0) the one-shot callback, replacing the one held
    /// before; `None` clears it.
    pub fn subscribe(&mut self, subscribe_num: usize, callback: Option<C>) -> (r: ReturnCode)
        requires
            old(self).wf(),
        ensures
            final(self).wf(),
            subscribe_num == 0 ==> r == ReturnCode::Success && final(self)@ == (I3g4250dView {
                callback,
                ..old(self)@
            }),
            subscribe_num != 0 ==> r == ReturnCode::Unsupported && final(self)@ == old(self)@,
    {
        if subscribe_num == 0 {
            self.callback = callback;
            ReturnCode::Success
        } else {
            ReturnCode::Unsupported
        }
    }

    /// Takes back the buffers of the finished transfer, which moved `len`
    /// bytes, and returns the driver to idle. Says what to deliver: the
    /// decoded response when it arrived whole, zeros when it did not.
    pub fn read_write_done(
        &mut self,
        write_buffer: Vec<u8>,
        read_buffer: Option<Vec<u8>>,
        len: usize,
    ) -> (r: Deliveries<C, N, T>)
        requires
            old(self).wf(),
            write_buffer@.len() == I3G4250D_TX_SIZE,
            read_buffer matches Some(b) ==> b@.len() == I3G4250D_RX_SIZE,
        ensures
            final(self).wf(),
            final(self)@ == completed(old(self)@, read_buffer is Some),
            final(self)@.status == I3g4250dStatus::Idle,
            delivered(r, old(self)@, contents(read_buffer), len),
            !response_ok(old(self)@.status, contents(read_buffer), len) ==> {
                &&& (r.callback matches Some(c) ==> c.1 == zero_args())
                &&& (r.nine_dof matches Some(n) ==> n.1 == zero_xyz())
                &&& (r.temperature matches Some(t) ==> t.1 == 0)
            },
    {
        let status = self.status;
        let ok = match &read_buffer {
            Some(_) => len >= if status == I3g4250dStatus::ReadXYZ {
                7
            } else {
                2
            },
            None => false,
        };
        let mut args = CallbackArgs::zero();
        let mut nine_dof = None;
        let mut temperature = None;
        match status {
            I3g4250dStatus::IsPresent => {
                if ok {
                    let b = read_buffer.as_ref().unwrap();
                    let id = b[1];
                    args = CallbackArgs::new(
                        if id == I3G4250D_WHO_AM_I {
                            1
                        } else {
                            0
                        },
                        id as i32,
                        0,
                    );
                }
            },
            I3g4250dStatus::ReadXYZ => {
                let mut reading = Xyz::zero();
                if ok {
                    let b = read_buffer.as_ref().unwrap();
                    let x = decode_i16(b[1], b[2]);
                    let y = decode_i16(b[3], b[4]);
                    let z = decode_i16(b[5], b[6]);
                    args = CallbackArgs::new(x as i32, y as i32, z as i32);
                    reading = Xyz {
                        x: gyro_rate(x, self.scale),
                        y: gyro_rate(y, self.scale),
                        z: gyro_rate(z, self.scale),
                    };
                }
                nine_dof = deliver_to(&self.nine_dof_client, reading);
            },
            I3g4250dStatus::ReadTemperature => {
                let mut reading: i32 = 0;
                if ok {
                    let b = read_buffer.as_ref().unwrap();
                    args = CallbackArgs::new(decode_i8(b[1]) as i32, 0, 0);
                    reading = gyro_temperature(b[1]);
                }
                temperature = deliver_to(&self.temperature_client, reading);
            },
            _ => {},
        }
        let callback = deliver_to(&self.callback, args);
        self.status = I3g4250dStatus::Idle;
        self.txbuffer = Some(write_buffer);
        if let Some(b) = read_buffer {
            self.rxbuffer = Some(b);
        }
        Deliveries { callback, nine_dof, temperature }
    }
}

/// The state a command that starts an operation leads to from `v`.
pub open spec fn command_target<C, N, T>(
    v: I3g4250dView<C, N, T>,
    command_num: usize,
    data1: usize,
    data2: usize,
) -> I3g4250dView<C, N, T> {
    if command_num == 1 {
        started(v, I3g4250dStatus::IsPresent)
    } else if command_num == 2 {
        started(v, I3g4250dStatus::PowerOn)
    } else if command_num == 3 {
        started(I3g4250dView { scale: low_byte(data1), ..v }, I3g4250dStatus::SetScale)
    } else if command_num == 4 {
        started(I3g4250dView { hpf_enabled: data1 == 1, ..v }, I3g4250dStatus::EnableHpf)
    } else if command_num == 5 {
        started(
            I3g4250dView { hpf_mode: low_byte(data1), hpf_divider: low_byte(data2), ..v },
            I3g4250dStatus::SetHpfParameters,
        )
    } else if command_num == 6 {
        started(v, I3g4250dStatus::ReadXYZ)
    } else {
        started(v, I3g4250dStatus::ReadTemperature)
    }
}

} // verus!
