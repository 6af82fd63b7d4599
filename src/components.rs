//! Construction of the sensor drivers with their own bus buffers.
use vstd::prelude::*;

use crate::i3g4250d::{
    I3g4250dSpi, SpiConfiguration, ClockPhase, ClockPolarity, I3G4250D_RX_SIZE, I3G4250D_TX_SIZE,
};
use crate::lsm303agr::{Lsm303agrI2C, LSM303AGR_BUFFER_SIZE};

verus! {

/// Builds an I3G4250D driver.
pub struct I3g4250dSpiComponent {}

impl I3g4250dSpiComponent {
    pub fn new() -> (r: I3g4250dSpiComponent) {
        I3g4250dSpiComponent {  }
    }

    /// The driver, with zeroed transmit and receive buffers, and the settings
    /// its SPI bus must be configured with.
    pub fn finalize<C: Copy, N: Copy, T: Copy>(self) -> (r: (I3g4250dSpi<C, N, T>, SpiConfiguration))
        ensures
            r.0.wf(),
            r.0@ == crate::i3g4250d::initial_view::<C, N, T>(),
            r.1 == (SpiConfiguration {
                polarity: ClockPolarity::IdleHigh,
                phase: ClockPhase::SampleTrailing,
                rate: 1_000_000,
            }),
    {
        let driver = I3g4250dSpi::new(vec![0u8; I3G4250D_TX_SIZE], vec![0u8; I3G4250D_RX_SIZE]);
        let settings = driver.configure();
        (driver, settings)
    }
}

/// Builds an LSM303AGR driver.
pub struct Lsm303agrI2CComponent {}

impl Lsm303agrI2CComponent {
    pub fn new() -> (r: Lsm303agrI2CComponent) {
        Lsm303agrI2CComponent {  }
    }

    /// The driver, with a zeroed buffer.
    pub fn finalize<C: Copy, N: Copy, T: Copy>(self) -> (r: Lsm303agrI2C<C, N, T>)
        ensures
            r.wf(),
            r@ == crate::lsm303agr::initial_view::<C, N, T>(),
    {
        Lsm303agrI2C::new(vec![0u8; LSM303AGR_BUFFER_SIZE])
    }
}

} // verus!
