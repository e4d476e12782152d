//! The driver value: the SPI device and the IRQ line, in a state that tells
//! which operations are open to it.

use vstd::prelude::*;

use crate::bus::{read_reg, replies_view, reports, reports_viewed, write_reg, Progress, Reply};
use crate::procedure::{
    self, calculate_crc_run, init_run, new_card_present_run, reqa_run, reset_to_idle_run,
    transceive_run, Initialization,
};
use crate::register::{Register, RxGain};
use crate::select::{self, select_run};
use crate::uid::{AtqA, FifoData, Uid};

verus! {

/// Keeps [`State`] closed to this crate.
pub trait Sealed {}

/// Implemented by the different states of the MFRC522 driver.
///
/// This trait cannot be implemented outside of this crate.
pub trait State: Sealed {}

/// The MFRC522 driver starts in this state and needs to be initialized before it can be used.
pub struct Uninitialized;

/// The MFRC522 driver is ready for use.
pub struct Initialized;

impl Sealed for Uninitialized {}

impl Sealed for Initialized {}

impl State for Uninitialized {}

impl State for Initialized {}

/// Async MFRC522 driver
pub struct Mfrc522<SPI, IRQ, S: State> {
    spi: SPI,
    irq: IRQ,
    state: core::marker::PhantomData<S>,
}

impl<SPI, IRQ, S: State> Mfrc522<SPI, IRQ, S> {
    /// The SPI device.
    pub closed spec fn spi(self) -> SPI {
        self.spi
    }

    /// The IRQ line.
    pub closed spec fn irq(self) -> IRQ {
        self.irq
    }

    /// Release the underlying communication channel
    pub fn release(self) -> (parts: (SPI, IRQ))
        ensures
            parts == (self.spi(), self.irq()),
    {
        (self.spi, self.irq)
    }

    /// The SPI device and the IRQ line, to perform the actions of a procedure on.
    pub fn bus(&mut self) -> (parts: (&mut SPI, &mut IRQ))
        ensures
            *parts.0 == old(self).spi(),
            *parts.1 == old(self).irq(),
            final(self).spi() == *final(parts.0),
            final(self).irq() == *final(parts.1),
    {
        (&mut self.spi, &mut self.irq)
    }
}

impl<SPI, IRQ> Mfrc522<SPI, IRQ, Uninitialized> {
    /// Create a new MFRC522 driver from the communication interface.
    pub fn new(spi: SPI, irq: IRQ) -> (d: Self)
        ensures
            d.spi() == spi,
            d.irq() == irq,
    {
        Self { spi, irq, state: core::marker::PhantomData }
    }

    /// The driver, ready for use once the initialization ran to its end.
    pub fn initialized(self, done: Initialization) -> (d: Mfrc522<SPI, IRQ, Initialized>)
        ensures
            d.spi() == self.spi(),
            d.irq() == self.irq(),
    {
        Mfrc522 { spi: self.spi, irq: self.irq, state: core::marker::PhantomData }
    }

    /// Initialize the MFRC522: the next action of the initialization, or its
    /// end, whose [`Initialization`] makes the driver [`initialized`](Self::initialized).
    ///
    /// This needs to be run to its end before you can do any other operation.
    pub fn init<SpiE, GpioE>(&self, replies: &Vec<Reply>) -> (p: Progress<Initialization, SpiE, GpioE>)
        ensures
            reports(
                match p {
                    Progress::Pending(a) => Progress::Pending(a),
                    Progress::Done(Ok(_)) => Progress::Done(Ok(())),
                    Progress::Done(Err(e)) => Progress::Done(Err(e)),
                    Progress::Mismatch => Progress::Mismatch,
                },
                init_run::<SpiE, GpioE>(replies_view(replies@), 0),
            ),
    {
        procedure::init(replies)
    }
}

impl<SPI, IRQ, S: State> Mfrc522<SPI, IRQ, S> {
    /// Returns the version reported by the MFRC522: the next action, or the version.
    pub fn version<SpiE, GpioE>(&self, replies: &Vec<Reply>) -> (p: Progress<u8, SpiE, GpioE>)
        ensures
            reports(p, read_reg::<SpiE, GpioE>(Register::VersionReg, replies_view(replies@), 0)),
    {
        procedure::version(replies)
    }

    /// Sanitize device state for performing next operation (Idle, IRQ, Fifo):
    /// the next action, or the result.
    pub fn reset_to_idle<SpiE, GpioE>(&self, replies: &Vec<Reply>) -> (p: Progress<(), SpiE, GpioE>)
        ensures
            reports(p, reset_to_idle_run::<SpiE, GpioE>(replies_view(replies@), 0)),
    {
        procedure::reset_to_idle(replies)
    }
}

// The operations on a PICC can only be used after initializing.
impl<SPI, IRQ> Mfrc522<SPI, IRQ, Initialized> {
    /// Send REQA command and wait for response using IRQ: the next action, or the ATQA.
    pub fn reqa<SpiE, GpioE>(&self, replies: &Vec<Reply>) -> (p: Progress<AtqA, SpiE, GpioE>)
        ensures
            reports_viewed(p, reqa_run::<SpiE, GpioE>(replies_view(replies@), 0)),
    {
        procedure::reqa(replies)
    }

    /// Has a card been detected? The next action, or the ATQA.
    pub fn new_card_present<SpiE, GpioE>(&self, replies: &Vec<Reply>) -> (p: Progress<AtqA, SpiE, GpioE>)
        ensures
            reports_viewed(p, new_card_present_run::<SpiE, GpioE>(replies_view(replies@), 0)),
    {
        procedure::new_card_present(replies)
    }

    /// Select a PICC after REQA: the next action, or the UID.
    pub fn select<SpiE, GpioE>(&self, atqa: &AtqA, replies: &Vec<Reply>) -> (p: Progress<Uid, SpiE, GpioE>)
        ensures
            reports_viewed(p, select_run::<SpiE, GpioE>(atqa@, replies_view(replies@), 0)),
    {
        select::select(atqa, replies)
    }

    /// Sets the antenna gain of the receiver: the next action, or the result.
    ///
    /// Setting this to a high value could help if you have issues communicating with a card.
    /// This should increase the *sensitivity* of the antenna, so it is able to detect weaker signals.
    pub fn set_antenna_gain<SpiE, GpioE>(&self, gain: RxGain, replies: &Vec<Reply>) -> (p: Progress<(), SpiE, GpioE>)
        ensures
            reports(p, write_reg::<SpiE, GpioE>(Register::RFCfgReg, gain.reg_value(), replies_view(replies@), 0)),
    {
        procedure::set_antenna_gain(gain, replies)
    }

    /// Calculate the CRC_A of `data` with the coprocessor: the next action, or
    /// the CRC (low byte first).
    pub fn calculate_crc<SpiE, GpioE>(&self, data: &[u8], replies: &Vec<Reply>) -> (p: Progress<[u8; 2], SpiE, GpioE>)
        ensures
            reports_viewed(p, calculate_crc_run::<SpiE, GpioE>(data@, replies_view(replies@), 0)),
    {
        procedure::calculate_crc(data, replies)
    }

    /// Send `tx_buffer` to the PICC and read its answer: the next action, or the FIFO data.
    pub fn transceive<const RX: usize, SpiE, GpioE>(
        &self,
        tx_buffer: &[u8],
        tx_last_bits: u8,
        rx_align_bits: u8,
        replies: &Vec<Reply>,
    ) -> (p: Progress<FifoData<RX>, SpiE, GpioE>)
        ensures
            reports_viewed(
                p,
                transceive_run::<RX, SpiE, GpioE>(tx_buffer@, tx_last_bits, rx_align_bits, replies_view(replies@), 0),
            ),
    {
        procedure::transceive(tx_buffer, tx_last_bits, rx_align_bits, replies)
    }
}

} // verus!
