//! Driver library for the MFRC522 contactless communication IC, a *Proximity
//! Coupling Device* (PCD) that talks to *Proximity Integrated Circuit Cards*
//! (PICCs).
//!
//! The driver's logic stands here apart from the bus it runs on: each
//! operation ([`Mfrc522::init`], [`Mfrc522::reqa`], [`Mfrc522::select`], ...)
//! is a method from the replies received so far to the next [`bus::Action`]
//! to perform on the SPI device or the IRQ line, or to its result. Each has a
//! model, a [`bus::Run`], that its contract states it follows. The operations
//! on a PICC are methods of an [`Initialized`] driver only, which comes from
//! an [`Uninitialized`] one whose initialization ran to its end.

pub mod bus;
pub mod comm;
pub mod conformance;
pub mod driver;
pub mod error;
pub mod laws;
pub mod picc;
pub mod procedure;
pub mod register;
pub mod select;
pub mod uid;

pub use comm::eh02::i2c::I2cInterface;
pub use driver::{Initialized, Mfrc522, State, Uninitialized};
pub use error::Error;
pub use picc::{Command, Sak, Type};
pub use register::{
    Register, RxGain, BUFFER_OVFL, COLL_ERR, CRC_ERR, CRC_IRQ, ERR_IRQ, FLUSH_BUFFER,
    FORCE_100_ASK, IDLE_IRQ, PARITY_ERR, POWER_DOWN, PROTOCOL_ERR, RX_IRQ, TEMP_ERR, TIMER_IRQ,
    WR_ERR,
};
pub use uid::{AtqA, FifoData, GenericUid, Uid};
