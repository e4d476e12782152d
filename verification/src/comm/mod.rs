//! Communication interfaces to the MFRC522 other than the SPI device the driver runs on.

pub mod eh02;
