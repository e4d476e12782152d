//! Interfaces over the blocking traits of embedded-hal 0.2.

pub mod i2c;
