//! The MFRC522's registers, its own command set and the bit masks of its
//! interrupt, error and control registers.

use vstd::prelude::*;

verus! {

/// The registers of the MFRC522, each with its 6-bit address (see [`Register::address`]).
#[derive(Clone, Copy, Debug, PartialEq, Eq)]
pub enum Register {
    /// Starts and stops command execution (0x01)
    CommandReg,
    /// Enables and disables interrupt request control bits (0x02)
    ComlEnReg,
    /// Enables and disables interrupt request control bits (0x03)
    DivlEnReg,
    /// Interrupt request bits (0x04)
    ComIrqReg,
    /// Interrupt request bits (0x05)
    DivIrqReg,
    /// Error bits showing the error status of the last command executed (0x06)
    ErrorReg,
    /// Communication status bits (0x07)
    Status1Reg,
    /// Receiver and transmitter status bits (0x08)
    Status2Reg,
    /// Input and output of the 64 byte FIFO buffer (0x09)
    FIFODataReg,
    /// Number of bytes stored in the FIFO buffer (0x0A)
    FIFOLevelReg,
    /// Level for FIFO underflow and overflow warning (0x0B)
    WaterLevelReg,
    /// Miscellaneous control registers (0x0C)
    ControlReg,
    /// Adjustments for bit-oriented frames (0x0D)
    BitFramingReg,
    /// Bit position of the first bit-collision detected on the RF interface (0x0E)
    CollReg,
    /// Defines general modes for transmitting and receiving (0x11)
    ModeReg,
    /// Defines transmission data rate and framing (0x12)
    TxModeReg,
    /// Defines reception data rate and framing (0x13)
    RxModeReg,
    /// Controls the logical behavior of the antenna driver pins TX1 and TX2 (0x14)
    TxControlReg,
    /// Controls the setting of the transmission modulation (0x15)
    TxASKReg,
    /// Selects the internal sources for the antenna driver (0x16)
    TxSelReg,
    /// Selects internal receiver settings (0x17)
    RxSelReg,
    /// Selects thresholds for the bit decoder (0x18)
    RxThresholdReg,
    /// Defines demodulator settings (0x19)
    DemodReg,
    /// Controls some MIFARE communication transmit parameters (0x1C)
    MfTxReg,
    /// Controls some MIFARE communication receive parameters (0x1D)
    MfRxReg,
    /// Selects the speed of the serial UART interface (0x1F)
    SerialSpeedReg,
    /// Shows the MSB of the CRC calculation (0x21)
    CRCResultRegHigh,
    /// Shows the LSB of the CRC calculation (0x22)
    CRCResultRegLow,
    /// Controls the ModWidth setting (0x24)
    ModWidthReg,
    /// Configures the receiver gain (0x26)
    RFCfgReg,
    /// Selects the conductance of the antenna driver pins for modulation (0x27)
    GsNReg,
    /// Defines the conductance of the p-driver output during no modulation (0x28)
    CWGsPReg,
    /// Defines the conductance of the p-driver output during modulation (0x29)
    ModGsPReg,
    /// Defines settings for the internal timer (0x2A)
    TModeReg,
    /// Lower bits of the timer prescaler (0x2B)
    TPrescalerReg,
    /// Higher bits of the 16-bit timer reload value (0x2C)
    TReloadRegHigh,
    /// Lower bits of the 16-bit timer reload value (0x2D)
    TReloadRegLow,
    /// Higher bits of the 16-bit timer value (0x2E)
    TCounterValRegHigh,
    /// Lower bits of the 16-bit timer value (0x2F)
    TCounterValRegLow,
    /// General test signal configuration (0x31)
    TestSel1Reg,
    /// General test signal configuration (0x32)
    TestSel2Reg,
    /// Enables pin output driver on pins D1 to D7 (0x33)
    TestPinEnReg,
    /// Defines the values for D1 to D7 when used as an I/O bus (0x34)
    TestPinValueReg,
    /// Shows the status of the internal test bus (0x35)
    TestBusReg,
    /// Controls the digital self test (0x36)
    AutoTestReg,
    /// Shows the software version (0x37)
    VersionReg,
    /// Controls the pins AUX1 and AUX2 (0x38)
    AnalogTestReg,
    /// Defines the test value for TestDAC1 (0x39)
    TestDAC1Reg,
    /// Defines the test value for TestDAC2 (0x3A)
    TestDAC2Reg,
    /// Shows the value of ADC I and Q channels (0x3B)
    TestADCReg,
}

impl Register {
    /// The register's address on the MFRC522.
    pub open spec fn addr(self) -> u8 {
        match self {
            Register::CommandReg => 0x01,
            Register::ComlEnReg => 0x02,
            Register::DivlEnReg => 0x03,
            Register::ComIrqReg => 0x04,
            Register::DivIrqReg => 0x05,
            Register::ErrorReg => 0x06,
            Register::Status1Reg => 0x07,
            Register::Status2Reg => 0x08,
            Register::FIFODataReg => 0x09,
            Register::FIFOLevelReg => 0x0A,
            Register::WaterLevelReg => 0x0B,
            Register::ControlReg => 0x0C,
            Register::BitFramingReg => 0x0D,
            Register::CollReg => 0x0E,
            Register::ModeReg => 0x11,
            Register::TxModeReg => 0x12,
            Register::RxModeReg => 0x13,
            Register::TxControlReg => 0x14,
            Register::TxASKReg => 0x15,
            Register::TxSelReg => 0x16,
            Register::RxSelReg => 0x17,
            Register::RxThresholdReg => 0x18,
            Register::DemodReg => 0x19,
            Register::MfTxReg => 0x1C,
            Register::MfRxReg => 0x1D,
            Register::SerialSpeedReg => 0x1F,
            Register::CRCResultRegHigh => 0x21,
            Register::CRCResultRegLow => 0x22,
            Register::ModWidthReg => 0x24,
            Register::RFCfgReg => 0x26,
            Register::GsNReg => 0x27,
            Register::CWGsPReg => 0x28,
            Register::ModGsPReg => 0x29,
            Register::TModeReg => 0x2A,
            Register::TPrescalerReg => 0x2B,
            Register::TReloadRegHigh => 0x2C,
            Register::TReloadRegLow => 0x2D,
            Register::TCounterValRegHigh => 0x2E,
            Register::TCounterValRegLow => 0x2F,
            Register::TestSel1Reg => 0x31,
            Register::TestSel2Reg => 0x32,
            Register::TestPinEnReg => 0x33,
            Register::TestPinValueReg => 0x34,
            Register::TestBusReg => 0x35,
            Register::AutoTestReg => 0x36,
            Register::VersionReg => 0x37,
            Register::AnalogTestReg => 0x38,
            Register::TestDAC1Reg => 0x39,
            Register::TestDAC2Reg => 0x3A,
            Register::TestADCReg => 0x3B,
        }
    }

    /// The register's address on the MFRC522.
    pub fn address(&self) -> (a: u8)
        ensures
            a == self.addr(),
            a < 0x40,
    {
        match self {
            Register::CommandReg => 0x01,
            Register::ComlEnReg => 0x02,
            Register::DivlEnReg => 0x03,
            Register::ComIrqReg => 0x04,
            Register::DivIrqReg => 0x05,
            Register::ErrorReg => 0x06,
            Register::Status1Reg => 0x07,
            Register::Status2Reg => 0x08,
            Register::FIFODataReg => 0x09,
            Register::FIFOLevelReg => 0x0A,
            Register::WaterLevelReg => 0x0B,
            Register::ControlReg => 0x0C,
            Register::BitFramingReg => 0x0D,
            Register::CollReg => 0x0E,
            Register::ModeReg => 0x11,
            Register::TxModeReg => 0x12,
            Register::RxModeReg => 0x13,
            Register::TxControlReg => 0x14,
            Register::TxASKReg => 0x15,
            Register::TxSelReg => 0x16,
            Register::RxSelReg => 0x17,
            Register::RxThresholdReg => 0x18,
            Register::DemodReg => 0x19,
            Register::MfTxReg => 0x1C,
            Register::MfRxReg => 0x1D,
            Register::SerialSpeedReg => 0x1F,
            Register::CRCResultRegHigh => 0x21,
            Register::CRCResultRegLow => 0x22,
            Register::ModWidthReg => 0x24,
            Register::RFCfgReg => 0x26,
            Register::GsNReg => 0x27,
            Register::CWGsPReg => 0x28,
            Register::ModGsPReg => 0x29,
            Register::TModeReg => 0x2A,
            Register::TPrescalerReg => 0x2B,
            Register::TReloadRegHigh => 0x2C,
            Register::TReloadRegLow => 0x2D,
            Register::TCounterValRegHigh => 0x2E,
            Register::TCounterValRegLow => 0x2F,
            Register::TestSel1Reg => 0x31,
            Register::TestSel2Reg => 0x32,
            Register::TestPinEnReg => 0x33,
            Register::TestPinValueReg => 0x34,
            Register::TestBusReg => 0x35,
            Register::AutoTestReg => 0x36,
            Register::VersionReg => 0x37,
            Register::AnalogTestReg => 0x38,
            Register::TestDAC1Reg => 0x39,
            Register::TestDAC2Reg => 0x3A,
            Register::TestADCReg => 0x3B,
        }
    }

    /// The first byte of an SPI frame that reads this register: the address
    /// shifted left by one, with the read bit (bit 7) set.
    pub open spec fn read_byte(self) -> u8 {
        ((self.addr() << 1u8) | 0x80u8) as u8
    }

    /// The first byte of an SPI frame that writes this register: the address
    /// shifted left by one, with the read bit (bit 7) clear.
    pub open spec fn write_byte(self) -> u8 {
        (self.addr() << 1u8) as u8
    }

    /// The first byte of an SPI frame that reads this register.
    pub fn read_address(&self) -> (b: u8)
        ensures
            b == self.read_byte(),
            b & 0x80 == 0x80,
            b & 0x01 == 0,
            b == 2 * self.addr() + 0x80,
    {
        let a = self.address();
        assert((a << 1u8) | 0x80u8 == 2 * a + 0x80 && ((a << 1u8) | 0x80u8) & 0x80 == 0x80
            && ((a << 1u8) | 0x80u8) & 0x01 == 0) by (bit_vector)
            requires
                a < 0x40u8,
        ;
        (a << 1u8) | 0x80u8
    }

    /// The first byte of an SPI frame that writes this register.
    pub fn write_address(&self) -> (b: u8)
        ensures
            b == self.write_byte(),
            b & 0x80 == 0,
            b & 0x01 == 0,
            b == 2 * self.addr(),
    {
        let a = self.address();
        assert(a << 1u8 == 2 * a && (a << 1u8) & 0x80 == 0 && (a << 1u8) & 0x01 == 0)
            by (bit_vector)
            requires
                a < 0x40u8,
        ;
        a << 1u8
    }
}

/// Commands understood by the MFRC522 itself, written to [`Register::CommandReg`].
#[derive(Clone, Copy, Debug, PartialEq, Eq)]
pub enum Command {
    /// No action, cancels current command execution (0x00)
    Idle,
    /// Stores 25 bytes into the internal buffer (0x01)
    Mem,
    /// Generates a 10-byte random ID number (0x02)
    GenerateRandomID,
    /// Activates the CRC coprocessor or performs a self test (0x03)
    CalcCRC,
    /// Transmits data from the FIFO buffer (0x04)
    Transmit,
    /// No command change (0x07)
    NoCmdChange,
    /// Activates the receiver circuits (0x08)
    Receive,
    /// Transmits data from the FIFO buffer to the antenna and automatically
    /// activates the receiver after transmission (0x0C)
    Transceive,
    /// Performs the MIFARE standard authentication as a reader (0x0E)
    MFAuthent,
    /// Resets the MFRC522 (0x0F)
    SoftReset,
}

impl Command {
    /// The value written to the command register.
    pub open spec fn value(self) -> u8 {
        match self {
            Command::Idle => 0x00,
            Command::Mem => 0x01,
            Command::GenerateRandomID => 0x02,
            Command::CalcCRC => 0x03,
            Command::Transmit => 0x04,
            Command::NoCmdChange => 0x07,
            Command::Receive => 0x08,
            Command::Transceive => 0x0C,
            Command::MFAuthent => 0x0E,
            Command::SoftReset => 0x0F,
        }
    }

    /// The value written to the command register.
    pub fn byte(&self) -> (b: u8)
        ensures
            b == self.value(),
    {
        match self {
            Command::Idle => 0x00,
            Command::Mem => 0x01,
            Command::GenerateRandomID => 0x02,
            Command::CalcCRC => 0x03,
            Command::Transmit => 0x04,
            Command::NoCmdChange => 0x07,
            Command::Receive => 0x08,
            Command::Transceive => 0x0C,
            Command::MFAuthent => 0x0E,
            Command::SoftReset => 0x0F,
        }
    }
}

/// Receiver gain, the RxGain field (bits 6 to 4) of [`Register::RFCfgReg`].
#[derive(Clone, Copy, Debug, PartialEq, Eq)]
pub enum RxGain {
    /// 18 dB
    DB18,
    /// 23 dB
    DB23,
    /// 18 dB, another encoding of [`RxGain::DB18`]
    DB18Alt,
    /// 23 dB, another encoding of [`RxGain::DB23`]
    DB23Alt,
    /// 33 dB
    DB33,
    /// 38 dB
    DB38,
    /// 43 dB
    DB43,
    /// 48 dB
    DB48,
}

impl RxGain {
    /// The three-bit code of the gain.
    pub open spec fn code(self) -> u8 {
        match self {
            RxGain::DB18 => 0,
            RxGain::DB23 => 1,
            RxGain::DB18Alt => 2,
            RxGain::DB23Alt => 3,
            RxGain::DB33 => 4,
            RxGain::DB38 => 5,
            RxGain::DB43 => 6,
            RxGain::DB48 => 7,
        }
    }

    /// The value of [`Register::RFCfgReg`] that selects this gain: the code in bits 6 to 4.
    pub open spec fn reg_value(self) -> u8 {
        self.code() << 4u8
    }

    /// The value of [`Register::RFCfgReg`] that selects this gain.
    pub fn register_value(&self) -> (v: u8)
        ensures
            v == self.reg_value(),
            v == self.code() * 16,
            v & 0x8F == 0,
    {
        let c: u8 = match self {
            RxGain::DB18 => 0,
            RxGain::DB23 => 1,
            RxGain::DB18Alt => 2,
            RxGain::DB23Alt => 3,
            RxGain::DB33 => 4,
            RxGain::DB38 => 5,
            RxGain::DB43 => 6,
            RxGain::DB48 => 7,
        };
        assert((c << 4u8) & 0x8F == 0 && c << 4u8 == c * 16) by (bit_vector)
            requires
                c < 8u8,
        ;
        c << 4u8
    }
}

/// ComIrqReg / ComlEnReg: the receiver has detected the end of a valid data stream
pub const RX_IRQ: u8 = 0x20;
/// ComIrqReg / ComlEnReg: a command terminated by itself
pub const IDLE_IRQ: u8 = 0x10;
/// ComIrqReg / ComlEnReg: an error bit in the error register is set
pub const ERR_IRQ: u8 = 0x02;
/// ComIrqReg / ComlEnReg: the timer decremented to zero
pub const TIMER_IRQ: u8 = 0x01;
/// DivIrqReg / DivlEnReg: the CRC coprocessor has processed all the FIFO data
pub const CRC_IRQ: u8 = 0x04;

/// ErrorReg: SOF incorrect, or wrong number of bytes in MFAuthent
pub const PROTOCOL_ERR: u8 = 0x01;
/// ErrorReg: parity check failed
pub const PARITY_ERR: u8 = 0x02;
/// ErrorReg: the CRC calculation failed
pub const CRC_ERR: u8 = 0x04;
/// ErrorReg: a bit collision is detected
pub const COLL_ERR: u8 = 0x08;
/// ErrorReg: the FIFO buffer is already full
pub const BUFFER_OVFL: u8 = 0x10;
/// ErrorReg: the internal temperature sensor detects overheating
pub const TEMP_ERR: u8 = 0x40;
/// ErrorReg: data was written into the FIFO buffer at an invalid time
pub const WR_ERR: u8 = 0x80;

/// TxASKReg: forces a 100 % ASK modulation
pub const FORCE_100_ASK: u8 = 0x40;
/// CommandReg: soft power-down mode is on
pub const POWER_DOWN: u8 = 0x10;
/// FIFOLevelReg: clears the FIFO buffer
pub const FLUSH_BUFFER: u8 = 0x80;

} // verus!
