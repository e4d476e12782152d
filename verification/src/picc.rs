//! What a Proximity Integrated Circuit Card (PICC) understands and answers.

use vstd::prelude::*;

verus! {

/// Commands sent to a PICC (ISO 14443-3 and MIFARE).
#[derive(Clone, Copy, Debug, PartialEq, Eq)]
pub enum Command {
    /// REQuest command, Type A (0x26)
    ReqA,
    /// Wake-UP command, Type A (0x52)
    WupA,
    /// Cascade Tag, used during anticollision (0x88)
    CT,
    /// Anticollision / Select, cascade level 1 (0x93)
    SelCl1,
    /// Anticollision / Select, cascade level 2 (0x95)
    SelCl2,
    /// Anticollision / Select, cascade level 3 (0x97)
    SelCl3,
    /// HaLT command, Type A (0x50)
    HltA,
    /// Request command for Answer To Reset (0xE0)
    RATS,
    /// Authentication with key A (0x60)
    MfAuthKeyA,
    /// Authentication with key B (0x61)
    MfAuthKeyB,
    /// Reads one 16 byte block (0x30)
    MfRead,
    /// Writes one 16 byte block (0xA0)
    MfWrite,
    /// Decrements the contents of a block (0xC0)
    MfDecrement,
    /// Increments the contents of a block (0xC1)
    MfIncrement,
    /// Reads the contents of a block into the internal data register (0xC2)
    MfRestore,
    /// Writes the contents of the internal data register to a block (0xB0)
    MfTransfer,
    /// Writes one 4 byte page to a MIFARE Ultralight PICC (0xA2)
    UlWrite,
}

impl Command {
    /// The command byte sent to the PICC.
    pub open spec fn value(self) -> u8 {
        match self {
            Command::ReqA => 0x26,
            Command::WupA => 0x52,
            Command::CT => 0x88,
            Command::SelCl1 => 0x93,
            Command::SelCl2 => 0x95,
            Command::SelCl3 => 0x97,
            Command::HltA => 0x50,
            Command::RATS => 0xE0,
            Command::MfAuthKeyA => 0x60,
            Command::MfAuthKeyB => 0x61,
            Command::MfRead => 0x30,
            Command::MfWrite => 0xA0,
            Command::MfDecrement => 0xC0,
            Command::MfIncrement => 0xC1,
            Command::MfRestore => 0xC2,
            Command::MfTransfer => 0xB0,
            Command::UlWrite => 0xA2,
        }
    }

    /// The command byte sent to the PICC.
    pub fn byte(&self) -> (b: u8)
        ensures
            b == self.value(),
    {
        match self {
            Command::ReqA => 0x26,
            Command::WupA => 0x52,
            Command::CT => 0x88,
            Command::SelCl1 => 0x93,
            Command::SelCl2 => 0x95,
            Command::SelCl3 => 0x97,
            Command::HltA => 0x50,
            Command::RATS => 0xE0,
            Command::MfAuthKeyA => 0x60,
            Command::MfAuthKeyB => 0x61,
            Command::MfRead => 0x30,
            Command::MfWrite => 0xA0,
            Command::MfDecrement => 0xC0,
            Command::MfIncrement => 0xC1,
            Command::MfRestore => 0xC2,
            Command::MfTransfer => 0xB0,
            Command::UlWrite => 0xA2,
        }
    }
}

/// The kind of a PICC, as told by its SAK.
#[derive(Clone, Copy, Debug, PartialEq, Eq, Structural)]
pub enum Type {
    /// The SAK does not match a known type
    Unknown,
    /// PICC compliant with ISO/IEC 14443-4
    Iso14443_4,
    /// PICC compliant with ISO/IEC 18092 (NFC)
    Iso18092,
    /// MIFARE Classic protocol, 320 bytes
    MifareMini,
    /// MIFARE Classic protocol, 1KB
    Mifare1k,
    /// MIFARE Classic protocol, 4KB
    Mifare4k,
    /// MIFARE Ultralight or Ultralight C
    MifareUL,
    /// MIFARE Plus
    MifarePlus,
    /// Only mentioned in NXP AN 10833 MIFARE Type Identification Procedure
    TNP3XXX,
    /// The UID is not complete: another cascade level follows
    NotComplete,
}

/// The type that a SAK byte announces: decided by its low seven bits.
pub open spec fn type_of_sak(byte: u8) -> Type {
    let b = byte & 0x7F;
    if b == 0x04 {
        Type::NotComplete
    } else if b == 0x09 {
        Type::MifareMini
    } else if b == 0x08 {
        Type::Mifare1k
    } else if b == 0x18 {
        Type::Mifare4k
    } else if b == 0x00 {
        Type::MifareUL
    } else if b == 0x10 || b == 0x11 {
        Type::MifarePlus
    } else if b == 0x01 {
        Type::TNP3XXX
    } else if b == 0x20 {
        Type::Iso14443_4
    } else if b == 0x40 {
        Type::Iso18092
    } else {
        Type::Unknown
    }
}

/// Select AcKnowledge: the byte with which a PICC answers a SELECT.
#[derive(Clone, Copy, Debug, PartialEq, Eq)]
pub struct Sak {
    byte: u8,
}

impl Sak {
    /// The SAK byte.
    pub closed spec fn value(self) -> u8 {
        self.byte
    }

    /// The SAK that holds the given byte.
    pub closed spec fn of(byte: u8) -> Sak {
        Sak { byte }
    }

    /// Whether the UID is complete: bit 3 (mask 0x04), the cascade bit, is clear.
    pub open spec fn complete(self) -> bool {
        self.value() & 0x04 == 0
    }

    /// Whether the PICC is compliant with ISO/IEC 14443-4: bit 6 (mask 0x20) is set.
    pub open spec fn compliant(self) -> bool {
        self.value() & 0x20 != 0
    }

    /// The SAK byte.
    pub fn byte(&self) -> (b: u8)
        ensures
            b == self.value(),
    {
        self.byte
    }

    /// Whether the UID is complete, or another cascade level follows.
    pub fn is_complete(&self) -> (r: bool)
        ensures
            r == self.complete(),
    {
        self.byte & 0x04 == 0
    }

    /// Whether the PICC is compliant with ISO/IEC 14443-4.
    pub fn is_compliant(&self) -> (r: bool)
        ensures
            r == self.compliant(),
    {
        self.byte & 0x20 != 0
    }

    /// The type of the PICC.
    pub fn get_type(&self) -> (t: Type)
        ensures
            t == type_of_sak(self.value()),
    {
        let b = self.byte & 0x7F;
        if b == 0x04 {
            Type::NotComplete
        } else if b == 0x09 {
            Type::MifareMini
        } else if b == 0x08 {
            Type::Mifare1k
        } else if b == 0x18 {
            Type::Mifare4k
        } else if b == 0x00 {
            Type::MifareUL
        } else if b == 0x10 || b == 0x11 {
            Type::MifarePlus
        } else if b == 0x01 {
            Type::TNP3XXX
        } else if b == 0x20 {
            Type::Iso14443_4
        } else if b == 0x40 {
            Type::Iso18092
        } else {
            Type::Unknown
        }
    }
}

impl From<u8> for Sak {
    fn from(byte: u8) -> (sak: Sak) {
        Sak { byte }
    }
}

impl vstd::std_specs::convert::FromSpecImpl<u8> for Sak {
    open spec fn obeys_from_spec() -> bool {
        true
    }

    open spec fn from_spec(byte: u8) -> Sak {
        Sak::of(byte)
    }
}

/// A SAK made from a byte holds that byte.
pub proof fn lemma_sak_from_byte(byte: u8)
    ensures
        Sak::of(byte).value() == byte,
{
}

/// A SAK that announces a complete UID never has the type `NotComplete`.
pub proof fn lemma_complete_sak_has_a_type(sak: Sak)
    ensures
        sak.complete() ==> type_of_sak(sak.value()) != Type::NotComplete,
{
    let b = sak.value();
    assert((b & 0x04u8) == 0 ==> (b & 0x7Fu8) != 0x04u8) by (bit_vector);
}

/// A SAK of type `NotComplete` always announces another cascade level.
pub proof fn lemma_not_complete_type_cascades(sak: Sak)
    ensures
        type_of_sak(sak.value()) == Type::NotComplete ==> !sak.complete(),
{
    lemma_complete_sak_has_a_type(sak);
}

} // verus!
