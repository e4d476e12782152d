# mfrc522-async

A driver for the MFRC522 contactless reader IC (an ISO 14443A *Proximity
Coupling Device*), whose logic is verified with Verus.

Each operation of the driver (initialization, REQA, anticollision and
SELECT across the three cascade levels, CRC calculation, transceive, ...) is
written as a function from the replies received so far on the bus to the next
action to perform on the SPI device or the IRQ line, or to its result. Its
contract says that it follows a model of the operation, a `bus::Run`: the
actions asked for, in order, and how the operation ends for every possible
sequence of replies. The async code that owns the SPI device and the IRQ pin
only performs the actions and hands the replies back.

The operations on a PICC (REQA, SELECT, the antenna gain, ...) are methods
of an `Mfrc522` in the `Initialized` state only, and that state is reached only
from an initialization that ran to its end.

Unlike a `no_std` driver, the library allocates: actions and replies carry
their bytes in a `Vec`, and the driving loop keeps the replies of the current
operation in one.

## Layout

- `src/register.rs`, `src/picc.rs`: register addresses and bit masks, PCD and
  PICC commands, SAK decoding.
- `src/uid.rs`: ATQA, UIDs and the FIFO data with the bit-level copy used by
  anticollision.
- `src/bus.rs`: actions, replies, runs, and the primitive register accesses.
- `src/driver.rs`: the driver value, its states, and its operations.
- `src/procedure.rs`, `src/select.rs`: the operations' steps and their models.
- `src/laws.rs`: properties of the library proved about those models.
- `src/comm/eh02/i2c.rs`: the frames of the blocking I2C interface.
- `app/`: the async loop on `embedded-hal-async` and `embassy-time`, and the
  I2C interface on `embedded-hal` 0.2.
- `tests/`: tests on concrete values, driving the operations with recorded
  bus replies.
