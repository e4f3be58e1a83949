//! The buses under the transports: what a transport asks of an I2C or SPI
//! master, and a record of what it asked.
//!
//! A link owns a bus and notes every call that goes through it. Nothing
//! else can add to the record, so what a transport states of its calls is
//! stated of the bus.

use vstd::prelude::*;
use crate::transport::failure;

verus! {

/// An I2C bus master, as the transport needs it.
pub trait I2cBus {
    /// What the bus reports when a transaction fails.
    type Error;

    /// Sends `bytes` to the device at `address` in one transaction.
    fn write(&mut self, address: u8, bytes: &[u8]) -> Result<(), Self::Error>;

    /// Sends `bytes` to the device at `address`, then reads enough bytes
    /// to fill `buffer`, in one transaction.
    fn write_read(&mut self, address: u8, bytes: &[u8], buffer: &mut [u8]) -> Result<
        (),
        Self::Error,
    >;
}

/// An SPI bus master, as the transport needs it.
pub trait SpiBus {
    /// What the bus reports when a transfer fails.
    type Error;

    /// Sends `words` to the device and ignores what comes back.
    fn write(&mut self, words: &[u8]) -> Result<(), Self::Error>;

    /// Sends `words` to the device and replaces them by what came back.
    fn transfer(&mut self, words: &mut [u8]) -> Result<(), Self::Error>;
}

/// The chip-select line of the device: low selects it, high releases it.
pub trait ChipSelect {
    /// What the line reports when it cannot be driven.
    type Error;

    /// Drives the line low.
    fn set_low(&mut self) -> Result<(), Self::Error>;

    /// Drives the line high.
    fn set_high(&mut self) -> Result<(), Self::Error>;
}

/// What a call that fills a buffer brought: the bytes in the buffer, or
/// the error of the call.
pub open spec fn filled<E>(result: Result<(), E>, buffer: Seq<u8>) -> Result<Seq<u8>, E> {
    match result {
        Ok(_) => Ok(buffer),
        Err(e) => Err(e),
    }
}

/// One call on an I2C bus, and how it ended.
pub enum I2cCall<E> {
    /// `bytes` were sent to the device at `address`; `failure` is what the
    /// bus reported, if the call failed.
    Write { address: u8, bytes: Seq<u8>, failure: Option<E> },
    /// `bytes` were sent to the device at `address` and `len` bytes asked
    /// back; `data` holds them, or what the bus reported.
    WriteRead { address: u8, bytes: Seq<u8>, len: nat, data: Result<Seq<u8>, E> },
}

/// One call on an SPI bus or on its chip-select line, and how it ended.
pub enum SpiCall<EBUS, EPIN> {
    /// The chip-select line was driven low; `refused` is what the line
    /// reported, if the call failed.
    SetLow { refused: Option<EPIN> },
    /// `words` were sent; `failure` is what the bus reported, if the call
    /// failed.
    Write { words: Seq<u8>, failure: Option<EBUS> },
    /// `words` were sent; `received` holds what came back for them, or
    /// what the bus reported.
    Transfer { words: Seq<u8>, received: Result<Seq<u8>, EBUS> },
    /// The chip-select line was driven high; `refused` is what the line
    /// reported, if the call failed.
    SetHigh { refused: Option<EPIN> },
}

impl<EBUS, EPIN> SpiCall<EBUS, EPIN> {
    /// Whether the call was made on the chip-select line.
    pub open spec fn on_pin(self) -> bool {
        self is SetLow || self is SetHigh
    }

    /// Whether the call went through.
    pub open spec fn succeeded(self) -> bool {
        match self {
            SpiCall::SetLow { refused } => refused is None,
            SpiCall::Write { failure, .. } => failure is None,
            SpiCall::Transfer { received, .. } => received is Ok,
            SpiCall::SetHigh { refused } => refused is None,
        }
    }
}

/// An I2C bus with the record of the calls made on it.
pub struct I2cLink<I: I2cBus> {
    bus: I,
    calls: Ghost<Seq<I2cCall<I::Error>>>,
}

impl<I: I2cBus> I2cLink<I> {
    /// Every call made on the bus through this link, oldest first.
    pub closed spec fn calls(&self) -> Seq<I2cCall<I::Error>> {
        self.calls@
    }

    /// The bus behind the link.
    pub closed spec fn bus(&self) -> I {
        self.bus
    }

    /// A link to `bus`, with nothing on record.
    pub fn new(bus: I) -> (link: Self)
        ensures
            link.bus() == bus,
            link.calls().len() == 0,
    {
        I2cLink { bus, calls: Ghost(Seq::empty()) }
    }

    /// Calls `write` on the bus and notes the call.
    pub fn write(&mut self, address: u8, bytes: &[u8]) -> (result: Result<(), I::Error>)
        ensures
            final(self).calls() == old(self).calls().push(
                I2cCall::Write { address, bytes: bytes@, failure: failure(result) },
            ),
    {
        let result = self.bus.write(address, bytes);
        proof {
            self.calls@ = self.calls@.push(
                I2cCall::Write { address, bytes: bytes@, failure: failure(result) },
            );
        }
        result
    }

    /// Calls `write_read` on the bus and notes the call, with what the bus
    /// left in `buffer`.
    pub fn write_read(&mut self, address: u8, bytes: &[u8], buffer: &mut [u8]) -> (result: Result<
        (),
        I::Error,
    >)
        ensures
            final(self).calls() == old(self).calls().push(
                I2cCall::WriteRead {
                    address,
                    bytes: bytes@,
                    len: old(buffer)@.len(),
                    data: filled(result, final(buffer)@),
                },
            ),
    {
        let ghost len = buffer@.len();
        let result = self.bus.write_read(address, bytes, buffer);
        proof {
            self.calls@ = self.calls@.push(
                I2cCall::WriteRead {
                    address,
                    bytes: bytes@,
                    len,
                    data: filled(result, buffer@),
                },
            );
        }
        result
    }
}

/// An SPI bus and its chip-select line, with the record of the calls made
/// on them.
pub struct SpiLink<SPI: SpiBus, CS: ChipSelect> {
    bus: SPI,
    chip_select: CS,
    calls: Ghost<Seq<SpiCall<SPI::Error, CS::Error>>>,
}

impl<SPI: SpiBus, CS: ChipSelect> SpiLink<SPI, CS> {
    /// Every call made on the bus and on the line through this link,
    /// oldest first.
    pub closed spec fn calls(&self) -> Seq<SpiCall<SPI::Error, CS::Error>> {
        self.calls@
    }

    /// The bus behind the link.
    pub closed spec fn bus(&self) -> SPI {
        self.bus
    }

    /// The chip-select line behind the link.
    pub closed spec fn chip_select(&self) -> CS {
        self.chip_select
    }

    /// A link to `bus` and `chip_select`, with nothing on record.
    pub fn new(bus: SPI, chip_select: CS) -> (link: Self)
        ensures
            link.bus() == bus,
            link.chip_select() == chip_select,
            link.calls().len() == 0,
    {
        SpiLink { bus, chip_select, calls: Ghost(Seq::empty()) }
    }

    /// Calls `set_low` on the line and notes the call.
    pub fn set_low(&mut self) -> (result: Result<(), CS::Error>)
        ensures
            final(self).calls() == old(self).calls().push(
                SpiCall::SetLow { refused: failure(result) },
            ),
    {
        let result = self.chip_select.set_low();
        proof {
            self.calls@ = self.calls@.push(SpiCall::SetLow { refused: failure(result) });
        }
        result
    }

    /// Calls `set_high` on the line and notes the call.
    pub fn set_high(&mut self) -> (result: Result<(), CS::Error>)
        ensures
            final(self).calls() == old(self).calls().push(
                SpiCall::SetHigh { refused: failure(result) },
            ),
    {
        let result = self.chip_select.set_high();
        proof {
            self.calls@ = self.calls@.push(SpiCall::SetHigh { refused: failure(result) });
        }
        result
    }

    /// Calls `write` on the bus and notes the call.
    pub fn write(&mut self, words: &[u8]) -> (result: Result<(), SPI::Error>)
        ensures
            final(self).calls() == old(self).calls().push(
                SpiCall::Write { words: words@, failure: failure(result) },
            ),
    {
        let result = self.bus.write(words);
        proof {
            self.calls@ = self.calls@.push(
                SpiCall::Write { words: words@, failure: failure(result) },
            );
        }
        result
    }

    /// Calls `transfer` on the bus and notes the call, with what the bus
    /// left in `words`.
    pub fn transfer(&mut self, words: &mut [u8]) -> (result: Result<(), SPI::Error>)
        ensures
            final(self).calls() == old(self).calls().push(
                SpiCall::Transfer {
                    words: old(words)@,
                    received: filled(result, final(words)@),
                },
            ),
    {
        let ghost sent = words@;
        let result = self.bus.transfer(words);
        proof {
            self.calls@ = self.calls@.push(
                SpiCall::Transfer {
                    words: sent,
                    received: filled(result, words@),
                },
            );
        }
        result
    }
}

} // verus!
