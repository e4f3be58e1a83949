//! The transport over SPI, with a chip-select line.

use vstd::prelude::*;
use crate::register::Register;
use crate::bus::{ChipSelect, SpiBus, SpiCall, SpiLink};
use crate::transport::{Transport, TransportError};

verus! {

/// The bit that marks the address byte of a read.
pub const READ_BIT: u8 = 0x80;

/// The two words that write `value` to `register`.
pub open spec fn write_words(register: Register, value: u8) -> Seq<u8> {
    seq![register.address(), value]
}

/// The word that opens a read at `register`: its address with the read
/// bit set.
pub open spec fn read_command(register: Register) -> u8 {
    register.address() | READ_BIT
}

/// `n` words of zero, sent while the device answers.
pub open spec fn dummy_words(n: usize) -> Seq<u8> {
    Seq::new(n as nat, |i: int| 0u8)
}

/// Whether `run` is the calls of one register write that ended in
/// `result`: select, send address and value, release, up to the first call
/// that failed. What the line reported comes back as a pin error, what the
/// bus reported as a bus error.
pub open spec fn is_write_run<EBUS, EPIN>(
    run: Seq<SpiCall<EBUS, EPIN>>,
    register: Register,
    value: u8,
    result: Result<(), TransportError<EBUS, EPIN>>,
) -> bool {
    let words = write_words(register, value);
    let selected: SpiCall<EBUS, EPIN> = SpiCall::SetLow { refused: None };
    match result {
        Ok(_) => run == seq![
            selected,
            SpiCall::Write { words, failure: None },
            SpiCall::SetHigh { refused: None },
        ],
        Err(TransportError::BusError(e)) => run == seq![
            selected,
            SpiCall::Write { words, failure: Some(e) },
        ],
        Err(TransportError::PinError(e)) => {
            ||| run == seq![SpiCall::<EBUS, EPIN>::SetLow { refused: Some(e) }]
            ||| run == seq![
                selected,
                SpiCall::Write { words, failure: None },
                SpiCall::SetHigh { refused: Some(e) },
            ]
        },
    }
}

/// Whether `run` is the calls of one read of `N` bytes at `register` that
/// ended in `result`: select, send the read command, exchange `N` dummy
/// words for the answer, release, up to the first call that failed. The
/// bytes returned are those that the exchange brought. What the line
/// reported comes back as a pin error, what the bus reported as a bus
/// error.
pub open spec fn is_read_run<const N: usize, EBUS, EPIN>(
    run: Seq<SpiCall<EBUS, EPIN>>,
    register: Register,
    result: Result<[u8; N], TransportError<EBUS, EPIN>>,
) -> bool {
    let command = seq![read_command(register)];
    let words = dummy_words(N);
    let selected: SpiCall<EBUS, EPIN> = SpiCall::SetLow { refused: None };
    match result {
        Ok(bytes) => run == seq![
            selected,
            SpiCall::Write { words: command, failure: None },
            SpiCall::Transfer { words, received: Ok(bytes@) },
            SpiCall::SetHigh { refused: None },
        ],
        Err(TransportError::BusError(e)) => {
            ||| run == seq![
                selected,
                SpiCall::Write { words: command, failure: Some(e) },
            ]
            ||| run == seq![
                selected,
                SpiCall::Write { words: command, failure: None },
                SpiCall::Transfer { words, received: Err(e) },
            ]
        },
        Err(TransportError::PinError(e)) => {
            ||| run == seq![SpiCall::<EBUS, EPIN>::SetLow { refused: Some(e) }]
            ||| exists|received: Seq<u8>|
                received.len() == N && run == seq![
                    selected,
                    SpiCall::Write { words: command, failure: None },
                    SpiCall::Transfer { words, received: Ok(received) },
                    SpiCall::SetHigh { refused: Some(e) },
                ]
        },
    }
}

/// Device transport using SPI
pub struct SpiTransport<SPI: SpiBus, CS: ChipSelect> {
    spi: SpiLink<SPI, CS>,
}

impl<SPI: SpiBus, CS: ChipSelect> SpiTransport<SPI, CS> {
    /// Every call made on the bus and on the chip-select line so far,
    /// oldest first.
    pub closed spec fn calls(&self) -> Seq<SpiCall<SPI::Error, CS::Error>> {
        self.spi.calls()
    }

    /// The bus that the transport owns.
    pub closed spec fn bus(&self) -> SPI {
        self.spi.bus()
    }

    /// The chip-select line that the transport owns.
    pub closed spec fn chip_select(&self) -> CS {
        self.spi.chip_select()
    }

    /// Create a new SPI transport
    pub fn new(spi: SPI, cs: CS) -> (transport: Self)
        ensures
            transport.bus() == spi,
            transport.chip_select() == cs,
            transport.calls().len() == 0,
    {
        SpiTransport { spi: SpiLink::new(spi, cs) }
    }
}

/// The address byte that opens a read at `register`. The read bit is free
/// in every address, so the address can be had back from the byte.
pub fn read_command_of(register: Register) -> (command: u8)
    ensures
        command == read_command(register),
        command & READ_BIT == READ_BIT,
        command & !READ_BIT == register.address(),
{
    let address = register.addr();
    assert(address <= 0x39);
    assert((address | 0x80) & 0x80 == 0x80 && (address | 0x80) & !0x80u8 == address)
        by (bit_vector)
        requires
            address <= 0x39,
    ;
    address | READ_BIT
}

impl<SPI: SpiBus, CS: ChipSelect> Transport for SpiTransport<SPI, CS> {
    type BusError = SPI::Error;

    type PinError = CS::Error;

    /// Selects the device, sends the register's address and the value, and
    /// releases the device. Stops at the first call that fails.
    fn write_register(&mut self, register: Register, value: u8) -> (result: Result<
        (),
        TransportError<SPI::Error, CS::Error>,
    >)
        ensures
            old(self).calls().is_prefix_of(final(self).calls()),
            is_write_run(
                final(self).calls().skip(old(self).calls().len() as int),
                register,
                value,
                result,
            ),
    {
        let ghost before = self.spi.calls();
        let frame: [u8; 2] = [register.addr(), value];
        assert(frame@ =~= write_words(register, value));
        let result = match self.spi.set_low() {
            Err(e) => Err(TransportError::PinError(e)),
            Ok(()) => match self.spi.write(&frame) {
                Err(e) => Err(TransportError::BusError(e)),
                Ok(()) => match self.spi.set_high() {
                    Err(e) => Err(TransportError::PinError(e)),
                    Ok(()) => Ok(()),
                },
            },
        };
        proof {
            let run = self.spi.calls().skip(before.len() as int);
            assert(run.len() == self.spi.calls().len() - before.len());
            assert(forall|i: int|
                0 <= i < run.len() ==> run[i] == self.spi.calls()[before.len() + i]);
            assert(is_write_run(run, register, value, result)) by {
                match result {
                    Ok(_) => {
                        assert(run =~= seq![run[0], run[1], run[2]]);
                    },
                    Err(TransportError::BusError(_)) => {
                        assert(run =~= seq![run[0], run[1]]);
                    },
                    Err(TransportError::PinError(_)) => {
                        if run.len() == 1 {
                            assert(run =~= seq![run[0]]);
                        } else {
                            assert(run =~= seq![run[0], run[1], run[2]]);
                        }
                    },
                }
            }
        }
        result
    }

    /// Selects the device, sends the register's address with the read bit,
    /// exchanges `N` dummy words for the answer, and releases the device.
    /// Stops at the first call that fails.
    fn read_register<const N: usize>(&mut self, register: Register) -> (result: Result<
        [u8; N],
        TransportError<SPI::Error, CS::Error>,
    >)
        ensures
            old(self).calls().is_prefix_of(final(self).calls()),
            is_read_run(
                final(self).calls().skip(old(self).calls().len() as int),
                register,
                result,
            ),
    {
        let ghost before = self.spi.calls();
        let command: [u8; 1] = [read_command_of(register)];
        let mut buffer: [u8; N] = [0; N];
        assert(command@ =~= seq![read_command(register)]);
        assert(buffer@ =~= dummy_words(N));
        let result = match self.spi.set_low() {
            Err(e) => Err(TransportError::PinError(e)),
            Ok(()) => match self.spi.write(&command) {
                Err(e) => Err(TransportError::BusError(e)),
                Ok(()) => match self.spi.transfer(&mut buffer) {
                    Err(e) => Err(TransportError::BusError(e)),
                    Ok(()) => match self.spi.set_high() {
                        Err(e) => Err(TransportError::PinError(e)),
                        Ok(()) => Ok(buffer),
                    },
                },
            },
        };
        proof {
            let run = self.spi.calls().skip(before.len() as int);
            assert(run.len() == self.spi.calls().len() - before.len());
            assert(forall|i: int|
                0 <= i < run.len() ==> run[i] == self.spi.calls()[before.len() + i]);
            assert(is_read_run(run, register, result)) by {
                match result {
                    Ok(_) => {
                        assert(run =~= seq![run[0], run[1], run[2], run[3]]);
                    },
                    Err(TransportError::BusError(_)) => {
                        if run.len() == 2 {
                            assert(run =~= seq![run[0], run[1]]);
                        } else {
                            assert(run =~= seq![run[0], run[1], run[2]]);
                        }
                    },
                    Err(TransportError::PinError(_)) => {
                        if run.len() == 1 {
                            assert(run =~= seq![run[0]]);
                        } else {
                            assert(buffer@.len() == N);
                            assert(run =~= seq![run[0], run[1], run[2], run[3]]);
                        }
                    },
                }
            }
        }
        result
    }
}

/// In a read, a failure to release the device after a good exchange is a
/// pin error, and a failure of the exchange is a bus error: the two never
/// pass for each other. A read succeeds exactly when every call of it went
/// through, and no call follows one that failed.
pub proof fn lemma_read_error_names_the_failed_call<const N: usize, EBUS, EPIN>(
    run: Seq<SpiCall<EBUS, EPIN>>,
    register: Register,
    result: Result<[u8; N], TransportError<EBUS, EPIN>>,
)
    requires
        is_read_run(run, register, result),
    ensures
        1 <= run.len() <= 4,
        result is Ok <==> run.len() == 4 && run.last().succeeded(),
        result matches Err(e) ==> (e is PinError <==> run.last().on_pin()),
        run.last() matches SpiCall::SetHigh { refused: Some(e) } ==> run.len() == 4
            && run[2].succeeded() && (result matches Err(TransportError::PinError(cause))
            && cause == e),
        run.last() matches SpiCall::Transfer { received: Err(e), .. } ==> (result matches Err(
            TransportError::BusError(cause),
        ) && cause == e),
        forall|i: int| 0 <= i < run.len() - 1 ==> (#[trigger] run[i]).succeeded(),
{
}

/// In a write, what the chip-select line reports is a pin error and what
/// the bus reports is a bus error. A write succeeds exactly when every call
/// of it went through, and no call follows one that failed.
pub proof fn lemma_write_error_names_the_failed_call<EBUS, EPIN>(
    run: Seq<SpiCall<EBUS, EPIN>>,
    register: Register,
    value: u8,
    result: Result<(), TransportError<EBUS, EPIN>>,
)
    requires
        is_write_run(run, register, value, result),
    ensures
        1 <= run.len() <= 3,
        result is Ok <==> run.len() == 3 && run.last().succeeded(),
        result matches Err(e) ==> (e is PinError <==> run.last().on_pin()),
        forall|i: int| 0 <= i < run.len() - 1 ==> (#[trigger] run[i]).succeeded(),
{
}

} // verus!
