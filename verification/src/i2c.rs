//! The transport over I2C.

use vstd::prelude::*;
use core::convert::Infallible;
use crate::register::Register;
use crate::bus::{I2cBus, I2cCall, I2cLink};
use crate::transport::{Transport, TransportError};

verus! {

/// ADXL343 I2C address.
/// Assumes ALT address pin low
pub const ADDRESS: u8 = 0x53;

/// Device transport using I2C
pub struct I2cTransport<I: I2cBus> {
    i2c: I2cLink<I>,
}

/// The bytes of the transaction that writes `value` to `register`.
pub open spec fn write_frame(register: Register, value: u8) -> Seq<u8> {
    seq![register.address(), value]
}

impl<I: I2cBus> I2cTransport<I> {
    /// Every call made on the bus so far, oldest first.
    pub closed spec fn calls(&self) -> Seq<I2cCall<I::Error>> {
        self.i2c.calls()
    }

    /// The bus that the transport owns.
    pub closed spec fn bus(&self) -> I {
        self.i2c.bus()
    }

    /// Create a new I2C transport
    pub fn new(i2c: I) -> (transport: Self)
        ensures
            transport.bus() == i2c,
            transport.calls().len() == 0,
    {
        I2cTransport { i2c: I2cLink::new(i2c) }
    }
}

impl<I: I2cBus> Transport for I2cTransport<I> {
    type BusError = I::Error;

    type PinError = Infallible;

    /// One transaction that sends the register's address and the value. A
    /// failure is a bus error, with what the bus reported.
    fn write_register(&mut self, register: Register, value: u8) -> (result: Result<
        (),
        TransportError<I::Error, Infallible>,
    >)
        ensures
            match result {
                Ok(_) => final(self).calls() == old(self).calls().push(
                    I2cCall::Write {
                        address: ADDRESS,
                        bytes: write_frame(register, value),
                        failure: None,
                    },
                ),
                Err(TransportError::BusError(e)) => final(self).calls() == old(self).calls().push(
                    I2cCall::Write {
                        address: ADDRESS,
                        bytes: write_frame(register, value),
                        failure: Some(e),
                    },
                ),
                Err(TransportError::PinError(_)) => false,
            },
    {
        let frame: [u8; 2] = [register.addr(), value];
        assert(frame@ =~= write_frame(register, value));
        match self.i2c.write(ADDRESS, &frame) {
            Ok(done) => Ok(done),
            Err(e) => Err(TransportError::BusError(e)),
        }
    }

    /// One transaction that sends the register's address and reads `N`
    /// bytes back; the device moves on to the next register after each. A
    /// failure is a bus error, with what the bus reported.
    fn read_register<const N: usize>(&mut self, register: Register) -> (result: Result<
        [u8; N],
        TransportError<I::Error, Infallible>,
    >)
        ensures
            match result {
                Ok(bytes) => final(self).calls() == old(self).calls().push(
                    I2cCall::WriteRead {
                        address: ADDRESS,
                        bytes: seq![register.address()],
                        len: N as nat,
                        data: Ok(bytes@),
                    },
                ),
                Err(TransportError::BusError(e)) => final(self).calls() == old(self).calls().push(
                    I2cCall::WriteRead {
                        address: ADDRESS,
                        bytes: seq![register.address()],
                        len: N as nat,
                        data: Err(e),
                    },
                ),
                Err(TransportError::PinError(_)) => false,
            },
    {
        let mut buffer: [u8; N] = [0; N];
        let command: [u8; 1] = [register.addr()];
        assert(command@ =~= seq![register.address()]);
        match self.i2c.write_read(ADDRESS, &command, &mut buffer) {
            Ok(()) => Ok(buffer),
            Err(e) => Err(TransportError::BusError(e)),
        }
    }
}

} // verus!
