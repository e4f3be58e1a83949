//! Register access over a bus: what every transport offers, whatever the
//! bus underneath.

use vstd::prelude::*;
use crate::register::Register;

verus! {

/// Error type for sensor transport
#[derive(Debug)]
pub enum TransportError<EBUS, EPIN> {
    /// Error variant for the transport bus itself
    BusError(EBUS),
    /// Error variant for pins associated with transport (SPI Chip Select)
    PinError(EPIN),
}

/// The error of a result, if it is one.
pub open spec fn failure<R, E>(result: Result<R, E>) -> Option<E> {
    match result {
        Ok(_) => None,
        Err(e) => Some(e),
    }
}

/// The bytes of an array that was read, or the error in its place.
pub open spec fn bytes_read<const N: usize, E>(result: Result<[u8; N], E>) -> Result<Seq<u8>, E> {
    match result {
        Ok(bytes) => Ok(bytes@),
        Err(e) => Err(e),
    }
}

/// One register access that a transport was asked for, and how it ended.
pub enum Transaction<E> {
    /// A write of `value` to `register`, and the error if it failed.
    Write { register: Register, value: u8, failure: Option<E> },
    /// A read of `len` bytes starting at `register`, and the bytes that
    /// came back.
    Read { register: Register, len: usize, data: Result<Seq<u8>, E> },
}

impl<E> Transaction<E> {
    /// Whether the access went through.
    pub open spec fn succeeded(self) -> bool {
        match self {
            Transaction::Write { failure, .. } => failure is None,
            Transaction::Read { data, .. } => data is Ok,
        }
    }

    /// The record of a write and of how it ended.
    pub open spec fn of_write(register: Register, value: u8, result: Result<(), E>) -> Self {
        Transaction::Write { register, value, failure: failure(result) }
    }

    /// The record of a read of `N` bytes and of how it ended.
    pub open spec fn of_read<const N: usize>(
        register: Register,
        result: Result<[u8; N], E>,
    ) -> Self {
        Transaction::Read { register, len: N, data: bytes_read(result) }
    }
}

/// Access to the registers of the device: one write operation and one read
/// operation of a length that the caller chooses.
pub trait Transport {
    /// What the bus reports when a transfer fails.
    type BusError;

    /// What a control line of the bus reports when it cannot be driven.
    type PinError;

    /// Writes `value` to `register`, which is not read-only.
    fn write_register(&mut self, register: Register, value: u8) -> Result<
        (),
        TransportError<Self::BusError, Self::PinError>,
    >
        requires
            !register.is_read_only(),
    ;

    /// Reads `N` bytes starting at `register`.
    fn read_register<const N: usize>(&mut self, register: Register) -> Result<
        [u8; N],
        TransportError<Self::BusError, Self::PinError>,
    >;
}

/// A transport with the record of the register accesses made through it.
///
/// The link owns the transport and notes every access that goes through
/// it. Nothing else can add to the record.
pub struct RegisterLink<T: Transport> {
    transport: T,
    accesses: Ghost<Seq<Transaction<TransportError<T::BusError, T::PinError>>>>,
}

impl<T: Transport> RegisterLink<T> {
    /// Every register access made through this link, oldest first.
    pub closed spec fn accesses(&self) -> Seq<
        Transaction<TransportError<T::BusError, T::PinError>>,
    > {
        self.accesses@
    }

    /// The transport behind the link.
    pub closed spec fn transport(&self) -> T {
        self.transport
    }

    /// A link to `transport`, with nothing on record.
    pub fn new(transport: T) -> (link: Self)
        ensures
            link.transport() == transport,
            link.accesses().len() == 0,
    {
        RegisterLink { transport, accesses: Ghost(Seq::empty()) }
    }

    /// Calls `write_register` on the transport and notes the access.
    pub fn write_register(&mut self, register: Register, value: u8) -> (result: Result<
        (),
        TransportError<T::BusError, T::PinError>,
    >)
        requires
            !register.is_read_only(),
        ensures
            final(self).accesses() == old(self).accesses().push(
                Transaction::of_write(register, value, result),
            ),
    {
        let result = self.transport.write_register(register, value);
        proof {
            self.accesses@ = self.accesses@.push(Transaction::of_write(register, value, result));
        }
        result
    }

    /// Calls `read_register` on the transport and notes the access.
    pub fn read_register<const N: usize>(&mut self, register: Register) -> (result: Result<
        [u8; N],
        TransportError<T::BusError, T::PinError>,
    >)
        ensures
            final(self).accesses() == old(self).accesses().push(
                Transaction::of_read(register, result),
            ),
    {
        let result = self.transport.read_register::<N>(register);
        proof {
            self.accesses@ = self.accesses@.push(Transaction::of_read(register, result));
        }
        result
    }
}

} // verus!
