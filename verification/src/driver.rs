//! The driver: start-up, configuration, raw register access and axis
//! readings.

use vstd::prelude::*;
use crate::data_format::DataFormatFlags;
use crate::register::Register;
use crate::transport::{failure, RegisterLink, Transaction, Transport, TransportError};

verus! {

/// ADXL343 device ID
pub const DEVICE_ID: u8 = 0xE5;

/// The output data rate of the device after start-up, in Hz. The driver
/// never changes it.
pub const SAMPLE_RATE_HZ: u8 = 100;

/// What the driver reports when an operation cannot be done.
#[derive(Debug)]
pub enum Error<E> {
    /// The transport failed; the cause is what it reported.
    Bus(E),
    /// The device on the bus does not identify itself as an ADXL343.
    Device,
    /// The data format of the device does not fit the reading asked for.
    Mode,
    /// The register cannot be written through this operation.
    Param,
}

/// A reading of the three axes in right-justified mode.
#[derive(Copy, Clone, Debug, PartialEq, Eq, Structural)]
pub struct I16x3 {
    pub x: i16,
    pub y: i16,
    pub z: i16,
}

/// A reading of the three axes in left-justified mode.
#[derive(Copy, Clone, Debug, PartialEq, Eq, Structural)]
pub struct U16x3 {
    pub x: u16,
    pub y: u16,
    pub z: u16,
}

/// The unsigned number that two bytes hold, least significant byte first.
pub open spec fn u16_from_le(lo: u8, hi: u8) -> int {
    lo + 256 * hi
}

/// The twos-complement number that two bytes hold, least significant byte
/// first.
pub open spec fn i16_from_le(lo: u8, hi: u8) -> int {
    if hi >= 128 {
        u16_from_le(lo, hi) - 65536
    } else {
        u16_from_le(lo, hi)
    }
}

/// Decodes a register pair as an unsigned number. The first byte is the
/// least significant one, as in `DATAX0` and `DATAX1`.
pub fn decode_u16(pair: [u8; 2]) -> (value: u16)
    ensures
        value == u16_from_le(pair[0], pair[1]),
{
    let lo: u8 = pair[0];
    let hi: u8 = pair[1];
    assert(((hi as u16) << 8) | (lo as u16) == lo + 256 * hi) by (bit_vector);
    ((hi as u16) << 8) | (lo as u16)
}

/// Decodes a register pair as a twos-complement number. The first byte is
/// the least significant one, as in `DATAX0` and `DATAX1`.
pub fn decode_i16(pair: [u8; 2]) -> (value: i16)
    ensures
        value == i16_from_le(pair[0], pair[1]),
{
    let lo: u8 = pair[0];
    let hi: u8 = pair[1];
    let unsigned: u16 = decode_u16(pair);
    assert(unsigned as i16 == (if hi >= 128 {
        lo + 256 * hi - 65536
    } else {
        lo + 256 * hi
    })) by (bit_vector)
        requires
            unsigned == lo + 256 * hi,
    ;
    unsigned as i16
}

/// The value of the latest write to `DATA_FORMAT` that went through, if
/// there was one.
pub open spec fn format_written<E>(history: Seq<Transaction<E>>) -> Option<u8>
    decreases history.len(),
{
    if history.len() == 0 {
        None
    } else {
        match history.last() {
            Transaction::Write { register: Register::DATA_FORMAT, value, failure: None } => Some(
                value,
            ),
            _ => format_written(history.drop_last()),
        }
    }
}

/// One more access changes the value written to `DATA_FORMAT` exactly when
/// it is a write to that register that went through.
pub proof fn lemma_format_written_push<E>(history: Seq<Transaction<E>>, next: Transaction<E>)
    ensures
        format_written(history.push(next)) == match next {
            Transaction::Write { register: Register::DATA_FORMAT, value, failure: None } => Some(
                value,
            ),
            _ => format_written(history),
        },
{
    assert(history.push(next).drop_last() =~= history);
}

/// The writes of the start-up sequence, in order: the data format, no
/// interrupts, a tap threshold of 20 (62.5 mg/LSB), a tap duration of 50
/// (625 us/LSB), no latency and no window (so no double tap), tap
/// detection on all three axes, and measurement on.
pub open spec fn setup_writes(data_format: DataFormatFlags) -> Seq<(Register, u8)> {
    seq![
        (Register::DATA_FORMAT, data_format.bits()),
        (Register::INT_ENABLE, 0u8),
        (Register::THRESH_TAP, 20u8),
        (Register::DUR, 50u8),
        (Register::LATENT, 0u8),
        (Register::WINDOW, 0u8),
        (Register::TAP_AXES, 0x7u8),
        (Register::POWER_CTL, 0x08u8),
    ]
}

/// The first `count` writes of the start-up sequence, all of which went
/// through but the last, which ended in `last`.
pub open spec fn setup_trace<E>(data_format: DataFormatFlags, count: nat, last: Option<E>) -> Seq<
    Transaction<E>,
> {
    Seq::new(
        count,
        |i: int|
            Transaction::Write {
                register: setup_writes(data_format)[i].0,
                value: setup_writes(data_format)[i].1,
                failure: if i + 1 < count {
                    None
                } else {
                    last
                },
            },
    )
}

/// Whether `run` is the accesses of one start-up that ended in `result`.
///
/// The identity register is read first. If the read fails, or the byte is
/// not `DEVICE_ID`, nothing else is done. Else the start-up writes follow
/// in order, up to the first that fails. Start-up succeeds exactly when
/// all eight went through; what a failed access reported comes back as the
/// cause of a bus error.
pub open spec fn is_setup_run<R, E>(
    run: Seq<Transaction<E>>,
    data_format: DataFormatFlags,
    result: Result<R, Error<E>>,
) -> bool {
    &&& run.len() >= 1
    &&& run[0] matches Transaction::Read { register: Register::DEVID, len: 1, data }
    &&& match data {
        Err(cause) => run.len() == 1 && (result matches Err(Error::Bus(e)) && e == cause),
        Ok(id) => {
            &&& id.len() == 1
            &&& if id[0] != DEVICE_ID {
                run.len() == 1 && result matches Err(Error::Device)
            } else {
                match result {
                    Ok(_) => run.skip(1) == setup_trace::<E>(data_format, 8, None),
                    Err(Error::Bus(cause)) => 2 <= run.len() <= 9 && run.skip(1) == setup_trace(
                        data_format,
                        (run.len() - 1) as nat,
                        Some(cause),
                    ),
                    Err(_) => false,
                }
            }
        },
    }
}

/// The registers that hold the low byte of each axis, in the order X, Y, Z.
pub open spec fn axis_registers() -> Seq<Register> {
    seq![Register::DATAX0, Register::DATAY0, Register::DATAZ0]
}

/// The number that a read of the `axis`-th register pair brought, if
/// `access` is such a read and went through: the pair decoded least
/// significant byte first, as twos complement if `signed`.
pub open spec fn axis_value<E>(access: Transaction<E>, axis: int, signed: bool) -> Option<int> {
    match access {
        Transaction::Read { register, len, data: Ok(pair) } => if register == axis_registers()[axis]
            && len == 2 && pair.len() == 2 {
            if signed {
                Some(i16_from_le(pair[0], pair[1]))
            } else {
                Some(u16_from_le(pair[0], pair[1]))
            }
        } else {
            None
        },
        _ => None,
    }
}

/// Whether `run` is the accesses of one reading of the three axes that
/// ended in `result`: a read of two bytes at the low register of each
/// axis, in the order X, Y, Z, up to the first that fails. The reading
/// holds the three numbers that came back; what a failed read reported
/// comes back as the cause of a bus error.
pub open spec fn is_reading_run<E>(
    run: Seq<Transaction<E>>,
    signed: bool,
    result: Result<(int, int, int), Error<E>>,
) -> bool {
    match result {
        Ok((x, y, z)) => {
            &&& run.len() == 3
            &&& axis_value(run[0], 0, signed) == Some(x)
            &&& axis_value(run[1], 1, signed) == Some(y)
            &&& axis_value(run[2], 2, signed) == Some(z)
        },
        Err(Error::Bus(cause)) => {
            &&& 1 <= run.len() <= 3
            &&& run.last() == Transaction::Read {
                register: axis_registers()[run.len() - 1],
                len: 2,
                data: Err(cause),
            }
            &&& forall|i: int|
                0 <= i < run.len() - 1 ==> axis_value(#[trigger] run[i], i, signed) is Some
        },
        Err(_) => false,
    }
}

/// The three numbers of a signed reading.
pub open spec fn signed_values<E>(result: Result<I16x3, E>) -> Result<(int, int, int), E> {
    match result {
        Ok(v) => Ok((v.x as int, v.y as int, v.z as int)),
        Err(e) => Err(e),
    }
}

/// The three numbers of an unsigned reading.
pub open spec fn unsigned_values<E>(result: Result<U16x3, E>) -> Result<(int, int, int), E> {
    match result {
        Ok(v) => Ok((v.x as int, v.y as int, v.z as int)),
        Err(e) => Err(e),
    }
}

/// ADXL343 driver
pub struct Adxl343<T: Transport> {
    /// Underlying device transport
    transport: RegisterLink<T>,
    /// Current data format
    data_format: DataFormatFlags,
}

impl<T: Transport> Adxl343<T> {
    /// The data format that the driver takes the device to have.
    pub closed spec fn format(&self) -> DataFormatFlags {
        self.data_format
    }

    /// Every register access that the driver has made, oldest first.
    pub closed spec fn history(&self) -> Seq<
        Transaction<TransportError<T::BusError, T::PinError>>,
    > {
        self.transport.accesses()
    }

    /// The data format that the driver holds is the one that it last wrote
    /// to the device. A write that failed does not count: the driver holds
    /// what it held before.
    pub open spec fn wf(&self) -> bool {
        format_written(self.history()) == Some(self.format().bits())
    }

    /// Get the device ID
    fn get_device_id(transport: &mut RegisterLink<T>) -> (result: Result<
        u8,
        TransportError<T::BusError, T::PinError>,
    >)
        ensures
            final(transport).accesses() == old(transport).accesses().push(
                Transaction::Read {
                    register: Register::DEVID,
                    len: 1,
                    data: match result {
                        Ok(id) => Ok(seq![id]),
                        Err(e) => Err(e),
                    },
                },
            ),
    {
        let output = transport.read_register::<1>(Register::DEVID);
        match output {
            Ok(bytes) => {
                assert(bytes@ =~= seq![bytes[0]]);
                Ok(bytes[0])
            },
            Err(cause) => Err(cause),
        }
    }

    /// Reads the register pair that starts at `register` as a
    /// twos-complement number.
    ///
    /// From the ADXL343 data sheet (p.25): "The output data is twos
    /// complement, with DATAx0 as the least significant byte and DATAx1 as
    /// the most significant byte"
    fn write_read_i16(&mut self, register: Register) -> (result: Result<
        i16,
        TransportError<T::BusError, T::PinError>,
    >)
        ensures
            final(self).format() == old(self).format(),
            final(self).history().len() == old(self).history().len() + 1,
            final(self).history().drop_last() == old(self).history(),
            final(self).history().last() matches Transaction::Read { register: r, len, data }
                && r == register && len == 2 && match result {
                Ok(value) => data matches Ok(pair) && pair.len() == 2 && value == i16_from_le(
                    pair[0],
                    pair[1],
                ),
                Err(e) => data == Err::<Seq<u8>, _>(e),
            },
    {
        let buffer = self.transport.read_register::<2>(register);
        assert(self.transport.accesses().drop_last() =~= old(self).transport.accesses());
        match buffer {
            Ok(pair) => Ok(decode_i16(pair)),
            Err(cause) => Err(cause),
        }
    }

    /// Reads the register pair that starts at `register` as an unsigned
    /// number.
    ///
    /// Used for reading `JUSTIFY`-mode data. From the ADXL343 data sheet
    /// (p.25): "A setting of 1 in the justify bit selects left-justified
    /// (MSB) mode, and a setting of 0 selects right-justified mode with
    /// sign extension."
    fn write_read_u16(&mut self, register: Register) -> (result: Result<
        u16,
        TransportError<T::BusError, T::PinError>,
    >)
        ensures
            final(self).format() == old(self).format(),
            final(self).history().len() == old(self).history().len() + 1,
            final(self).history().drop_last() == old(self).history(),
            final(self).history().last() matches Transaction::Read { register: r, len, data }
                && r == register && len == 2 && match result {
                Ok(value) => data matches Ok(pair) && pair.len() == 2 && value == u16_from_le(
                    pair[0],
                    pair[1],
                ),
                Err(e) => data == Err::<Seq<u8>, _>(e),
            },
    {
        let buffer = self.transport.read_register::<2>(register);
        assert(self.transport.accesses().drop_last() =~= old(self).transport.accesses());
        match buffer {
            Ok(pair) => Ok(decode_u16(pair)),
            Err(cause) => Err(cause),
        }
    }

    /// Runs the start-up sequence through `link`: checks the identity of
    /// the device, writes `data_format`, and sets the device up for
    /// single-tap detection and continuous measurement.
    pub fn initialize(link: &mut RegisterLink<T>, data_format: DataFormatFlags) -> (result: Result<
        (),
        Error<TransportError<T::BusError, T::PinError>>,
    >)
        ensures
            old(link).accesses().is_prefix_of(final(link).accesses()),
            is_setup_run(
                final(link).accesses().skip(old(link).accesses().len() as int),
                data_format,
                result,
            ),
            result is Ok ==> format_written(final(link).accesses()) == Some(data_format.bits()),
    {
        let ghost before = link.accesses();
        let id = Self::get_device_id(link);
        let ghost first = link.accesses().last();
        let id = match id {
            Ok(id) => id,
            Err(cause) => {
                assert(link.accesses().skip(before.len() as int) =~= seq![first]);
                return Err(Error::Bus(cause));
            },
        };
        if id != DEVICE_ID {
            assert(link.accesses().skip(before.len() as int) =~= seq![first]);
            return Err(Error::Device);
        }
        let writes: [(Register, u8); 8] = [
            (Register::DATA_FORMAT, data_format.bits()),
            (Register::INT_ENABLE, 0),
            (Register::THRESH_TAP, 20),
            (Register::DUR, 50),
            (Register::LATENT, 0),
            (Register::WINDOW, 0),
            (Register::TAP_AXES, 0x7),
            (Register::POWER_CTL, 0x08),
        ];
        assert(writes@ =~= setup_writes(data_format));
        let mut done: usize = 0;
        while done < 8
            invariant
                done <= 8,
                before == old(link).accesses(),
                first matches Transaction::Read { register: Register::DEVID, len: 1, data: Ok(d) }
                    && d.len() == 1 && d[0] == DEVICE_ID,
                writes@ == setup_writes(data_format),
                link.accesses() == before.push(first) + setup_trace(data_format, done as nat, None),
                done >= 1 ==> format_written(link.accesses()) == Some(data_format.bits()),
            decreases 8 - done,
        {
            let (register, value) = writes[done];
            let ghost so_far = link.accesses();
            let sent = link.write_register(register, value);
            proof {
                let next = Transaction::of_write(register, value, sent);
                lemma_format_written_push(so_far, next);
                assert(setup_trace(data_format, done as nat, None).push(next) =~= setup_trace(
                    data_format,
                    (done + 1) as nat,
                    failure(sent),
                ));
                assert(link.accesses() =~= before.push(first) + setup_trace(
                    data_format,
                    (done + 1) as nat,
                    failure(sent),
                ));
                assert(link.accesses().skip(before.len() as int).skip(1) =~= setup_trace(
                    data_format,
                    (done + 1) as nat,
                    failure(sent),
                ));
            }
            match sent {
                Ok(()) => {},
                Err(cause) => {
                    proof {
                        let run = link.accesses().skip(before.len() as int);
                        assert(run[0] == first);
                        assert(run.len() == done + 2);
                    }
                    return Err(Error::Bus(cause));
                },
            }
            done = done + 1;
        }
        proof {
            let run = link.accesses().skip(before.len() as int);
            assert(run.skip(1) =~= setup_trace(data_format, 8, None));
            assert(run[0] == first);
        }
        Ok(())
    }

    /// Create a new ADXL343 driver from the given peripheral
    ///
    /// Default tap detection level: 2G, 31.25ms duration, single tap only
    pub fn new(transport: T) -> (result: Result<
        Self,
        Error<TransportError<T::BusError, T::PinError>>,
    >)
        ensures
            result matches Ok(driver) ==> {
                &&& driver.wf()
                &&& driver.format().bits() == 0
                &&& is_setup_run(driver.history(), driver.format(), result)
            },
            result matches Err(e) ==> e is Bus || e is Device,
    {
        Self::new_with_data_format(transport, DataFormatFlags::empty())
    }

    /// Create a new ADXL343 driver configured with the given data format
    ///
    /// Runs `initialize` on the transport. If the start-up succeeds, the
    /// driver keeps the transport and the record of the start-up; if it
    /// fails, both are dropped.
    pub fn new_with_data_format(transport: T, data_format: DataFormatFlags) -> (result: Result<
        Self,
        Error<TransportError<T::BusError, T::PinError>>,
    >)
        ensures
            result matches Ok(driver) ==> {
                &&& driver.wf()
                &&& driver.format() == data_format
                &&& is_setup_run(driver.history(), data_format, result)
            },
            result matches Err(e) ==> e is Bus || e is Device,
    {
        let mut link = RegisterLink::new(transport);
        match Self::initialize(&mut link, data_format) {
            Ok(()) => {
                assert(link.accesses().skip(0) =~= link.accesses());
                Ok(Adxl343 { transport: link, data_format })
            },
            Err(e) => Err(e),
        }
    }

    /// The data format that the driver holds.
    pub fn get_data_format(&self) -> (data_format: DataFormatFlags)
        ensures
            data_format == self.format(),
    {
        self.data_format
    }

    /// Set the device data format
    ///
    /// Writes the format register, and takes the new format over if the
    /// write went through. If it failed, the driver holds the format that
    /// it held before.
    pub fn data_format(&mut self, data_format: DataFormatFlags) -> (result: Result<
        (),
        Error<TransportError<T::BusError, T::PinError>>,
    >)
        requires
            old(self).wf(),
        ensures
            final(self).wf(),
            match result {
                Ok(_) => {
                    &&& final(self).format() == data_format
                    &&& final(self).history() == old(self).history().push(
                        Transaction::Write {
                            register: Register::DATA_FORMAT,
                            value: data_format.bits(),
                            failure: None,
                        },
                    )
                },
                Err(Error::Bus(cause)) => {
                    &&& final(self).format() == old(self).format()
                    &&& final(self).history() == old(self).history().push(
                        Transaction::Write {
                            register: Register::DATA_FORMAT,
                            value: data_format.bits(),
                            failure: Some(cause),
                        },
                    )
                },
                Err(_) => false,
            },
    {
        let ghost before = self.transport.accesses();
        let sent = self.transport.write_register(Register::DATA_FORMAT, data_format.bits());
        proof {
            lemma_format_written_push(
                before,
                Transaction::of_write(Register::DATA_FORMAT, data_format.bits(), sent),
            );
        }
        match sent {
            Ok(()) => {
                self.data_format = data_format;
                Ok(())
            },
            Err(cause) => Err(Error::Bus(cause)),
        }
    }

    /// Write to the given register
    ///
    /// The data format is set with `data_format`, so that the driver knows
    /// of it: a write to `DATA_FORMAT` is refused here, and so is one to a
    /// read-only register. Nothing is sent then.
    pub fn write_register(&mut self, register: Register, value: u8) -> (result: Result<
        (),
        Error<TransportError<T::BusError, T::PinError>>,
    >)
        requires
            old(self).wf(),
        ensures
            final(self).wf(),
            final(self).format() == old(self).format(),
            (register == Register::DATA_FORMAT || register.is_read_only()) <==> (
            result matches Err(Error::Param)),
            match result {
                Ok(_) => final(self).history() == old(self).history().push(
                    Transaction::Write { register, value, failure: None },
                ),
                Err(Error::Bus(cause)) => final(self).history() == old(self).history().push(
                    Transaction::Write { register, value, failure: Some(cause) },
                ),
                Err(Error::Param) => *final(self) == *old(self),
                Err(_) => false,
            },
    {
        if register == Register::DATA_FORMAT || register.read_only() {
            return Err(Error::Param);
        }
        let ghost before = self.transport.accesses();
        let sent = self.transport.write_register(register, value);
        proof {
            lemma_format_written_push(before, Transaction::of_write(register, value, sent));
        }
        match sent {
            Ok(done) => Ok(done),
            Err(cause) => Err(Error::Bus(cause)),
        }
    }

    /// Read from a given register
    pub fn read_register<const N: usize>(&mut self, register: Register) -> (result: Result<
        [u8; N],
        Error<TransportError<T::BusError, T::PinError>>,
    >)
        requires
            old(self).wf(),
        ensures
            final(self).wf(),
            final(self).format() == old(self).format(),
            match result {
                Ok(bytes) => final(self).history() == old(self).history().push(
                    Transaction::Read { register, len: N, data: Ok(bytes@) },
                ),
                Err(Error::Bus(cause)) => final(self).history() == old(self).history().push(
                    Transaction::Read { register, len: N, data: Err(cause) },
                ),
                Err(_) => false,
            },
    {
        let ghost before = self.transport.accesses();
        let got = self.transport.read_register::<N>(register);
        proof {
            lemma_format_written_push(before, Transaction::of_read(register, got));
        }
        match got {
            Ok(bytes) => Ok(bytes),
            Err(cause) => Err(Error::Bus(cause)),
        }
    }

    /// Get acceleration reading from the accelerometer
    ///
    /// For a device in right-justified mode: each axis is a twos-complement
    /// number. In left-justified mode the reading is refused, and nothing
    /// is asked of the device.
    pub fn accel_raw(&mut self) -> (result: Result<
        I16x3,
        Error<TransportError<T::BusError, T::PinError>>,
    >)
        requires
            old(self).wf(),
        ensures
            final(self).wf(),
            final(self).format() == old(self).format(),
            old(self).format().has(DataFormatFlags::JUSTIFY) <==> (result matches Err(Error::Mode)),
            if result matches Err(Error::Mode) {
                *final(self) == *old(self)
            } else {
                &&& old(self).history().is_prefix_of(final(self).history())
                &&& is_reading_run(
                    final(self).history().skip(old(self).history().len() as int),
                    true,
                    signed_values(result),
                )
            },
    {
        if self.data_format.contains(DataFormatFlags::from_bits(DataFormatFlags::JUSTIFY)) {
            return Err(Error::Mode);
        }
        let ghost before = self.history();
        let x = match self.write_read_i16(Register::DATAX0) {
            Ok(x) => x,
            Err(cause) => {
                proof {
                    lemma_reads_keep_format(before, self.history(), 1);
                }
                return Err(Error::Bus(cause));
            },
        };
        let y = match self.write_read_i16(Register::DATAY0) {
            Ok(y) => y,
            Err(cause) => {
                proof {
                    lemma_reads_keep_format(before, self.history(), 2);
                }
                return Err(Error::Bus(cause));
            },
        };
        let z = self.write_read_i16(Register::DATAZ0);
        proof {
            lemma_reads_keep_format(before, self.history(), 3);
        }
        match z {
            Ok(z) => Ok(I16x3 { x, y, z }),
            Err(cause) => Err(Error::Bus(cause)),
        }
    }

    /// Get acceleration reading from the accelerometer, left-justified
    ///
    /// For a device in left-justified mode: each axis is an unsigned
    /// number. In right-justified mode the reading is refused, and nothing
    /// is asked of the device.
    pub fn accel_raw_unsigned(&mut self) -> (result: Result<
        U16x3,
        Error<TransportError<T::BusError, T::PinError>>,
    >)
        requires
            old(self).wf(),
        ensures
            final(self).wf(),
            final(self).format() == old(self).format(),
            !old(self).format().has(DataFormatFlags::JUSTIFY) <==> (result matches Err(
                Error::Mode,
            )),
            if result matches Err(Error::Mode) {
                *final(self) == *old(self)
            } else {
                &&& old(self).history().is_prefix_of(final(self).history())
                &&& is_reading_run(
                    final(self).history().skip(old(self).history().len() as int),
                    false,
                    unsigned_values(result),
                )
            },
    {
        if !self.data_format.contains(DataFormatFlags::from_bits(DataFormatFlags::JUSTIFY)) {
            return Err(Error::Mode);
        }
        let ghost before = self.history();
        let x = match self.write_read_u16(Register::DATAX0) {
            Ok(x) => x,
            Err(cause) => {
                proof {
                    lemma_reads_keep_format(before, self.history(), 1);
                }
                return Err(Error::Bus(cause));
            },
        };
        let y = match self.write_read_u16(Register::DATAY0) {
            Ok(y) => y,
            Err(cause) => {
                proof {
                    lemma_reads_keep_format(before, self.history(), 2);
                }
                return Err(Error::Bus(cause));
            },
        };
        let z = self.write_read_u16(Register::DATAZ0);
        proof {
            lemma_reads_keep_format(before, self.history(), 3);
        }
        match z {
            Ok(z) => Ok(U16x3 { x, y, z }),
            Err(cause) => Err(Error::Bus(cause)),
        }
    }
}

/// Reads do not change the value written to `DATA_FORMAT`.
proof fn lemma_reads_keep_format<E>(
    before: Seq<Transaction<E>>,
    after: Seq<Transaction<E>>,
    count: nat,
)
    requires
        after.len() == before.len() + count,
        before.is_prefix_of(after),
        forall|i: int| before.len() <= i < after.len() ==> (#[trigger] after[i]) is Read,
    ensures
        format_written(after) == format_written(before),
    decreases count,
{
    if count == 0 {
        assert(after =~= before);
    } else {
        let shorter = after.drop_last();
        lemma_reads_keep_format(before, shorter, (count - 1) as nat);
        lemma_format_written_push(shorter, after.last());
        assert(after =~= shorter.push(after.last()));
    }
}

/// A start-up that succeeds has made exactly these nine accesses, in this
/// order, and each went through.
pub proof fn lemma_setup_success<R, E>(
    run: Seq<Transaction<E>>,
    data_format: DataFormatFlags,
    result: Result<R, Error<E>>,
)
    requires
        is_setup_run(run, data_format, result),
        result is Ok,
    ensures
        run == seq![
            Transaction::<E>::Read { register: Register::DEVID, len: 1, data: Ok(seq![DEVICE_ID]) },
            Transaction::Write {
                register: Register::DATA_FORMAT,
                value: data_format.bits(),
                failure: None,
            },
            Transaction::Write { register: Register::INT_ENABLE, value: 0, failure: None },
            Transaction::Write { register: Register::THRESH_TAP, value: 20, failure: None },
            Transaction::Write { register: Register::DUR, value: 50, failure: None },
            Transaction::Write { register: Register::LATENT, value: 0, failure: None },
            Transaction::Write { register: Register::WINDOW, value: 0, failure: None },
            Transaction::Write { register: Register::TAP_AXES, value: 0x7, failure: None },
            Transaction::Write { register: Register::POWER_CTL, value: 0x08, failure: None },
        ],
{
    let id = run[0]->Read_data->Ok_0;
    assert(id =~= seq![DEVICE_ID]);
    let writes = run.skip(1);
    assert(writes.len() == 8);
    assert forall|i: int| 1 <= i < 9 implies run[i] == Transaction::<E>::Write {
        register: setup_writes(data_format)[i - 1].0,
        value: setup_writes(data_format)[i - 1].1,
        failure: None,
    } by {
        assert(run[i] == writes[i - 1]);
    }
}

/// A start-up fails with `Device` exactly when the identity read went
/// through and brought another byte than `DEVICE_ID`; it has then made no
/// other access. Whatever the outcome, the identity read comes first, no
/// write is made before the identity is known to be right, and no access
/// follows one that failed.
pub proof fn lemma_setup_checks_identity_first<R, E>(
    run: Seq<Transaction<E>>,
    data_format: DataFormatFlags,
    result: Result<R, Error<E>>,
)
    requires
        is_setup_run(run, data_format, result),
    ensures
        run[0] matches Transaction::Read { register: Register::DEVID, len: 1, .. },
        (result matches Err(Error::Device)) <==> (run[0] matches Transaction::Read {
            data: Ok(id),
            ..
        } && id[0] != DEVICE_ID),
        (result matches Err(Error::Device)) ==> run.len() == 1,
        run.len() > 1 ==> run[0] == (Transaction::<E>::Read {
            register: Register::DEVID,
            len: 1,
            data: Ok(seq![DEVICE_ID]),
        }),
        !(result matches Err(Error::Mode)) && !(result matches Err(Error::Param)),
        result is Ok <==> run.len() == 9 && run.last().succeeded(),
        forall|i: int| 0 <= i < run.len() - 1 ==> (#[trigger] run[i]).succeeded(),
{
    if run[0] is Read && run[0]->Read_data is Ok && run[0]->Read_data->Ok_0[0] == DEVICE_ID {
        let id = run[0]->Read_data->Ok_0;
        assert(id =~= seq![DEVICE_ID]);
        let writes = run.skip(1);
        assert(writes.len() == run.len() - 1);
        match result {
            Ok(_) => {
                assert(writes.len() == 8);
            },
            Err(_) => {},
        }
        assert(run.last() == writes[run.len() - 2]);
        assert forall|i: int| 0 <= i < run.len() - 1 implies (#[trigger] run[i]).succeeded() by {
            if i >= 1 {
                assert(run[i] == writes[i - 1]);
            }
        }
    }
}

} // verus!
