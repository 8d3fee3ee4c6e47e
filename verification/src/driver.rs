//! The driver: one measurement as a sequence of bus transactions.
//!
//! A measurement takes three transactions, in this order: a write to
//! `CTRL_REG2` that starts a single conversion, a read of the two
//! temperature output registers, a read of the three pressure output
//! registers. [`Lps22::read`] hands out the first; [`Lps22::advance`] takes
//! the outcome of the transaction that is due and answers with the next
//! transaction, or with the end of the measurement. The first failure ends
//! it: no further transaction is issued, and the error of the bus is handed
//! back as it came.
//!
//! The output registers are read right after the conversion was started.
//! The driver does not wait for the status register to report new data.

use vstd::prelude::*;
use crate::address::I2cAddress;
use crate::bus::{Outcome, Transaction};
use crate::decode::{
    decode_pressure, decode_temperature, lemma_pressure_range, lemma_temperature_round_trip,
    pressure_of, temperature_of, Measurement,
};
use crate::register::{Lps22ReadRegister, Lps22ReadWriteRegister, ReadRegister, WriteRegister};

verus! {

/// `ONE_SHOT` bit of `CTRL_REG2`: start a single conversion.
pub const ONE_SHOT: u8 = 0x01;

/// `IF_ADD_INC` bit of `CTRL_REG2`: step the register address on its own
/// while several bytes are read in one transaction.
pub const IF_ADD_INC: u8 = 0x10;

/// Where the driver stands in a measurement.
#[derive(Clone, Copy, Debug, PartialEq, Eq)]
pub enum Phase {
    /// No measurement is under way.
    Idle,
    /// The write that starts the conversion is due.
    Triggering,
    /// The read of the temperature output registers is due.
    ReadingTemperature,
    /// The read of the pressure output registers is due.
    ReadingPressure {
        /// The temperature that was read before.
        temperature: i16,
    },
}

/// What the caller is to do next.
#[derive(Debug, PartialEq, Eq)]
pub enum Action<E> {
    /// Perform this transaction and report its outcome.
    Perform(Transaction),
    /// The measurement is over, with this result.
    Finish(Result<Measurement, E>),
}

/// Driver for one sensor on a bus of type `I2C`.
///
/// The driver owns the bus for as long as it lives and lends it out through
/// [`Lps22::bus`].
pub struct Lps22<I2C> {
    address: I2cAddress,
    i2c: I2C,
    phase: Phase,
}

/// What a driver is made of, for use in contracts.
pub struct Lps22View<I2C> {
    /// The address the sensor answers to.
    pub address: I2cAddress,
    /// The bus the sensor is on.
    pub bus: I2C,
    /// Where the driver stands in a measurement.
    pub phase: Phase,
}

impl<I2C> View for Lps22<I2C> {
    type V = Lps22View<I2C>;

    closed spec fn view(&self) -> Lps22View<I2C> {
        Lps22View { address: self.address, bus: self.i2c, phase: self.phase }
    }
}

/// The read of `count` bytes that starts at `register`, on the device at
/// `address`.
pub open spec fn register_read<R: ReadRegister>(
    address: I2cAddress,
    register: R,
    count: usize,
) -> Transaction {
    Transaction::WriteRead { device: address.value(), register: register.read_address(), count }
}

/// The write of `value` to `register`, on the device at `address`.
pub open spec fn register_write<R: WriteRegister>(
    address: I2cAddress,
    register: R,
    value: u8,
) -> Transaction {
    Transaction::Write { device: address.value(), register: register.write_address(), value }
}

/// The byte that starts a conversion when it is written to `CTRL_REG2`: the
/// bits `IF_ADD_INC` and `ONE_SHOT` are set, and no other.
pub const START_CONVERSION: u8 = 0x11;

/// The transaction that starts a conversion.
pub open spec fn trigger(address: I2cAddress) -> Transaction {
    register_write(address, Lps22ReadWriteRegister::CTRL_REG2, START_CONVERSION)
}

/// The transaction that reads the temperature output registers.
pub open spec fn temperature_read(address: I2cAddress) -> Transaction {
    register_read(address, Lps22ReadRegister::TEMP_OUT_L, 2)
}

/// The transaction that reads the pressure output registers.
pub open spec fn pressure_read(address: I2cAddress) -> Transaction {
    register_read(address, Lps22ReadRegister::PRESSURE_OUT_XL, 3)
}

/// The transaction that is due in a phase, if any.
pub open spec fn due(address: I2cAddress, phase: Phase) -> Option<Transaction> {
    match phase {
        Phase::Idle => None,
        Phase::Triggering => Some(trigger(address)),
        Phase::ReadingTemperature => Some(temperature_read(address)),
        Phase::ReadingPressure { .. } => Some(pressure_read(address)),
    }
}

/// The step the driver makes when `outcome` is reported in `phase`: the
/// phase it enters and what it tells the caller to do. There is no step
/// where nothing is due, nor where the outcome is not one of the
/// transaction that is due.
pub open spec fn step<E>(address: I2cAddress, phase: Phase, outcome: Outcome<E>) -> Option<
    (Phase, Action<E>),
> {
    if !(due(address, phase) matches Some(transaction) && transaction.answered_by(outcome)) {
        None
    } else {
        match (phase, outcome) {
            (_, Outcome::Failed(error)) => Some((Phase::Idle, Action::Finish(Err(error)))),
            (Phase::Triggering, Outcome::Written) => Some(
                (Phase::ReadingTemperature, Action::Perform(temperature_read(address))),
            ),
            (Phase::ReadingTemperature, Outcome::Read(raw)) => Some(
                (
                    Phase::ReadingPressure { temperature: temperature_of(raw@) as i16 },
                    Action::Perform(pressure_read(address)),
                ),
            ),
            (Phase::ReadingPressure { temperature }, Outcome::Read(raw)) => Some(
                (
                    Phase::Idle,
                    Action::Finish(
                        Ok(Measurement { temperature, pressure: pressure_of(raw@) as u32 }),
                    ),
                ),
            ),
            _ => None,
        }
    }
}

impl<I2C> Lps22<I2C> {
    /// Creates a driver for the sensor at `address` on the bus `i2c`.
    ///
    /// Nothing is sent: the driver starts out idle.
    pub fn new(address: I2cAddress, i2c: I2C) -> (driver: Self)
        ensures
            driver@ == (Lps22View { address, bus: i2c, phase: Phase::Idle }),
    {
        Lps22 { address, i2c, phase: Phase::Idle }
    }

    /// The address the sensor answers to.
    pub fn address(&self) -> (address: I2cAddress)
        ensures
            address == self@.address,
    {
        self.address
    }

    /// Where the driver stands in a measurement.
    pub fn phase(&self) -> (phase: Phase)
        ensures
            phase == self@.phase,
    {
        self.phase
    }

    /// Lends out the bus, for the caller to perform a transaction on.
    pub fn bus(&mut self) -> (bus: &mut I2C)
        ensures
            *bus == old(self)@.bus,
            final(self)@ == (Lps22View { bus: *final(bus), ..old(self)@ }),
    {
        &mut self.i2c
    }

    /// The transaction that reads `count` bytes, starting at `reg`.
    pub fn read_register<R: ReadRegister>(&self, reg: R, count: usize) -> (transaction:
        Transaction)
        ensures
            transaction == register_read(self@.address, reg, count),
    {
        Transaction::WriteRead { device: self.address.addr(), register: reg.addr(), count }
    }

    /// The transaction that writes `byte` to `reg`.
    pub fn write_register<R: WriteRegister>(&self, reg: R, byte: u8) -> (transaction:
        Transaction)
        ensures
            transaction == register_write(self@.address, reg, byte),
    {
        Transaction::Write { device: self.address.addr(), register: reg.addr(), value: byte }
    }

    /// Starts a measurement and hands out its first transaction, the write
    /// that starts a conversion.
    ///
    /// A measurement that was under way is given up.
    pub fn read(&mut self) -> (transaction: Transaction)
        ensures
            transaction == trigger(old(self)@.address),
            final(self)@ == (Lps22View { phase: Phase::Triggering, ..old(self)@ }),
    {
        self.phase = Phase::Triggering;
        self.write_register(Lps22ReadWriteRegister::CTRL_REG2, START_CONVERSION)
    }

    /// Takes the outcome of the transaction that is due and says what to do
    /// next.
    ///
    /// The answer is `None`, and the driver stays as it is, where no
    /// transaction is due or `outcome` is not one the transaction that is
    /// due can have. Otherwise the driver makes the step that [`step`]
    /// describes.
    pub fn advance<E>(&mut self, outcome: Outcome<E>) -> (action: Option<Action<E>>)
        ensures
            match step(old(self)@.address, old(self)@.phase, outcome) {
                Some((phase, next)) => action == Some(next) && final(self)@ == (Lps22View {
                    phase,
                    ..old(self)@
                }),
                None => action is None && final(self)@ == old(self)@,
            },
    {
        match self.phase {
            Phase::Idle => None,
            Phase::Triggering => match outcome {
                Outcome::Written => {
                    self.phase = Phase::ReadingTemperature;
                    Some(Action::Perform(self.read_register(Lps22ReadRegister::TEMP_OUT_L, 2)))
                },
                Outcome::Failed(error) => {
                    self.phase = Phase::Idle;
                    Some(Action::Finish(Err(error)))
                },
                Outcome::Read(_) => None,
            },
            Phase::ReadingTemperature => match outcome {
                Outcome::Read(raw) => {
                    if raw.len() == 2 {
                        let temperature: i16 = decode_temperature([raw[0], raw[1]]);
                        self.phase = Phase::ReadingPressure { temperature };
                        Some(
                            Action::Perform(
                                self.read_register(Lps22ReadRegister::PRESSURE_OUT_XL, 3),
                            ),
                        )
                    } else {
                        None
                    }
                },
                Outcome::Failed(error) => {
                    self.phase = Phase::Idle;
                    Some(Action::Finish(Err(error)))
                },
                Outcome::Written => None,
            },
            Phase::ReadingPressure { temperature } => match outcome {
                Outcome::Read(raw) => {
                    if raw.len() == 3 {
                        let pressure: u32 = decode_pressure([raw[0], raw[1], raw[2]]);
                        self.phase = Phase::Idle;
                        Some(Action::Finish(Ok(Measurement { temperature, pressure })))
                    } else {
                        None
                    }
                },
                Outcome::Failed(error) => {
                    self.phase = Phase::Idle;
                    Some(Action::Finish(Err(error)))
                },
                Outcome::Written => None,
            },
        }
    }
}

/// The transactions the driver issues when `outcomes` are reported to it one
/// after another, the first of them in `phase`.
pub open spec fn issued<E>(address: I2cAddress, phase: Phase, outcomes: Seq<Outcome<E>>) -> Seq<
    Transaction,
>
    decreases outcomes.len(),
{
    if outcomes.len() == 0 {
        Seq::empty()
    } else {
        match step(address, phase, outcomes[0]) {
            None => issued(address, phase, outcomes.drop_first()),
            Some((next, Action::Perform(transaction))) => seq![transaction] + issued(
                address,
                next,
                outcomes.drop_first(),
            ),
            Some((next, Action::Finish(_))) => issued(address, next, outcomes.drop_first()),
        }
    }
}

/// The byte that starts a conversion is made of the two bits it is said to
/// be made of.
pub proof fn lemma_start_conversion_bits()
    ensures
        START_CONVERSION == IF_ADD_INC | ONE_SHOT,
{
    assert(0x11u8 == 0x10u8 | 0x01u8) by (bit_vector);
}

/// A failure of the transaction that is due ends the measurement: the driver
/// goes idle and hands back the error as it came.
pub proof fn lemma_failure_ends_measurement<E>(address: I2cAddress, phase: Phase, error: E)
    requires
        phase != Phase::Idle,
    ensures
        step(address, phase, Outcome::Failed(error)) == Some(
            (Phase::Idle, Action::<E>::Finish(Err(error))),
        ),
{
}

/// A measurement ends well only with the read of the pressure registers,
/// and its result then holds the temperature that was read before and the
/// pressure that was read last: there is no result made of one of them.
pub proof fn lemma_result_is_whole<E>(address: I2cAddress, phase: Phase, outcome: Outcome<E>)
    ensures
        step(address, phase, outcome) matches Some((next, Action::Finish(Ok(measurement)))) ==> {
            &&& next == Phase::Idle
            &&& phase == (Phase::ReadingPressure { temperature: measurement.temperature })
            &&& outcome is Read
            &&& outcome->Read_0@.len() == 3
            &&& measurement.pressure == pressure_of(outcome->Read_0@)
        },
{
    if outcome is Read && outcome->Read_0@.len() == 3 {
        lemma_pressure_range(outcome->Read_0@);
    }
}

/// Where every transaction goes well, a measurement is the write that
/// starts the conversion, the read of the temperature registers and the
/// read of the pressure registers, in this order, and its result is what
/// the two groups of bytes decode to.
pub proof fn lemma_measurement_in_three_steps<E>(
    address: I2cAddress,
    temperature: Vec<u8>,
    pressure: Vec<u8>,
)
    requires
        temperature@.len() == 2,
        pressure@.len() == 3,
    ensures
        due(address, Phase::Triggering) == Some(trigger(address)),
        step(address, Phase::Triggering, Outcome::<E>::Written) == Some(
            (Phase::ReadingTemperature, Action::<E>::Perform(temperature_read(address))),
        ),
        step(address, Phase::ReadingTemperature, Outcome::<E>::Read(temperature)) == Some(
            (
                Phase::ReadingPressure { temperature: temperature_of(temperature@) as i16 },
                Action::<E>::Perform(pressure_read(address)),
            ),
        ),
        step(
            address,
            Phase::ReadingPressure { temperature: temperature_of(temperature@) as i16 },
            Outcome::<E>::Read(pressure),
        ) == Some(
            (
                Phase::Idle,
                Action::<E>::Finish(
                    Ok(
                        Measurement {
                            temperature: temperature_of(temperature@) as i16,
                            pressure: pressure_of(pressure@) as u32,
                        },
                    ),
                ),
            ),
        ),
        temperature_of(temperature@) as i16 == temperature_of(temperature@),
        pressure_of(pressure@) as u32 == pressure_of(pressure@),
        issued(
            address,
            Phase::Triggering,
            seq![Outcome::<E>::Written, Outcome::<E>::Read(temperature), Outcome::<E>::Read(pressure)],
        ) == seq![temperature_read(address), pressure_read(address)],
{
    lemma_temperature_round_trip(temperature@);
    lemma_pressure_range(pressure@);
    let first = seq![
        Outcome::<E>::Written,
        Outcome::<E>::Read(temperature),
        Outcome::<E>::Read(pressure),
    ];
    let second = seq![Outcome::<E>::Read(temperature), Outcome::<E>::Read(pressure)];
    let third = seq![Outcome::<E>::Read(pressure)];
    let reading = Phase::ReadingPressure { temperature: temperature_of(temperature@) as i16 };
    assert(first.drop_first() =~= second);
    assert(second.drop_first() =~= third);
    assert(third.drop_first() =~= Seq::<Outcome<E>>::empty());
    assert(issued(address, Phase::Idle, third.drop_first()) =~= Seq::<Transaction>::empty());
    assert(issued(address, reading, third) =~= Seq::<Transaction>::empty());
    assert(issued(address, Phase::ReadingTemperature, second) =~= seq![pressure_read(address)]);
    assert(issued(address, Phase::Triggering, first) =~= seq![
        temperature_read(address),
        pressure_read(address),
    ]);
}

/// A read is issued only in answer to a transaction that went well: the
/// read of the temperature registers to the write that starts the
/// conversion, the read of the pressure registers to the read of the
/// temperature registers.
pub proof fn lemma_read_follows_success<E>(address: I2cAddress, phase: Phase, outcome: Outcome<E>)
    requires
        step(address, phase, outcome) matches Some((_, Action::Perform(_))),
    ensures
        outcome !is Failed,
        ({
            ||| {
                &&& phase == Phase::Triggering
                &&& outcome is Written
                &&& step(address, phase, outcome) == Some(
                    (Phase::ReadingTemperature, Action::<E>::Perform(temperature_read(address))),
                )
            }
            ||| {
                &&& phase == Phase::ReadingTemperature
                &&& outcome is Read
                &&& step(address, phase, outcome) == Some(
                    (
                        Phase::ReadingPressure {
                            temperature: temperature_of(outcome->Read_0@) as i16,
                        },
                        Action::<E>::Perform(pressure_read(address)),
                    ),
                )
            }
        }),
{
}

/// An idle driver issues no transaction, whatever is reported to it.
pub proof fn lemma_idle_issues_nothing<E>(address: I2cAddress, outcomes: Seq<Outcome<E>>)
    ensures
        issued(address, Phase::Idle, outcomes) == Seq::<Transaction>::empty(),
    decreases outcomes.len(),
{
    if outcomes.len() > 0 {
        lemma_idle_issues_nothing(address, outcomes.drop_first());
    }
}

/// After a failure the driver issues no transaction, whatever is reported
/// to it later.
pub proof fn lemma_nothing_issued_after_failure<E>(
    address: I2cAddress,
    phase: Phase,
    error: E,
    later: Seq<Outcome<E>>,
)
    ensures
        issued(address, phase, seq![Outcome::Failed(error)] + later) == Seq::<
            Transaction,
        >::empty(),
{
    let outcomes = seq![Outcome::Failed(error)] + later;
    assert(outcomes[0] == Outcome::Failed(error));
    assert(outcomes.drop_first() =~= later);
    lemma_idle_issues_nothing(address, later);
}

/// Where the write that starts the conversion fails, no register is read.
pub proof fn lemma_failed_trigger_reads_nothing<E>(
    address: I2cAddress,
    error: E,
    later: Seq<Outcome<E>>,
)
    ensures
        step(address, Phase::Triggering, Outcome::Failed(error)) == Some(
            (Phase::Idle, Action::<E>::Finish(Err(error))),
        ),
        ({
            let sent = issued(address, Phase::Triggering, seq![Outcome::Failed(error)] + later);
            forall|i: int| 0 <= i < sent.len() ==> !(#[trigger] sent[i] is WriteRead)
        }),
{
    lemma_nothing_issued_after_failure(address, Phase::Triggering, error, later);
}

/// Where the read of the temperature registers fails, the pressure
/// registers are not read.
pub proof fn lemma_failed_temperature_reads_no_pressure<E>(
    address: I2cAddress,
    error: E,
    later: Seq<Outcome<E>>,
)
    ensures
        step(address, Phase::ReadingTemperature, Outcome::Failed(error)) == Some(
            (Phase::Idle, Action::<E>::Finish(Err(error))),
        ),
        !issued(address, Phase::ReadingTemperature, seq![Outcome::Failed(error)] + later).contains(
            pressure_read(address),
        ),
{
    lemma_nothing_issued_after_failure(address, Phase::ReadingTemperature, error, later);
}

} // verus!
