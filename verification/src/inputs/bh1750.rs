use vstd::prelude::*;

use crate::inputs::bus::{
    read_from, write_to, BusReply, BusReplyView, Transaction, TransactionView, Transfer,
};
use crate::inputs::shared::SharedSensorState;
use crate::inputs::InputError;

verus! {

/// Bus address of the light sensor.
pub const BH1750_ADDR: u16 = 0x23;

/// Milliseconds the sensor needs for one conversion.
pub const MEASUREMENT_DELAY_MS: u64 = 150;

/// The commands of the sensor.
#[derive(Clone, Copy, Debug, PartialEq, Eq, Structural)]
pub enum OpCode {
    PowerOff,
    PowerOn,
    ResetMeasurement,
    QualityHigh,
    QualityHigh2,
    QualityLow,
}

impl OpCode {
    pub open spec fn wire(self) -> u8 {
        match self {
            OpCode::PowerOff => 0x00,
            OpCode::PowerOn => 0x01,
            OpCode::ResetMeasurement => 0x07,
            OpCode::QualityHigh => 0x20,
            OpCode::QualityHigh2 => 0x21,
            OpCode::QualityLow => 0x23,
        }
    }

    /// The byte that is the command on the wire.
    pub fn code(self) -> (c: u8)
        ensures
            c == self.wire(),
    {
        match self {
            OpCode::PowerOff => 0x00,
            OpCode::PowerOn => 0x01,
            OpCode::ResetMeasurement => 0x07,
            OpCode::QualityHigh => 0x20,
            OpCode::QualityHigh2 => 0x21,
            OpCode::QualityLow => 0x23,
        }
    }
}

/// Where the sensor's driver stands: the stage names the transaction that
/// is due next.
#[derive(Clone, Copy, Debug, PartialEq, Eq, Structural)]
pub enum SensorStage {
    /// The sensor is to be powered on.
    Uninitialized,
    /// The sensor is on; a measurement is to be asked for.
    Ready,
    /// A measurement was asked for; its two bytes are to be read.
    Measuring,
    /// The sensor could not be powered on; no transaction is due.
    Halted,
}

/// The write of the single command `op`.
pub open spec fn sensor_command(op: OpCode) -> TransactionView {
    write_to(BH1750_ADDR, seq![op.wire()], MEASUREMENT_DELAY_MS)
}

impl SensorStage {
    /// The transaction that is due, if any.
    pub open spec fn request(self) -> Option<TransactionView> {
        match self {
            SensorStage::Uninitialized => Some(sensor_command(OpCode::PowerOn)),
            SensorStage::Ready => Some(sensor_command(OpCode::QualityHigh2)),
            SensorStage::Measuring => Some(read_from(BH1750_ADDR, 2, MEASUREMENT_DELAY_MS)),
            SensorStage::Halted => None,
        }
    }

    /// The brightness read by the transaction that `reply` answers: some
    /// value only where a measurement was due and exactly two bytes came.
    /// It is the second of the two.
    pub open spec fn sample(self, reply: BusReplyView) -> Option<u8> {
        match reply {
            BusReplyView::Data(bytes) => if self == SensorStage::Measuring && bytes.len() == 2 {
                Some(bytes[1])
            } else {
                None
            },
            _ => None,
        }
    }

    /// What the turn that `reply` ends reports.
    ///
    /// Failing to power the sensor on is `HwNotFound`, and so is every turn
    /// after that. A measurement that cannot be asked for is `WriteErr`,
    /// one that does not arrive as two bytes is `ReadErr`.
    pub open spec fn outcome(self, reply: BusReplyView) -> Result<(), InputError> {
        match self {
            SensorStage::Uninitialized => if reply is Written {
                Ok(())
            } else {
                Err(InputError::HwNotFound)
            },
            SensorStage::Ready => if reply is Written {
                Ok(())
            } else {
                Err(InputError::WriteErr)
            },
            SensorStage::Measuring => if self.sample(reply) is Some {
                Ok(())
            } else {
                Err(InputError::ReadErr)
            },
            SensorStage::Halted => Err(InputError::HwNotFound),
        }
    }

    /// The stage that follows when the due transaction is answered by
    /// `reply`. A measurement that fails is given up; the next one is asked
    /// for as if nothing had happened.
    pub open spec fn after(self, reply: BusReplyView) -> SensorStage {
        match self {
            SensorStage::Uninitialized => if reply is Written {
                SensorStage::Ready
            } else {
                SensorStage::Halted
            },
            SensorStage::Ready => if reply is Written {
                SensorStage::Measuring
            } else {
                SensorStage::Ready
            },
            SensorStage::Measuring => SensorStage::Ready,
            SensorStage::Halted => SensorStage::Halted,
        }
    }
}

/// Driver of the ambient-light sensor.
///
/// The driver performs no transaction itself. It says which one is due
/// (`request`), and is told how that one ended (`measure_brightness`).
#[derive(Clone, Copy, Debug)]
pub struct BH1750 {
    stage: SensorStage,
}

impl View for BH1750 {
    type V = SensorStage;

    closed spec fn view(&self) -> SensorStage {
        self.stage
    }
}

/// The write of the single command `op`.
fn command(op: OpCode) -> (due: Transaction)
    ensures
        due@ == sensor_command(op),
{
    let mut bytes: Vec<u8> = Vec::new();
    bytes.push(op.code());
    assert(bytes@ =~= seq![op.wire()]);
    Transaction {
        address: BH1750_ADDR,
        transfer: Transfer::Write(bytes),
        settle_ms: MEASUREMENT_DELAY_MS,
    }
}

impl BH1750 {
    /// A driver for a sensor that has not been powered on.
    pub fn new() -> (driver: BH1750)
        ensures
            driver@ == SensorStage::Uninitialized,
    {
        BH1750 { stage: SensorStage::Uninitialized }
    }

    /// Makes powering the sensor on the next thing to do, wherever the
    /// driver stood.
    pub fn init(&mut self)
        ensures
            final(self)@ == SensorStage::Uninitialized,
    {
        self.stage = SensorStage::Uninitialized;
    }

    pub fn stage(&self) -> (stage: SensorStage)
        ensures
            stage == self@,
    {
        self.stage
    }

    /// The transaction that is due: `None` once powering on has failed.
    pub fn request(&self) -> (due: Option<Transaction>)
        ensures
            due is Some <==> self@.request() is Some,
            due matches Some(t) ==> Some(t@) == self@.request(),
    {
        match self.stage {
            SensorStage::Uninitialized => Some(command(OpCode::PowerOn)),
            SensorStage::Ready => Some(command(OpCode::QualityHigh2)),
            SensorStage::Measuring => Some(
                Transaction {
                    address: BH1750_ADDR,
                    transfer: Transfer::Read(2),
                    settle_ms: MEASUREMENT_DELAY_MS,
                },
            ),
            SensorStage::Halted => None,
        }
    }

    /// One turn of the poll loop: takes the reply to the transaction that
    /// was due and moves on.
    ///
    /// Where the reply completes a measurement, its brightness is published
    /// to `shared`. In every other case `shared` is left as it is.
    pub fn measure_brightness(&mut self, reply: &BusReply, shared: &mut SharedSensorState) -> (done:
        Result<(), InputError>)
        ensures
            final(self)@ == old(self)@.after(reply@),
            done == old(self)@.outcome(reply@),
            final(shared).buttons == old(shared).buttons,
            final(shared).brightness == (match old(self)@.sample(reply@) {
                Some(value) => value,
                None => old(shared).brightness,
            }),
    {
        match self.stage {
            SensorStage::Uninitialized => {
                if let BusReply::Written = reply {
                    self.stage = SensorStage::Ready;
                    Ok(())
                } else {
                    self.stage = SensorStage::Halted;
                    Err(InputError::HwNotFound)
                }
            },
            SensorStage::Ready => {
                if let BusReply::Written = reply {
                    self.stage = SensorStage::Measuring;
                    Ok(())
                } else {
                    Err(InputError::WriteErr)
                }
            },
            SensorStage::Measuring => {
                self.stage = SensorStage::Ready;
                if let BusReply::Data(bytes) = reply {
                    if bytes.len() == 2 {
                        shared.publish_brightness(bytes[1]);
                        return Ok(());
                    }
                }
                Err(InputError::ReadErr)
            },
            SensorStage::Halted => Err(InputError::HwNotFound),
        }
    }

    /// The brightness that was published last.
    pub fn get_brightness(shared: &SharedSensorState) -> (value: u8)
        ensures
            value == shared.brightness,
    {
        shared.get_brightness()
    }
}

/// A measurement is read only after it was asked for, and asked for only
/// once the sensor is on: no reply makes the driver skip a step, and none
/// brings a driver back that has given up.
pub proof fn lemma_sensor_in_order(stage: SensorStage, reply: BusReplyView)
    ensures
        stage.after(reply) == SensorStage::Measuring ==> stage == SensorStage::Ready,
        stage.after(reply) == SensorStage::Ready ==> stage != SensorStage::Halted,
        stage.after(reply) == SensorStage::Uninitialized ==> false,
        stage == SensorStage::Halted ==> stage.after(reply) == SensorStage::Halted,
        stage.sample(reply) is Some ==> stage.outcome(reply) is Ok,
{
}

} // verus!
