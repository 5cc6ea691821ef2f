use vstd::prelude::*;

verus! {

/// What a transaction moves over the bus.
#[derive(Clone, Debug, PartialEq, Eq)]
pub enum Transfer {
    /// Send these bytes to the peripheral.
    Write(Vec<u8>),
    /// Ask the peripheral for this many bytes.
    Read(usize),
}

/// One addressed transaction, and the time the peripheral needs after it.
///
/// The drivers only say which transaction is due. Whoever owns the bus
/// carries it out, waits `settle_ms` milliseconds whatever the outcome, and
/// hands the outcome back as a `BusReply`.
#[derive(Clone, Debug, PartialEq, Eq)]
pub struct Transaction {
    /// Seven-bit address of the peripheral.
    pub address: u16,
    pub transfer: Transfer,
    /// Milliseconds to wait once the transfer is over.
    pub settle_ms: u64,
}

/// How a transaction ended.
#[derive(Clone, Debug, PartialEq, Eq)]
pub enum BusReply {
    /// The write was acknowledged.
    Written,
    /// The read returned these bytes; they may be fewer than were asked for.
    Data(Vec<u8>),
    /// The bus reported an error: no acknowledgement, bus busy.
    Fault,
}

/// A transaction as a plain value.
pub enum TransferView {
    Write(Seq<u8>),
    Read(nat),
}

pub struct TransactionView {
    pub address: u16,
    pub transfer: TransferView,
    pub settle_ms: u64,
}

impl View for Transfer {
    type V = TransferView;

    open spec fn view(&self) -> TransferView {
        match self {
            Transfer::Write(bytes) => TransferView::Write(bytes@),
            Transfer::Read(count) => TransferView::Read(*count as nat),
        }
    }
}

impl View for Transaction {
    type V = TransactionView;

    open spec fn view(&self) -> TransactionView {
        TransactionView {
            address: self.address,
            transfer: self.transfer@,
            settle_ms: self.settle_ms,
        }
    }
}

/// A reply as a plain value.
pub enum BusReplyView {
    Written,
    Data(Seq<u8>),
    Fault,
}

impl View for BusReply {
    type V = BusReplyView;

    open spec fn view(&self) -> BusReplyView {
        match self {
            BusReply::Written => BusReplyView::Written,
            BusReply::Data(bytes) => BusReplyView::Data(bytes@),
            BusReply::Fault => BusReplyView::Fault,
        }
    }
}

/// The transaction that writes `bytes` to the peripheral at `address`.
pub open spec fn write_to(address: u16, bytes: Seq<u8>, settle_ms: u64) -> TransactionView {
    TransactionView { address, transfer: TransferView::Write(bytes), settle_ms }
}

/// The transaction that reads `count` bytes from the peripheral at `address`.
pub open spec fn read_from(address: u16, count: nat, settle_ms: u64) -> TransactionView {
    TransactionView { address, transfer: TransferView::Read(count), settle_ms }
}

} // verus!
