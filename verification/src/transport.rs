//! What the orchestrator asks of the outside world, and what it is told.
//!
//! The state machines of this crate make no network call. Each step names
//! the next request; the caller performs it and hands back the reply.

use crate::address::{Address, Blockhash};
use crate::error::{Call, TransportError};
use crate::instruction::{clone_instructions, instruction_views, Instruction, InstructionView};
use crate::notifier::{Notification, NotificationView};
use vstd::prelude::*;

verus! {

/// How the limit on a transaction's compute units is set.
#[derive(Clone, Copy, Debug, PartialEq, Eq)]
pub enum ComputeUnitLimit {
    /// No limit is set: the network's default holds.
    Default,
    /// The limit is this number.
    Static(u32),
    /// The limit is what a simulation of the transaction consumes.
    Simulated,
}

/// Whether a send waits for the network's confirmation.
#[derive(Clone, Copy, Debug, PartialEq, Eq)]
pub enum SendMode {
    /// Send, and go on with the signature alone.
    NoWait,
    /// Send, and block until the transaction is confirmed.
    Wait,
}

/// What is done with a signed transaction.
#[derive(Clone, Copy, Debug, PartialEq, Eq)]
pub enum Delivery {
    /// It is simulated, and the result reported: nothing reaches the chain.
    Simulate,
    /// It is sent, without waiting for confirmation.
    SendNoWait,
    /// It is sent, and its confirmation awaited.
    SendAndConfirm,
}

/// What is done with a signed transaction: in a dry run it is simulated,
/// otherwise sent as the mode says.
pub open spec fn delivery_for(mode: SendMode, dry_run: bool) -> Delivery {
    if dry_run {
        Delivery::Simulate
    } else {
        match mode {
            SendMode::NoWait => Delivery::SendNoWait,
            SendMode::Wait => Delivery::SendAndConfirm,
        }
    }
}

/// The transport call that a delivery makes.
pub open spec fn call_of(delivery: Delivery) -> Call {
    match delivery {
        Delivery::Simulate => Call::Simulate,
        Delivery::SendNoWait => Call::SendNoWait,
        Delivery::SendAndConfirm => Call::SendAndConfirm,
    }
}

/// How a transaction that is to be confirmed is delivered.
pub fn send_transaction(dry_run: bool) -> (delivery: Delivery)
    ensures
        delivery == delivery_for(SendMode::Wait, dry_run),
{
    if dry_run {
        Delivery::Simulate
    } else {
        Delivery::SendAndConfirm
    }
}

/// How a transaction that is not waited for is delivered.
pub fn send_transaction_no_wait(dry_run: bool) -> (delivery: Delivery)
    ensures
        delivery == delivery_for(SendMode::NoWait, dry_run),
{
    if dry_run {
        Delivery::Simulate
    } else {
        Delivery::SendNoWait
    }
}

/// How a transaction is delivered, by mode.
pub fn delivery(mode: SendMode, dry_run: bool) -> (delivery: Delivery)
    ensures
        delivery == delivery_for(mode, dry_run),
{
    match mode {
        SendMode::NoWait => send_transaction_no_wait(dry_run),
        SendMode::Wait => send_transaction(dry_run),
    }
}

impl Delivery {
    /// The transport call that this delivery makes.
    pub fn call(self) -> (call: Call)
        ensures
            call == call_of(self),
    {
        match self {
            Delivery::Simulate => Call::Simulate,
            Delivery::SendNoWait => Call::SendNoWait,
            Delivery::SendAndConfirm => Call::SendAndConfirm,
        }
    }
}

/// A transaction before it is signed: made for one send, and dropped after.
#[derive(Debug, PartialEq, Eq)]
pub struct TransactionRequest {
    pub instructions: Vec<Instruction>,
    pub fee_payer: Address,
    pub compute_unit_limit: ComputeUnitLimit,
    pub blockhash: Blockhash,
}

/// A transaction request, its instructions as a sequence.
pub struct TransactionRequestView {
    pub instructions: Seq<InstructionView>,
    pub fee_payer: Address,
    pub compute_unit_limit: ComputeUnitLimit,
    pub blockhash: Blockhash,
}

impl View for TransactionRequest {
    type V = TransactionRequestView;

    open spec fn view(&self) -> TransactionRequestView {
        TransactionRequestView {
            instructions: instruction_views(self.instructions@),
            fee_payer: self.fee_payer,
            compute_unit_limit: self.compute_unit_limit,
            blockhash: self.blockhash,
        }
    }
}

impl Clone for TransactionRequest {
    fn clone(&self) -> (copy: Self)
        ensures
            copy@ == self@,
    {
        TransactionRequest {
            instructions: clone_instructions(&self.instructions),
            fee_payer: self.fee_payer,
            compute_unit_limit: self.compute_unit_limit,
            blockhash: self.blockhash,
        }
    }
}

/// What the caller is asked to do next.
#[derive(Debug, PartialEq, Eq)]
pub enum Request {
    /// Fetch the bytes of this account.
    AccountData(Address),
    /// Fetch the network's current epoch.
    EpochInfo,
    /// Fetch the hash of a recent block.
    LatestBlockhash,
    /// Simulate this transaction, unsigned, and report the compute units that
    /// it consumed.
    Simulate(TransactionRequest),
    /// Fetch the fee of this transaction's message.
    FeeForMessage(TransactionRequest),
    /// Fetch the balance of this account.
    Balance(Address),
    /// Sign this transaction and deliver it.
    Submit(TransactionRequest, Delivery),
    /// Wait for this many seconds.
    Sleep(u64),
    /// Wait before attempt `attempt` of a fetch that failed.
    Backoff { attempt: u32 },
    /// Send this notification. Its failure is of no consequence.
    Notify(Notification),
}

/// A request, in views.
pub enum RequestView {
    AccountData(Address),
    EpochInfo,
    LatestBlockhash,
    Simulate(TransactionRequestView),
    FeeForMessage(TransactionRequestView),
    Balance(Address),
    Submit(TransactionRequestView, Delivery),
    Sleep(u64),
    Backoff { attempt: u32 },
    Notify(NotificationView),
}

impl View for Request {
    type V = RequestView;

    open spec fn view(&self) -> RequestView {
        match *self {
            Request::AccountData(address) => RequestView::AccountData(address),
            Request::EpochInfo => RequestView::EpochInfo,
            Request::LatestBlockhash => RequestView::LatestBlockhash,
            Request::Simulate(transaction) => RequestView::Simulate(transaction@),
            Request::FeeForMessage(transaction) => RequestView::FeeForMessage(transaction@),
            Request::Balance(address) => RequestView::Balance(address),
            Request::Submit(transaction, delivery) => RequestView::Submit(transaction@, delivery),
            Request::Sleep(seconds) => RequestView::Sleep(seconds),
            Request::Backoff { attempt } => RequestView::Backoff { attempt },
            Request::Notify(notification) => RequestView::Notify(notification@),
        }
    }
}

impl RequestView {
    /// The request hands a transaction to the transport's send path.
    pub open spec fn is_submission(self) -> bool {
        self is Submit
    }

    /// The request makes a transaction known to the outside world in any
    /// form: simulated, priced or submitted.
    pub open spec fn carries_transaction(self) -> bool {
        self is Simulate || self is FeeForMessage || self is Submit
    }
}

/// What came of the request that was pending.
#[derive(Debug, PartialEq, Eq)]
pub enum Reply {
    AccountData(Result<Vec<u8>, TransportError>),
    EpochInfo(Result<u64, TransportError>),
    LatestBlockhash(Result<Blockhash, TransportError>),
    /// The compute units that the simulation consumed, if it says.
    Simulated(Result<Option<u64>, TransportError>),
    /// The fee in lamports.
    Fee(Result<u64, TransportError>),
    /// The balance in lamports.
    Balance(Result<u64, TransportError>),
    Submitted(Result<(), TransportError>),
    Slept,
    /// Whether the notification went out.
    Notified(bool),
}

/// A reply, in views.
pub enum ReplyView {
    AccountData(Result<Seq<u8>, TransportError>),
    EpochInfo(Result<u64, TransportError>),
    LatestBlockhash(Result<Blockhash, TransportError>),
    Simulated(Result<Option<u64>, TransportError>),
    Fee(Result<u64, TransportError>),
    Balance(Result<u64, TransportError>),
    Submitted(Result<(), TransportError>),
    Slept,
    Notified(bool),
}

impl View for Reply {
    type V = ReplyView;

    open spec fn view(&self) -> ReplyView {
        match *self {
            Reply::AccountData(Ok(data)) => ReplyView::AccountData(Ok(data@)),
            Reply::AccountData(Err(e)) => ReplyView::AccountData(Err(e)),
            Reply::EpochInfo(epoch) => ReplyView::EpochInfo(epoch),
            Reply::LatestBlockhash(hash) => ReplyView::LatestBlockhash(hash),
            Reply::Simulated(units) => ReplyView::Simulated(units),
            Reply::Fee(fee) => ReplyView::Fee(fee),
            Reply::Balance(balance) => ReplyView::Balance(balance),
            Reply::Submitted(result) => ReplyView::Submitted(result),
            Reply::Slept => ReplyView::Slept,
            Reply::Notified(sent) => ReplyView::Notified(sent),
        }
    }
}

} // verus!
