//! What can go wrong while a pool is brought up to date.

use vstd::prelude::*;

verus! {

/// A network call that did not come back with an answer.
#[derive(Clone, Copy, Debug, PartialEq, Eq)]
pub struct TransportError;

/// The accounts whose bytes the state reader decodes.
#[derive(Clone, Copy, Debug, PartialEq, Eq)]
pub enum Account {
    StakePool,
    ValidatorList,
}

/// The calls that the transport offers.
#[derive(Clone, Copy, Debug, PartialEq, Eq)]
pub enum Call {
    AccountData,
    EpochInfo,
    LatestBlockhash,
    Simulate,
    Balance,
    SendNoWait,
    SendAndConfirm,
}

/// Why an update, or one of its steps, came to nothing.
#[derive(Clone, Copy, Debug, PartialEq, Eq)]
pub enum UpdateError {
    /// The named call failed on the network.
    Transport(Call),
    /// The bytes of the named account are malformed.
    Decode(Account),
    /// The simulation reported no usable count of compute units.
    Simulation,
    /// The fee of the assembled message could not be had.
    FeeEstimation,
    /// The fee payer holds less than the transaction needs.
    InsufficientBalance { required: u64, available: u64 },
    /// A reply came that does not answer the request that was pending.
    UnexpectedReply,
}

} // verus!
