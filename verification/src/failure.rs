//! What can go wrong while a node is set up and driven, and what the test is
//! told when it does.
//!
//! No failure is recovered from: the first one ends the scenario, and the
//! caller stops the test with the message of the step that failed.

use vstd::prelude::*;

verus! {

/// The steps that bring a node up.
#[derive(Clone, Copy, Debug, PartialEq, Eq, Structural)]
pub enum SetupStep {
    /// Finding the `bitcoind` executable.
    LocateExecutable,
    /// Starting the process and waiting until it answers.
    StartNode,
}

/// The calls that the scenarios make on a node.
#[derive(Clone, Copy, Debug, PartialEq, Eq, Structural)]
pub enum CallKind {
    /// Ask the loaded wallet for a fresh receive address.
    NewAddress,
    /// Mine blocks whose reward goes to an address.
    GenerateToAddress,
    /// Send an amount from the loaded wallet to an address.
    SendToAddress,
    /// Ask for the hash of the newest block.
    BestBlockHash,
    /// Fetch a block by its hash.
    GetBlock,
}

/// Why a node could not be set up, or a scenario could not be completed.
#[derive(Clone, Copy, Debug, PartialEq, Eq, Structural)]
pub enum Failure {
    /// The executable was not found, or the node did not start.
    Setup(SetupStep),
    /// The node answered the call with an error, or could not be reached.
    Rpc(CallKind),
    /// The node's answer to the call was not what the call returns.
    Decoding(CallKind),
}

impl CallKind {
    /// The text that names the call when it fails.
    pub open spec fn failed_text(self) -> Seq<char> {
        match self {
            CallKind::NewAddress => "failed to get new address"@,
            CallKind::GenerateToAddress => "failed to generate to address"@,
            CallKind::SendToAddress => "failed to send to address"@,
            CallKind::BestBlockHash => "best_block_hash"@,
            CallKind::GetBlock => "best_block"@,
        }
    }

    /// The message that names the call when it fails.
    pub fn failed_message(&self) -> (text: &'static str)
        ensures
            text@ == self.failed_text(),
    {
        match self {
            CallKind::NewAddress => "failed to get new address",
            CallKind::GenerateToAddress => "failed to generate to address",
            CallKind::SendToAddress => "failed to send to address",
            CallKind::BestBlockHash => "best_block_hash",
            CallKind::GetBlock => "best_block",
        }
    }
}

impl Failure {
    /// The text of [`Failure::message`]. A failure is named after its step;
    /// only a transaction id that cannot be read has a message of its own.
    pub open spec fn message_text(self) -> Seq<char> {
        match self {
            Failure::Setup(SetupStep::LocateExecutable) => "failed to get bitcoind executable"@,
            Failure::Setup(SetupStep::StartNode) => "failed to create node"@,
            Failure::Decoding(CallKind::SendToAddress) => "failed to convert hex to txid"@,
            Failure::Rpc(kind) => kind.failed_text(),
            Failure::Decoding(kind) => kind.failed_text(),
        }
    }

    /// The message that the test stops with: it names the step that failed.
    pub fn message(&self) -> (text: &'static str)
        ensures
            text@ == self.message_text(),
    {
        match self {
            Failure::Setup(SetupStep::LocateExecutable) => "failed to get bitcoind executable",
            Failure::Setup(SetupStep::StartNode) => "failed to create node",
            Failure::Decoding(CallKind::SendToAddress) => "failed to convert hex to txid",
            Failure::Rpc(kind) => kind.failed_message(),
            Failure::Decoding(kind) => kind.failed_message(),
        }
    }
}

} // verus!
