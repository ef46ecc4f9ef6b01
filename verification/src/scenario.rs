//! The scenarios as a state machine over mathematical values.
//!
//! A scenario is a fixed sequence of calls on a node. The machine says which
//! call comes next and what each answer of the node leads to; it never makes
//! a call itself. [`crate::driver::Driver`] is the same machine on executable
//! values, and its contracts are stated over this one.

use crate::failure::{CallKind, Failure};
use crate::txid::{is_txid_hex, txid_bytes};
use vstd::prelude::*;

verus! {

/// Number of blocks to generate when funding a wallet: a block's reward can
/// be spent after 100 more blocks, so with 101 the reward of the first is
/// spendable.
pub const FUNDING_BLOCKS: usize = 101;

/// The amount of the transaction that the scenarios create, in satoshis.
pub const TRANSFER_SATS: u64 = 1_000_000;

/// What a test wants done on its node.
#[derive(Clone, Copy, Debug, PartialEq, Eq, Structural)]
pub enum Scenario {
    /// Mine [`FUNDING_BLOCKS`] blocks to an address of the loaded wallet.
    FundWallet,
    /// Mine one block to a new address of the loaded wallet.
    MineBlock,
    /// Create a transaction and leave it in the mempool.
    MempoolTransaction,
    /// Create a transaction and mine a block that includes it.
    MinedTransaction,
}

/// A call on the node, with its arguments.
///
/// `A` is the node's type of addresses and `H` its type of block hashes; the
/// machine hands them on and never looks inside.
pub enum CallView<A, H> {
    NewAddress,
    GenerateToAddress { blocks: usize, address: A },
    SendToAddress { address: A, sats: u64 },
    BestBlockHash,
    GetBlock { hash: H },
}

impl<A, H> CallView<A, H> {
    /// Which call this is, without its arguments.
    pub open spec fn kind(self) -> CallKind {
        match self {
            CallView::NewAddress => CallKind::NewAddress,
            CallView::GenerateToAddress { .. } => CallKind::GenerateToAddress,
            CallView::SendToAddress { .. } => CallKind::SendToAddress,
            CallView::BestBlockHash => CallKind::BestBlockHash,
            CallView::GetBlock { .. } => CallKind::GetBlock,
        }
    }
}

/// The node's answer to a call. `T` is the node's type of transactions.
pub enum ReplyView<A, H, T> {
    /// The answer to `NewAddress`.
    Address(A),
    /// The answer to `GenerateToAddress`: the blocks were mined.
    Generated,
    /// The answer to `SendToAddress`: the new transaction's id as the node
    /// wrote it.
    Sent(Seq<char>),
    /// The answer to `BestBlockHash`.
    BestBlockHash(H),
    /// The answer to `GetBlock`: the block's transactions, in their order.
    Block(Seq<T>),
    /// The call returned an error, or the node could not be reached.
    Failed,
}

impl<A, H, T> ReplyView<A, H, T> {
    /// The failure that this answer is when it is not the answer that the
    /// call `kind` was waiting for.
    pub open spec fn refusal(self, kind: CallKind) -> Failure {
        if self is Failed {
            Failure::Rpc(kind)
        } else {
            Failure::Decoding(kind)
        }
    }
}

/// What a completed scenario hands to the test.
pub enum ArtifactView<A, T> {
    /// Blocks were mined; there is nothing to hand over.
    Nothing,
    /// A transaction waits in the mempool: the address it pays and its id.
    Mempool { address: A, txid: Seq<u8> },
    /// A transaction is in the newest block: the address it pays and the
    /// transaction.
    Mined { address: A, transaction: T },
}

/// The states of the machine.
pub enum DriverView<A, H, T> {
    /// An address to pay is wanted. `mine` says that the payment is mined
    /// afterwards.
    NeedRecipient { mine: bool },
    /// The payment to `recipient` is to be sent.
    Sending { recipient: A, mine: bool },
    /// An address for the reward of `blocks` blocks is wanted. `confirms` is
    /// the address of the payment that these blocks confirm, if there is one.
    NeedMiner { blocks: usize, confirms: Option<A> },
    /// `blocks` blocks are to be mined to `miner`.
    Generating { blocks: usize, miner: A, confirms: Option<A> },
    /// The payment to `recipient` is mined; the hash of the newest block is
    /// wanted.
    NeedTip { recipient: A },
    /// The block with hash `tip` is wanted.
    NeedBlock { recipient: A, tip: H },
    /// The scenario is complete.
    Done(ArtifactView<A, T>),
    /// The scenario was given up.
    Failed(Failure),
}

impl<A, H, T> DriverView<A, H, T> {
    /// The state in which `scenario` begins.
    pub open spec fn start(scenario: Scenario) -> Self {
        match scenario {
            Scenario::FundWallet => DriverView::NeedMiner { blocks: FUNDING_BLOCKS, confirms: None },
            Scenario::MineBlock => DriverView::NeedMiner { blocks: 1, confirms: None },
            Scenario::MempoolTransaction => DriverView::NeedRecipient { mine: false },
            Scenario::MinedTransaction => DriverView::NeedRecipient { mine: true },
        }
    }

    /// True when no call remains: the scenario is complete or was given up.
    pub open spec fn is_over(self) -> bool {
        self is Done || self is Failed
    }

    /// The call to make in this state; `None` when the scenario is over.
    pub open spec fn call(self) -> Option<CallView<A, H>> {
        match self {
            DriverView::NeedRecipient { .. } => Some(CallView::NewAddress),
            DriverView::Sending { recipient, .. } => Some(
                CallView::SendToAddress { address: recipient, sats: TRANSFER_SATS },
            ),
            DriverView::NeedMiner { .. } => Some(CallView::NewAddress),
            DriverView::Generating { blocks, miner, .. } => Some(
                CallView::GenerateToAddress { blocks, address: miner },
            ),
            DriverView::NeedTip { .. } => Some(CallView::BestBlockHash),
            DriverView::NeedBlock { tip, .. } => Some(CallView::GetBlock { hash: tip }),
            DriverView::Done(_) => None,
            DriverView::Failed(_) => None,
        }
    }

    /// The state after the node answered this state's call with `reply`.
    ///
    /// The answer that the call was waiting for leads on. A failed call, an
    /// answer to another call, an id that is no transaction id and a block
    /// without a second transaction give the scenario up. Once the scenario
    /// is over, no answer changes it.
    pub open spec fn step(self, reply: ReplyView<A, H, T>) -> Self {
        match self {
            DriverView::NeedRecipient { mine } => match reply {
                ReplyView::Address(address) => DriverView::Sending { recipient: address, mine },
                _ => DriverView::Failed(reply.refusal(CallKind::NewAddress)),
            },
            DriverView::Sending { recipient, mine } => match reply {
                ReplyView::Sent(id) => if !is_txid_hex(id) {
                    DriverView::Failed(Failure::Decoding(CallKind::SendToAddress))
                } else if mine {
                    DriverView::NeedMiner { blocks: 1, confirms: Some(recipient) }
                } else {
                    DriverView::Done(
                        ArtifactView::Mempool { address: recipient, txid: txid_bytes(id) },
                    )
                },
                _ => DriverView::Failed(reply.refusal(CallKind::SendToAddress)),
            },
            DriverView::NeedMiner { blocks, confirms } => match reply {
                ReplyView::Address(address) => DriverView::Generating {
                    blocks,
                    miner: address,
                    confirms,
                },
                _ => DriverView::Failed(reply.refusal(CallKind::NewAddress)),
            },
            DriverView::Generating { confirms, .. } => match reply {
                ReplyView::Generated => match confirms {
                    Some(recipient) => DriverView::NeedTip { recipient },
                    None => DriverView::Done(ArtifactView::Nothing),
                },
                _ => DriverView::Failed(reply.refusal(CallKind::GenerateToAddress)),
            },
            DriverView::NeedTip { recipient } => match reply {
                ReplyView::BestBlockHash(hash) => DriverView::NeedBlock { recipient, tip: hash },
                _ => DriverView::Failed(reply.refusal(CallKind::BestBlockHash)),
            },
            DriverView::NeedBlock { recipient, .. } => match reply {
                ReplyView::Block(txdata) => if txdata.len() >= 2 {
                    DriverView::Done(
                        ArtifactView::Mined { address: recipient, transaction: txdata[1] },
                    )
                } else {
                    DriverView::Failed(Failure::Decoding(CallKind::GetBlock))
                },
                _ => DriverView::Failed(reply.refusal(CallKind::GetBlock)),
            },
            DriverView::Done(_) => self,
            DriverView::Failed(_) => self,
        }
    }

    /// The state after the node gave `replies`, one to each call in turn.
    pub open spec fn run(self, replies: Seq<ReplyView<A, H, T>>) -> Self
        decreases replies.len(),
    {
        if replies.len() == 0 {
            self
        } else {
            self.step(replies[0]).run(replies.drop_first())
        }
    }

    /// The calls that `replies` answered, in the order they were made. Answers
    /// that come after the scenario is over answer no call.
    pub open spec fn calls(self, replies: Seq<ReplyView<A, H, T>>) -> Seq<CallView<A, H>>
        decreases replies.len(),
    {
        if replies.len() == 0 {
            seq![]
        } else {
            match self.call() {
                Some(call) => seq![call] + self.step(replies[0]).calls(replies.drop_first()),
                None => seq![],
            }
        }
    }

    /// The calls that are still to be made if none of them fails.
    pub open spec fn remaining(self) -> Seq<CallKind> {
        match self {
            DriverView::NeedRecipient { mine } => seq![CallKind::NewAddress, CallKind::SendToAddress]
                + mining_and_fetching(mine),
            DriverView::Sending { mine, .. } => seq![CallKind::SendToAddress] + mining_and_fetching(
                mine,
            ),
            DriverView::NeedMiner { confirms, .. } => seq![
                CallKind::NewAddress,
                CallKind::GenerateToAddress,
            ] + fetching(confirms is Some),
            DriverView::Generating { confirms, .. } => seq![CallKind::GenerateToAddress]
                + fetching(confirms is Some),
            DriverView::NeedTip { .. } => fetching(true),
            DriverView::NeedBlock { .. } => seq![CallKind::GetBlock],
            DriverView::Done(_) => seq![],
            DriverView::Failed(_) => seq![],
        }
    }
}

/// The calls that fetch the newest block, if `wanted`.
pub open spec fn fetching(wanted: bool) -> Seq<CallKind> {
    if wanted {
        seq![CallKind::BestBlockHash, CallKind::GetBlock]
    } else {
        seq![]
    }
}

/// The calls that mine one block and fetch it, if `wanted`.
pub open spec fn mining_and_fetching(wanted: bool) -> Seq<CallKind> {
    if wanted {
        seq![CallKind::NewAddress, CallKind::GenerateToAddress] + fetching(true)
    } else {
        seq![]
    }
}

/// The calls of `scenario`, in the order in which they are made.
pub open spec fn script(scenario: Scenario) -> Seq<CallKind> {
    match scenario {
        Scenario::FundWallet => seq![CallKind::NewAddress, CallKind::GenerateToAddress],
        Scenario::MineBlock => seq![CallKind::NewAddress, CallKind::GenerateToAddress],
        Scenario::MempoolTransaction => seq![CallKind::NewAddress, CallKind::SendToAddress],
        Scenario::MinedTransaction => seq![
            CallKind::NewAddress,
            CallKind::SendToAddress,
            CallKind::NewAddress,
            CallKind::GenerateToAddress,
            CallKind::BestBlockHash,
            CallKind::GetBlock,
        ],
    }
}

} // verus!
