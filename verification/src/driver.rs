//! Drives a node through a scenario, one call at a time.
//!
//! The driver decides and the caller acts: [`Driver::call`] names the call to
//! make on the node, the caller makes it and hands the node's answer to
//! [`Driver::advance`], until no call is left and [`Driver::outcome`] holds
//! what the scenario produced. Calls are made in strict sequence, each after
//! the answer to the one before; the first failure ends the scenario.

use crate::failure::{CallKind, Failure};
use crate::scenario::{
    ArtifactView, CallView, DriverView, ReplyView, Scenario, FUNDING_BLOCKS, TRANSFER_SATS,
};
use crate::txid::{decode_txid, TxidBytes};
use vstd::prelude::*;

verus! {

/// A call to make on the node. Addresses and hashes are lent by the driver.
#[derive(Clone, Debug, PartialEq, Eq)]
pub enum Call<'a, A, H> {
    /// Ask the loaded wallet for a fresh receive address.
    NewAddress,
    /// Mine `blocks` blocks whose reward goes to `address`.
    GenerateToAddress { blocks: usize, address: &'a A },
    /// Send `sats` satoshis from the loaded wallet to `address`.
    SendToAddress { address: &'a A, sats: u64 },
    /// Ask for the hash of the newest block.
    BestBlockHash,
    /// Fetch the block with this hash.
    GetBlock { hash: &'a H },
}

impl<'a, A, H> View for Call<'a, A, H> {
    type V = CallView<A, H>;

    open spec fn view(&self) -> CallView<A, H> {
        match *self {
            Call::NewAddress => CallView::NewAddress,
            Call::GenerateToAddress { blocks, address } => CallView::GenerateToAddress {
                blocks,
                address: *address,
            },
            Call::SendToAddress { address, sats } => CallView::SendToAddress {
                address: *address,
                sats,
            },
            Call::BestBlockHash => CallView::BestBlockHash,
            Call::GetBlock { hash } => CallView::GetBlock { hash: *hash },
        }
    }
}

/// The node's answer to a call.
#[derive(Clone, Debug, PartialEq, Eq)]
pub enum Reply<A, H, T> {
    /// The answer to `NewAddress`.
    Address(A),
    /// The answer to `GenerateToAddress`: the blocks were mined.
    Generated,
    /// The answer to `SendToAddress`: the new transaction's id as the node
    /// wrote it.
    Sent(String),
    /// The answer to `BestBlockHash`.
    BestBlockHash(H),
    /// The answer to `GetBlock`: the block's transactions, in their order.
    Block(Vec<T>),
    /// The call returned an error, or the node could not be reached.
    Failed,
}

impl<A, H, T> View for Reply<A, H, T> {
    type V = ReplyView<A, H, T>;

    open spec fn view(&self) -> ReplyView<A, H, T> {
        match *self {
            Reply::Address(address) => ReplyView::Address(address),
            Reply::Generated => ReplyView::Generated,
            Reply::Sent(id) => ReplyView::Sent(id@),
            Reply::BestBlockHash(hash) => ReplyView::BestBlockHash(hash),
            Reply::Block(txdata) => ReplyView::Block(txdata@),
            Reply::Failed => ReplyView::Failed,
        }
    }
}

impl<A, H, T> Reply<A, H, T> {
    /// The failure that this answer is when it is not the answer that the
    /// call `kind` was waiting for.
    pub fn refusal(&self, kind: CallKind) -> (failure: Failure)
        ensures
            failure == self@.refusal(kind),
    {
        match self {
            Reply::Failed => Failure::Rpc(kind),
            _ => Failure::Decoding(kind),
        }
    }
}

/// What a completed scenario hands to the test.
#[derive(Clone, Debug, PartialEq, Eq)]
pub enum Artifact<A, T> {
    /// Blocks were mined; there is nothing to hand over.
    Nothing,
    /// A transaction waits in the mempool: the address it pays and its id.
    Mempool { address: A, txid: TxidBytes },
    /// A transaction is in the newest block: the address it pays and the
    /// transaction.
    Mined { address: A, transaction: T },
}

impl<A, T> View for Artifact<A, T> {
    type V = ArtifactView<A, T>;

    open spec fn view(&self) -> ArtifactView<A, T> {
        match *self {
            Artifact::Nothing => ArtifactView::Nothing,
            Artifact::Mempool { address, txid } => ArtifactView::Mempool { address, txid: txid@ },
            Artifact::Mined { address, transaction } => ArtifactView::Mined { address, transaction },
        }
    }
}

/// A scenario in progress.
#[derive(Clone, Debug, PartialEq, Eq)]
pub enum Driver<A, H, T> {
    /// An address to pay is wanted. `mine` says that the payment is mined
    /// afterwards.
    NeedRecipient { mine: bool },
    /// The payment to `recipient` is to be sent.
    Sending { recipient: A, mine: bool },
    /// An address for the reward of `blocks` blocks is wanted. `confirms` is
    /// the address of the payment that these blocks confirm, if there is one.
    NeedMiner { blocks: usize, confirms: Option<A> },
    /// `blocks` blocks are to be mined to `miner`.
    Generating { blocks: usize, miner: A, confirms: Option<A> },
    /// The payment to `recipient` is mined; the hash of the newest block is
    /// wanted.
    NeedTip { recipient: A },
    /// The block with hash `tip` is wanted.
    NeedBlock { recipient: A, tip: H },
    /// The scenario is complete.
    Done(Artifact<A, T>),
    /// The scenario was given up.
    Failed(Failure),
}

impl<A, H, T> View for Driver<A, H, T> {
    type V = DriverView<A, H, T>;

    open spec fn view(&self) -> DriverView<A, H, T> {
        match *self {
            Driver::NeedRecipient { mine } => DriverView::NeedRecipient { mine },
            Driver::Sending { recipient, mine } => DriverView::Sending { recipient, mine },
            Driver::NeedMiner { blocks, confirms } => DriverView::NeedMiner { blocks, confirms },
            Driver::Generating { blocks, miner, confirms } => DriverView::Generating {
                blocks,
                miner,
                confirms,
            },
            Driver::NeedTip { recipient } => DriverView::NeedTip { recipient },
            Driver::NeedBlock { recipient, tip } => DriverView::NeedBlock { recipient, tip },
            Driver::Done(artifact) => DriverView::Done(artifact@),
            Driver::Failed(failure) => DriverView::Failed(failure),
        }
    }
}

impl<A, H, T> Driver<A, H, T> {
    /// Begins `scenario`.
    pub fn start(scenario: Scenario) -> (driver: Self)
        ensures
            driver@ == DriverView::<A, H, T>::start(scenario),
    {
        match scenario {
            Scenario::FundWallet => Driver::NeedMiner { blocks: FUNDING_BLOCKS, confirms: None },
            Scenario::MineBlock => Driver::NeedMiner { blocks: 1, confirms: None },
            Scenario::MempoolTransaction => Driver::NeedRecipient { mine: false },
            Scenario::MinedTransaction => Driver::NeedRecipient { mine: true },
        }
    }

    /// Generates [`FUNDING_BLOCKS`] blocks to an address controlled by the
    /// loaded wallet.
    pub fn fund_wallet() -> (driver: Self)
        ensures
            driver@ == DriverView::<A, H, T>::start(Scenario::FundWallet),
    {
        Driver::start(Scenario::FundWallet)
    }

    /// Mines a block, sending the reward to a new address of the loaded
    /// wallet.
    pub fn mine_a_block() -> (driver: Self)
        ensures
            driver@ == DriverView::<A, H, T>::start(Scenario::MineBlock),
    {
        Driver::start(Scenario::MineBlock)
    }

    /// Creates a transaction in the mempool. Produces the receive address and
    /// the transaction's id.
    pub fn create_mempool_transaction() -> (driver: Self)
        ensures
            driver@ == DriverView::<A, H, T>::start(Scenario::MempoolTransaction),
    {
        Driver::start(Scenario::MempoolTransaction)
    }

    /// Creates a transaction and mines a block that includes it in the chain.
    /// Produces the receive address and the transaction.
    pub fn create_mined_transaction() -> (driver: Self)
        ensures
            driver@ == DriverView::<A, H, T>::start(Scenario::MinedTransaction),
    {
        Driver::start(Scenario::MinedTransaction)
    }

    /// The call to make next; `None` when the scenario is over.
    pub fn call(&self) -> (call: Option<Call<'_, A, H>>)
        ensures
            match call {
                Some(call) => self@.call() == Some(call@),
                None => self@.call() is None,
            },
    {
        match self {
            Driver::NeedRecipient { .. } => Some(Call::NewAddress),
            Driver::Sending { recipient, .. } => Some(
                Call::SendToAddress { address: recipient, sats: TRANSFER_SATS },
            ),
            Driver::NeedMiner { .. } => Some(Call::NewAddress),
            Driver::Generating { blocks, miner, .. } => Some(
                Call::GenerateToAddress { blocks: *blocks, address: miner },
            ),
            Driver::NeedTip { .. } => Some(Call::BestBlockHash),
            Driver::NeedBlock { tip, .. } => Some(Call::GetBlock { hash: tip }),
            Driver::Done(_) => None,
            Driver::Failed(_) => None,
        }
    }

    /// Takes the node's answer to the call of this state and moves on.
    pub fn advance(self, reply: Reply<A, H, T>) -> (next: Self)
        ensures
            next@ == self@.step(reply@),
    {
        match self {
            Driver::NeedRecipient { mine } => match reply {
                Reply::Address(address) => Driver::Sending { recipient: address, mine },
                other => Driver::Failed(other.refusal(CallKind::NewAddress)),
            },
            Driver::Sending { recipient, mine } => match reply {
                Reply::Sent(id) => Driver::sent(recipient, mine, decode_txid(id)),
                other => Driver::Failed(other.refusal(CallKind::SendToAddress)),
            },
            Driver::NeedMiner { blocks, confirms } => match reply {
                Reply::Address(address) => Driver::Generating { blocks, miner: address, confirms },
                other => Driver::Failed(other.refusal(CallKind::NewAddress)),
            },
            Driver::Generating { confirms, .. } => match reply {
                Reply::Generated => match confirms {
                    Some(recipient) => Driver::NeedTip { recipient },
                    None => Driver::Done(Artifact::Nothing),
                },
                other => Driver::Failed(other.refusal(CallKind::GenerateToAddress)),
            },
            Driver::NeedTip { recipient } => match reply {
                Reply::BestBlockHash(hash) => Driver::NeedBlock { recipient, tip: hash },
                other => Driver::Failed(other.refusal(CallKind::BestBlockHash)),
            },
            Driver::NeedBlock { recipient, .. } => match reply {
                Reply::Block(txdata) => Driver::fetched(recipient, txdata),
                other => Driver::Failed(other.refusal(CallKind::GetBlock)),
            },
            Driver::Done(artifact) => Driver::Done(artifact),
            Driver::Failed(failure) => Driver::Failed(failure),
        }
    }

    /// The state after the payment to `recipient` was sent and the node's
    /// answer was decoded to `txid`.
    fn sent(recipient: A, mine: bool, txid: Option<TxidBytes>) -> (next: Self)
        ensures
            next@ == (match txid {
                None => DriverView::<A, H, T>::Failed(Failure::Decoding(CallKind::SendToAddress)),
                Some(txid) => if mine {
                    DriverView::NeedMiner { blocks: 1, confirms: Some(recipient) }
                } else {
                    DriverView::Done(ArtifactView::Mempool { address: recipient, txid: txid@ })
                },
            }),
    {
        match txid {
            None => Driver::Failed(Failure::Decoding(CallKind::SendToAddress)),
            Some(txid) => if mine {
                Driver::NeedMiner { blocks: 1, confirms: Some(recipient) }
            } else {
                Driver::Done(Artifact::Mempool { address: recipient, txid })
            },
        }
    }

    /// The state after the newest block was fetched: its second transaction
    /// is the payment to `recipient`, the first being the coinbase.
    fn fetched(recipient: A, txdata: Vec<T>) -> (next: Self)
        ensures
            next@ == (if txdata@.len() >= 2 {
                DriverView::<A, H, T>::Done(
                    ArtifactView::Mined { address: recipient, transaction: txdata@[1] },
                )
            } else {
                DriverView::Failed(Failure::Decoding(CallKind::GetBlock))
            }),
    {
        let mut txdata = txdata;
        if txdata.len() >= 2 {
            let transaction = txdata.swap_remove(1);
            Driver::Done(Artifact::Mined { address: recipient, transaction })
        } else {
            Driver::Failed(Failure::Decoding(CallKind::GetBlock))
        }
    }

    /// True when no call remains: the scenario is complete or was given up.
    pub fn is_over(&self) -> (over: bool)
        ensures
            over == self@.is_over(),
    {
        match self {
            Driver::Done(_) => true,
            Driver::Failed(_) => true,
            _ => false,
        }
    }

    /// What the scenario produced: its artifact when it is complete, the
    /// failure when it was given up, and `None` while calls remain.
    pub fn outcome(self) -> (outcome: Option<Result<Artifact<A, T>, Failure>>)
        ensures
            match outcome {
                Some(Ok(artifact)) => self@ == DriverView::<A, H, T>::Done(artifact@),
                Some(Err(failure)) => self@ == DriverView::<A, H, T>::Failed(failure),
                None => !self@.is_over(),
            },
    {
        match self {
            Driver::Done(artifact) => Some(Ok(artifact)),
            Driver::Failed(failure) => Some(Err(failure)),
            _ => None,
        }
    }
}

} // verus!
