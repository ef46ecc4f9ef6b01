//! What each scenario asks of the node and hands to the test, and exactly
//! which answers let it complete.

use crate::laws::{kinds, lemma_calls_follow_script, lemma_over_is_final, lemma_run_split};
use crate::scenario::{
    script, ArtifactView, CallView, DriverView, ReplyView, Scenario, FUNDING_BLOCKS,
    TRANSFER_SATS,
};
use crate::txid::{is_txid_hex, txid_bytes};
use vstd::prelude::*;

verus! {

/// True when the answers from position `at` are an address and then the id
/// of a transaction: what paying an address takes.
pub open spec fn paid<A, H, T>(replies: Seq<ReplyView<A, H, T>>, at: int) -> bool {
    &&& at + 2 <= replies.len()
    &&& replies[at] is Address
    &&& replies[at + 1] matches ReplyView::Sent(id) && is_txid_hex(id)
}

/// True when the answers from position `at` are an address and then the
/// word that the blocks were mined: what mining takes.
pub open spec fn mined<A, H, T>(replies: Seq<ReplyView<A, H, T>>, at: int) -> bool {
    &&& at + 2 <= replies.len()
    &&& replies[at] is Address
    &&& replies[at + 1] is Generated
}

/// True when the answers from position `at` are a block hash and then a
/// block with at least two transactions: what fetching the payment takes.
pub open spec fn fetched<A, H, T>(replies: Seq<ReplyView<A, H, T>>, at: int) -> bool {
    &&& at + 2 <= replies.len()
    &&& replies[at] is BestBlockHash
    &&& replies[at + 1] matches ReplyView::Block(txdata) && txdata.len() >= 2
}

/// The next two answers, taken one after the other.
proof fn lemma_two_steps<A, H, T>(state: DriverView<A, H, T>, replies: Seq<ReplyView<A, H, T>>)
    requires
        replies.len() >= 2,
    ensures
        state.run(replies.take(2)) == state.step(replies[0]).step(replies[1]),
        state.call() is Some && state.step(replies[0]).call() is Some ==> state.calls(
            replies.take(2),
        ) == seq![state.call().unwrap(), state.step(replies[0]).call().unwrap()],
{
    let two = replies.take(2);
    let one = two.drop_first();
    let next = state.step(replies[0]);
    assert(one.len() == 1 && one[0] == replies[1]);
    assert(one.drop_first().len() == 0);
    assert(next.step(replies[1]).run(one.drop_first()) == next.step(replies[1]));
    assert(next.run(one) == next.step(replies[1]));
    assert(state.run(two) == next.run(one));
    if state.call() is Some && next.call() is Some {
        assert(next.step(replies[1]).calls(one.drop_first()) =~= seq![]);
        assert(next.calls(one) =~= seq![next.call().unwrap()]);
        assert(state.calls(two) =~= seq![state.call().unwrap(), next.call().unwrap()]);
    }
}

/// Fewer than two answers, or a first or second answer that is not wanted,
/// never complete a state from which two calls remain at least.
proof fn lemma_stuck<A, H, T>(state: DriverView<A, H, T>, replies: Seq<ReplyView<A, H, T>>)
    requires
        !state.is_over(),
        replies.len() >= 1 ==> !state.step(replies[0]).is_over() || state.step(replies[0])
            is Failed,
        replies.len() >= 2 ==> state.step(replies[0]) is Failed || state.step(replies[0]).step(
            replies[1],
        ) is Failed,
    ensures
        !(state.run(replies) is Done),
{
    if replies.len() >= 1 {
        let next = state.step(replies[0]);
        let rest = replies.drop_first();
        assert(state.run(replies) == next.run(rest));
        if next is Failed {
            lemma_over_is_final(next, rest);
        } else if rest.len() >= 1 {
            let last = next.step(rest[0]);
            assert(rest[0] == replies[1]);
            assert(next.run(rest) == last.run(rest.drop_first()));
            lemma_over_is_final(last, rest.drop_first());
        } else {
            assert(next.run(rest) == next);
        }
    }
}

/// Mining, from the state that wants the miner's address: with the two
/// answers that mining takes, `blocks` blocks are asked for, to the address
/// that the node gave, and the state moves on; with any others the scenario
/// never completes.
pub proof fn lemma_mining<A, H, T>(
    blocks: usize,
    confirms: Option<A>,
    replies: Seq<ReplyView<A, H, T>>,
)
    ensures
        ({
            let state = DriverView::<A, H, T>::NeedMiner { blocks, confirms };
            &&& !mined(replies, 0) ==> !(state.run(replies) is Done)
            &&& mined(replies, 0) ==> state.calls(replies.take(2)) == seq![
                CallView::<A, H>::NewAddress,
                CallView::GenerateToAddress { blocks, address: replies[0]->Address_0 },
            ]
            &&& mined(replies, 0) ==> state.run(replies.take(2)) == (match confirms {
                Some(recipient) => DriverView::<A, H, T>::NeedTip { recipient },
                None => DriverView::<A, H, T>::Done(ArtifactView::Nothing),
            })
        }),
{
    let state = DriverView::<A, H, T>::NeedMiner { blocks, confirms };
    if mined(replies, 0) {
        lemma_two_steps(state, replies);
    } else {
        lemma_stuck(state, replies);
    }
}

/// Paying, from the state that wants the recipient's address: with the two
/// answers that paying takes, the transfer amount is sent to the address that
/// the node gave, and the state moves on; with any others the scenario never
/// completes.
pub proof fn lemma_paying<A, H, T>(mine: bool, replies: Seq<ReplyView<A, H, T>>)
    ensures
        ({
            let state = DriverView::<A, H, T>::NeedRecipient { mine };
            let recipient = replies[0]->Address_0;
            &&& !paid(replies, 0) ==> !(state.run(replies) is Done)
            &&& paid(replies, 0) ==> state.calls(replies.take(2)) == seq![
                CallView::<A, H>::NewAddress,
                CallView::SendToAddress { address: recipient, sats: TRANSFER_SATS },
            ]
            &&& paid(replies, 0) ==> state.run(replies.take(2)) == (if mine {
                DriverView::<A, H, T>::NeedMiner { blocks: 1, confirms: Some(recipient) }
            } else {
                DriverView::<A, H, T>::Done(
                    ArtifactView::Mempool {
                        address: recipient,
                        txid: txid_bytes(replies[1]->Sent_0),
                    },
                )
            })
        }),
{
    let state = DriverView::<A, H, T>::NeedRecipient { mine };
    if paid(replies, 0) {
        lemma_two_steps(state, replies);
    } else {
        lemma_stuck(state, replies);
    }
}

/// Fetching, from the state that wants the newest block's hash: with the two
/// answers that fetching takes, the block with the hash that the node gave is
/// asked for and its second transaction is handed over with `recipient`; with
/// any others the scenario never completes.
pub proof fn lemma_fetching<A, H, T>(recipient: A, replies: Seq<ReplyView<A, H, T>>)
    ensures
        ({
            let state = DriverView::<A, H, T>::NeedTip { recipient };
            &&& !fetched(replies, 0) ==> !(state.run(replies) is Done)
            &&& fetched(replies, 0) ==> state.calls(replies.take(2)) == seq![
                CallView::<A, H>::BestBlockHash,
                CallView::GetBlock { hash: replies[0]->BestBlockHash_0 },
            ]
            &&& fetched(replies, 0) ==> state.run(replies.take(2)) == DriverView::<A, H, T>::Done(
                ArtifactView::Mined { address: recipient, transaction: replies[1]->Block_0[1] },
            )
        }),
{
    let state = DriverView::<A, H, T>::NeedTip { recipient };
    if fetched(replies, 0) {
        lemma_two_steps(state, replies);
    } else {
        lemma_stuck(state, replies);
    }
}

/// Funding a wallet completes exactly when the node gives an address and
/// then mines. It has then asked for one address and for
/// [`FUNDING_BLOCKS`] blocks to that address, and for nothing else.
pub proof fn lemma_fund_wallet<A, H, T>(replies: Seq<ReplyView<A, H, T>>)
    ensures
        ({
            let start = DriverView::<A, H, T>::start(Scenario::FundWallet);
            &&& start.run(replies) is Done <==> mined(replies, 0)
            &&& mined(replies, 0) ==> start.run(replies) == DriverView::<A, H, T>::Done(
                ArtifactView::Nothing,
            )
            &&& mined(replies, 0) ==> start.calls(replies) == seq![
                CallView::<A, H>::NewAddress,
                CallView::GenerateToAddress {
                    blocks: FUNDING_BLOCKS,
                    address: replies[0]->Address_0,
                },
            ]
        }),
{
    let start = DriverView::<A, H, T>::start(Scenario::FundWallet);
    lemma_mining::<A, H, T>(FUNDING_BLOCKS, None, replies);
    if mined(replies, 0) {
        lemma_run_split(start, replies, 2);
        lemma_over_is_final(start.run(replies.take(2)), replies.skip(2));
    }
}

/// Mining a block completes exactly when the node gives an address and then
/// mines. It has then asked for one address and for exactly one block to that
/// address, and for nothing else.
pub proof fn lemma_mine_a_block<A, H, T>(replies: Seq<ReplyView<A, H, T>>)
    ensures
        ({
            let start = DriverView::<A, H, T>::start(Scenario::MineBlock);
            &&& start.run(replies) is Done <==> mined(replies, 0)
            &&& mined(replies, 0) ==> start.run(replies) == DriverView::<A, H, T>::Done(
                ArtifactView::Nothing,
            )
            &&& mined(replies, 0) ==> start.calls(replies) == seq![
                CallView::<A, H>::NewAddress,
                CallView::GenerateToAddress { blocks: 1, address: replies[0]->Address_0 },
            ]
        }),
{
    let start = DriverView::<A, H, T>::start(Scenario::MineBlock);
    lemma_mining::<A, H, T>(1, None, replies);
    if mined(replies, 0) {
        lemma_run_split(start, replies, 2);
        lemma_over_is_final(start.run(replies.take(2)), replies.skip(2));
    }
}

/// Creating a mempool transaction completes exactly when the node gives an
/// address and then answers the payment with a transaction id. It has then
/// sent [`TRANSFER_SATS`] to that address and hands over the address and the
/// id; it has asked for no block, so the transaction stays unconfirmed.
pub proof fn lemma_create_mempool_transaction<A, H, T>(replies: Seq<ReplyView<A, H, T>>)
    ensures
        ({
            let start = DriverView::<A, H, T>::start(Scenario::MempoolTransaction);
            let address = replies[0]->Address_0;
            &&& start.run(replies) is Done <==> paid(replies, 0)
            &&& paid(replies, 0) ==> start.run(replies) == DriverView::<A, H, T>::Done(
                ArtifactView::Mempool { address, txid: txid_bytes(replies[1]->Sent_0) },
            )
            &&& paid(replies, 0) ==> start.calls(replies) == seq![
                CallView::<A, H>::NewAddress,
                CallView::SendToAddress { address, sats: TRANSFER_SATS },
            ]
        }),
{
    let start = DriverView::<A, H, T>::start(Scenario::MempoolTransaction);
    lemma_paying::<A, H, T>(false, replies);
    if paid(replies, 0) {
        lemma_run_split(start, replies, 2);
        lemma_over_is_final(start.run(replies.take(2)), replies.skip(2));
    }
}

/// Creating a mined transaction completes exactly when the node answers the
/// payment, then the mining of one block, then the fetching of the newest
/// block, each with what it takes. It has then sent [`TRANSFER_SATS`] to the
/// first address, mined one block to the second, fetched the block whose hash
/// the node gave, and hands over the first address with the transaction at
/// position 1 of that block.
pub proof fn lemma_create_mined_transaction<A, H, T>(replies: Seq<ReplyView<A, H, T>>)
    ensures
        ({
            let start = DriverView::<A, H, T>::start(Scenario::MinedTransaction);
            let complete = paid(replies, 0) && mined(replies, 2) && fetched(replies, 4);
            let address = replies[0]->Address_0;
            &&& start.run(replies) is Done <==> complete
            &&& complete ==> start.run(replies) == DriverView::<A, H, T>::Done(
                ArtifactView::Mined { address, transaction: replies[5]->Block_0[1] },
            )
            &&& complete ==> start.calls(replies) == seq![
                CallView::<A, H>::NewAddress,
                CallView::SendToAddress { address, sats: TRANSFER_SATS },
                CallView::NewAddress,
                CallView::GenerateToAddress { blocks: 1, address: replies[2]->Address_0 },
                CallView::BestBlockHash,
                CallView::GetBlock { hash: replies[4]->BestBlockHash_0 },
            ]
        }),
{
    let start = DriverView::<A, H, T>::start(Scenario::MinedTransaction);
    let address = replies[0]->Address_0;
    lemma_paying::<A, H, T>(true, replies);
    if paid(replies, 0) {
        let mining = DriverView::<A, H, T>::NeedMiner { blocks: 1, confirms: Some(address) };
        let later = replies.skip(2);
        lemma_run_split(start, replies, 2);
        lemma_mining::<A, H, T>(1, Some(address), later);
        assert(mined(later, 0) <==> mined(replies, 2));
        if mined(later, 0) {
            let fetching = DriverView::<A, H, T>::NeedTip { recipient: address };
            let last = later.skip(2);
            lemma_run_split(mining, later, 2);
            lemma_fetching::<A, H, T>(address, last);
            assert(fetched(last, 0) <==> fetched(replies, 4));
            if fetched(last, 0) {
                lemma_run_split(fetching, last, 2);
                lemma_over_is_final(fetching.run(last.take(2)), last.skip(2));
                assert(start.calls(replies) =~= start.calls(replies.take(2)) + mining.calls(
                    later.take(2),
                ) + fetching.calls(last.take(2)));
            }
        }
    }
}

/// Whatever the node answers, creating a mempool transaction never asks for a
/// block: the transaction is left for the test to see unconfirmed.
pub proof fn lemma_mempool_transaction_stays_unmined<A, H, T>(
    replies: Seq<ReplyView<A, H, T>>,
    i: int,
)
    requires
        0 <= i < DriverView::<A, H, T>::start(Scenario::MempoolTransaction).calls(replies).len(),
    ensures
        !(DriverView::<A, H, T>::start(Scenario::MempoolTransaction).calls(replies)[i]
            is GenerateToAddress),
{
    let made = DriverView::<A, H, T>::start(Scenario::MempoolTransaction).calls(replies);
    lemma_calls_follow_script::<A, H, T>(Scenario::MempoolTransaction, replies);
    assert(kinds(made)[i] == made[i].kind());
    assert(kinds(made)[i] == script(Scenario::MempoolTransaction)[i]);
}

} // verus!
