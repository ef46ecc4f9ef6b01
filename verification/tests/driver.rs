use integration_test::driver::{Artifact, Call, Driver, Reply};
use integration_test::failure::{CallKind, Failure, SetupStep};
use integration_test::scenario::{Scenario, FUNDING_BLOCKS, TRANSFER_SATS};

type Plain = Driver<String, u64, String>;

const TXID: &str = "00112233445566778899aabbccddeeff00112233445566778899aabbccddeeff";

fn address(name: &str) -> Reply<String, u64, String> {
    Reply::Address(name.to_string())
}

fn sent(id: &str) -> Reply<String, u64, String> {
    Reply::Sent(id.to_string())
}

fn block(txs: &[&str]) -> Reply<String, u64, String> {
    Reply::Block(txs.iter().map(|tx| tx.to_string()).collect())
}

fn every_reply() -> Vec<Reply<String, u64, String>> {
    vec![
        address("a"),
        Reply::Generated,
        sent(TXID),
        Reply::BestBlockHash(7),
        block(&["coinbase", "payment"]),
        Reply::Failed,
    ]
}

#[test]
fn constants_are_the_domain_constants() {
    assert_eq!(FUNDING_BLOCKS, 101);
    assert_eq!(TRANSFER_SATS, 1_000_000);
}

#[test]
fn named_starts_are_the_scenarios() {
    assert_eq!(Plain::fund_wallet(), Plain::start(Scenario::FundWallet));
    assert_eq!(Plain::mine_a_block(), Plain::start(Scenario::MineBlock));
    assert_eq!(Plain::create_mempool_transaction(), Plain::start(Scenario::MempoolTransaction));
    assert_eq!(Plain::create_mined_transaction(), Plain::start(Scenario::MinedTransaction));
}

#[test]
fn fund_wallet_mines_101_blocks_to_the_new_address() {
    let driver = Plain::fund_wallet();
    assert_eq!(driver.call(), Some(Call::NewAddress));
    assert!(!driver.is_over());
    let driver = driver.advance(address("miner"));
    let miner = "miner".to_string();
    assert_eq!(driver.call(), Some(Call::GenerateToAddress { blocks: 101, address: &miner }));
    assert_eq!(driver.clone().outcome(), None);
    let driver = driver.advance(Reply::Generated);
    assert_eq!(driver.call(), None);
    assert!(driver.is_over());
    assert_eq!(driver.outcome(), Some(Ok(Artifact::Nothing)));
}

#[test]
fn mine_a_block_mines_one_block_to_the_new_address() {
    let driver = Plain::mine_a_block();
    assert_eq!(driver.call(), Some(Call::NewAddress));
    let driver = driver.advance(address("miner"));
    let miner = "miner".to_string();
    assert_eq!(driver.call(), Some(Call::GenerateToAddress { blocks: 1, address: &miner }));
    let driver = driver.advance(Reply::Generated);
    assert_eq!(driver.call(), None);
    assert_eq!(driver.outcome(), Some(Ok(Artifact::Nothing)));
}

#[test]
fn mempool_transaction_sends_a_million_sats_and_stops() {
    let driver = Plain::create_mempool_transaction();
    assert_eq!(driver.call(), Some(Call::NewAddress));
    let driver = driver.advance(address("payee"));
    let payee = "payee".to_string();
    assert_eq!(driver.call(), Some(Call::SendToAddress { address: &payee, sats: 1_000_000 }));
    let driver = driver.advance(sent(TXID));
    assert_eq!(driver.call(), None);
    let mut txid = [0u8; 32];
    let forward: [u8; 16] = [
        0x00, 0x11, 0x22, 0x33, 0x44, 0x55, 0x66, 0x77, 0x88, 0x99, 0xaa, 0xbb, 0xcc, 0xdd, 0xee,
        0xff,
    ];
    for i in 0..32 {
        txid[31 - i] = forward[i % 16];
    }
    assert_eq!(driver.outcome(), Some(Ok(Artifact::Mempool { address: payee, txid })));
}

#[test]
fn mined_transaction_pays_mines_and_fetches() {
    let driver = Plain::create_mined_transaction();
    assert_eq!(driver.call(), Some(Call::NewAddress));
    let driver = driver.advance(address("payee"));
    let payee = "payee".to_string();
    assert_eq!(driver.call(), Some(Call::SendToAddress { address: &payee, sats: 1_000_000 }));
    let driver = driver.advance(sent(TXID));
    assert_eq!(driver.call(), Some(Call::NewAddress));
    let driver = driver.advance(address("miner"));
    let miner = "miner".to_string();
    assert_eq!(driver.call(), Some(Call::GenerateToAddress { blocks: 1, address: &miner }));
    let driver = driver.advance(Reply::Generated);
    assert_eq!(driver.call(), Some(Call::BestBlockHash));
    let driver = driver.advance(Reply::BestBlockHash(42));
    assert_eq!(driver.call(), Some(Call::GetBlock { hash: &42 }));
    assert_eq!(driver.clone().outcome(), None);
    let driver = driver.advance(block(&["coinbase", "payment", "other"]));
    assert_eq!(driver.call(), None);
    assert_eq!(
        driver.outcome(),
        Some(Ok(Artifact::Mined { address: payee, transaction: "payment".to_string() }))
    );
}

#[test]
fn block_without_a_second_transaction_is_a_decoding_failure() {
    for txs in [vec![], vec!["coinbase"]] {
        let driver = Plain::NeedBlock { recipient: "payee".to_string(), tip: 1 };
        let driver = driver.advance(block(&txs));
        assert_eq!(driver.outcome(), Some(Err(Failure::Decoding(CallKind::GetBlock))));
    }
    let driver = Plain::NeedBlock { recipient: "payee".to_string(), tip: 1 };
    let driver = driver.advance(block(&["coinbase", "payment"]));
    assert_eq!(
        driver.outcome(),
        Some(Ok(Artifact::Mined { address: "payee".to_string(), transaction: "payment".to_string() }))
    );
}

#[test]
fn malformed_txid_is_a_decoding_failure() {
    for mine in [false, true] {
        for id in ["", "xyz", &TXID[1..], "zz112233445566778899aabbccddeeff00112233445566778899aabbccddeeff"] {
            let driver = Plain::Sending { recipient: "payee".to_string(), mine };
            let driver = driver.advance(sent(id));
            assert_eq!(driver.call(), None);
            assert_eq!(driver.outcome(), Some(Err(Failure::Decoding(CallKind::SendToAddress))));
        }
    }
}

#[test]
fn failed_call_gives_the_scenario_up_with_its_name() {
    let cases: Vec<(Plain, CallKind)> = vec![
        (Plain::NeedRecipient { mine: true }, CallKind::NewAddress),
        (Plain::Sending { recipient: "p".to_string(), mine: false }, CallKind::SendToAddress),
        (Plain::NeedMiner { blocks: 1, confirms: None }, CallKind::NewAddress),
        (
            Plain::Generating { blocks: 1, miner: "m".to_string(), confirms: None },
            CallKind::GenerateToAddress,
        ),
        (Plain::NeedTip { recipient: "p".to_string() }, CallKind::BestBlockHash),
        (Plain::NeedBlock { recipient: "p".to_string(), tip: 3 }, CallKind::GetBlock),
    ];
    for (driver, kind) in cases {
        let failed = driver.advance(Reply::Failed);
        assert!(failed.is_over());
        assert_eq!(failed.call(), None);
        assert_eq!(failed.outcome(), Some(Err(Failure::Rpc(kind))));
    }
}

#[test]
fn answer_to_another_call_is_a_decoding_failure() {
    let cases: Vec<(Plain, usize, CallKind)> = vec![
        (Plain::NeedRecipient { mine: false }, 0, CallKind::NewAddress),
        (Plain::Sending { recipient: "p".to_string(), mine: false }, 2, CallKind::SendToAddress),
        (Plain::NeedMiner { blocks: 101, confirms: None }, 0, CallKind::NewAddress),
        (
            Plain::Generating { blocks: 101, miner: "m".to_string(), confirms: None },
            1,
            CallKind::GenerateToAddress,
        ),
        (Plain::NeedTip { recipient: "p".to_string() }, 3, CallKind::BestBlockHash),
        (Plain::NeedBlock { recipient: "p".to_string(), tip: 3 }, 4, CallKind::GetBlock),
    ];
    for (driver, wanted, kind) in cases {
        for (position, reply) in every_reply().into_iter().enumerate() {
            let next = driver.clone().advance(reply);
            if position == wanted {
                assert!(!matches!(next, Driver::Failed(_)));
            } else if position == 5 {
                assert_eq!(next, Driver::Failed(Failure::Rpc(kind)));
            } else {
                assert_eq!(next, Driver::Failed(Failure::Decoding(kind)));
            }
        }
    }
}

#[test]
fn nothing_changes_a_scenario_that_is_over() {
    let done: Plain = Driver::Done(Artifact::Mempool { address: "a".to_string(), txid: [9; 32] });
    let failed: Plain = Driver::Failed(Failure::Rpc(CallKind::GetBlock));
    for reply in every_reply() {
        assert_eq!(done.clone().advance(reply.clone()), done);
        assert_eq!(failed.clone().advance(reply), failed);
    }
    assert_eq!(done.call(), None);
    assert_eq!(failed.call(), None);
}

#[test]
fn first_failure_ends_the_run() {
    let mut driver = Plain::create_mined_transaction();
    let replies = vec![
        address("payee"),
        Reply::Failed,
        address("miner"),
        Reply::Generated,
        Reply::BestBlockHash(1),
        block(&["coinbase", "payment"]),
    ];
    let mut calls = 0;
    for reply in replies {
        if driver.call().is_some() {
            calls += 1;
        }
        driver = driver.advance(reply);
    }
    assert_eq!(calls, 2);
    assert_eq!(driver.outcome(), Some(Err(Failure::Rpc(CallKind::SendToAddress))));
}

#[test]
fn refusal_tells_a_failed_call_from_a_wrong_answer() {
    let failed: Reply<String, u64, String> = Reply::Failed;
    assert_eq!(failed.refusal(CallKind::GetBlock), Failure::Rpc(CallKind::GetBlock));
    assert_eq!(
        address("a").refusal(CallKind::BestBlockHash),
        Failure::Decoding(CallKind::BestBlockHash)
    );
}

#[test]
fn messages_name_the_step_that_failed() {
    assert_eq!(
        Failure::Setup(SetupStep::LocateExecutable).message(),
        "failed to get bitcoind executable"
    );
    assert_eq!(Failure::Setup(SetupStep::StartNode).message(), "failed to create node");
    assert_eq!(Failure::Rpc(CallKind::NewAddress).message(), "failed to get new address");
    assert_eq!(
        Failure::Rpc(CallKind::GenerateToAddress).message(),
        "failed to generate to address"
    );
    assert_eq!(Failure::Rpc(CallKind::SendToAddress).message(), "failed to send to address");
    assert_eq!(Failure::Rpc(CallKind::BestBlockHash).message(), "best_block_hash");
    assert_eq!(Failure::Rpc(CallKind::GetBlock).message(), "best_block");
    assert_eq!(Failure::Decoding(CallKind::NewAddress).message(), "failed to get new address");
    assert_eq!(
        Failure::Decoding(CallKind::GenerateToAddress).message(),
        "failed to generate to address"
    );
    assert_eq!(
        Failure::Decoding(CallKind::SendToAddress).message(),
        "failed to convert hex to txid"
    );
    assert_eq!(Failure::Decoding(CallKind::BestBlockHash).message(), "best_block_hash");
    assert_eq!(Failure::Decoding(CallKind::GetBlock).message(), "best_block");
}
