use integration_test::launch::{LaunchConf, Wallet};

fn default_args() -> Vec<&'static str> {
    vec!["-regtest", "-fallbackfee=0.0001"]
}

fn indexed_args() -> Vec<&'static str> {
    vec!["-regtest", "-fallbackfee=0.0001", "-txindex"]
}

#[test]
fn default_wallet_is_the_nodes_default() {
    let conf = LaunchConf::new_with_default_wallet();
    assert_eq!(conf.wallet, Some("default".to_string()));
    assert_eq!(conf.args, default_args());
}

#[test]
fn default_wallet_with_txindex_appends_the_flag() {
    let conf = LaunchConf::new_with_default_wallet_txindex();
    assert_eq!(conf.wallet, Some("default".to_string()));
    assert_eq!(conf.args, indexed_args());
}

#[test]
fn named_wallet_is_loaded_under_its_name() {
    let conf = LaunchConf::new_with_wallet("alice".to_string());
    assert_eq!(conf.wallet, Some("alice".to_string()));
    assert_eq!(conf.args, default_args());
}

#[test]
fn named_wallet_with_txindex_appends_the_flag() {
    let conf = LaunchConf::new_with_wallet_txindex("alice".to_string());
    assert_eq!(conf.wallet, Some("alice".to_string()));
    assert_eq!(conf.args, indexed_args());
}

#[test]
fn no_wallet_clears_the_wallet() {
    let conf = LaunchConf::new_no_wallet();
    assert_eq!(conf.wallet, None);
    assert_eq!(conf.args, default_args());
}

#[test]
fn no_wallet_with_txindex_appends_the_flag() {
    let conf = LaunchConf::new_no_wallet_txindex();
    assert_eq!(conf.wallet, None);
    assert_eq!(conf.args, indexed_args());
}

#[test]
fn index_flag_is_present_only_when_requested() {
    let wallets = vec![Wallet::Default, Wallet::Load("w".to_string()), Wallet::NoWallet];
    for wallet in wallets {
        for txindex in [false, true] {
            let conf = LaunchConf::new(wallet.clone(), txindex);
            assert_eq!(conf.args.contains(&"-txindex"), txindex);
        }
    }
}

#[test]
fn new_matches_the_named_constructors() {
    assert_eq!(LaunchConf::new(Wallet::Default, false), LaunchConf::new_with_default_wallet());
    assert_eq!(LaunchConf::new(Wallet::Default, true), LaunchConf::new_with_default_wallet_txindex());
    assert_eq!(
        LaunchConf::new(Wallet::Load("w".to_string()), false),
        LaunchConf::new_with_wallet("w".to_string())
    );
    assert_eq!(
        LaunchConf::new(Wallet::Load("w".to_string()), true),
        LaunchConf::new_with_wallet_txindex("w".to_string())
    );
    assert_eq!(LaunchConf::new(Wallet::NoWallet, false), LaunchConf::new_no_wallet());
    assert_eq!(LaunchConf::new(Wallet::NoWallet, true), LaunchConf::new_no_wallet_txindex());
}

#[test]
fn empty_wallet_name_is_kept_and_is_not_the_default() {
    let named = LaunchConf::new_with_wallet(String::new());
    assert_eq!(named.wallet, Some(String::new()));
    assert_ne!(named.wallet, LaunchConf::new_with_default_wallet().wallet);
    assert_ne!(named.wallet, LaunchConf::new_no_wallet().wallet);
}

#[test]
fn resolve_keeps_the_base_for_the_default_wallet() {
    let base = LaunchConf { wallet: Some("mine".to_string()), args: vec!["-signet"] };
    let conf = LaunchConf::resolve(base, Wallet::Default, false);
    assert_eq!(conf.wallet, Some("mine".to_string()));
    assert_eq!(conf.args, vec!["-signet"]);
}

#[test]
fn resolve_leaves_an_absent_wallet_absent_for_the_default_wallet() {
    let base = LaunchConf { wallet: None, args: Vec::new() };
    let conf = LaunchConf::resolve(base, Wallet::Default, true);
    assert_eq!(conf.wallet, None);
    assert_eq!(conf.args, vec!["-txindex"]);
}

#[test]
fn resolve_replaces_and_clears_the_wallet_of_the_base() {
    let base = LaunchConf { wallet: Some("mine".to_string()), args: vec!["-a", "-b"] };
    let named = LaunchConf::resolve(base.clone(), Wallet::Load("other".to_string()), true);
    assert_eq!(named.wallet, Some("other".to_string()));
    assert_eq!(named.args, vec!["-a", "-b", "-txindex"]);
    let none = LaunchConf::resolve(base, Wallet::NoWallet, false);
    assert_eq!(none.wallet, None);
    assert_eq!(none.args, vec!["-a", "-b"]);
}

#[test]
fn defaults_are_those_of_the_node_crate() {
    let theirs = corepc_node::Conf::default();
    let ours = LaunchConf::new_with_default_wallet();
    assert_eq!(ours.wallet, theirs.wallet);
    assert_eq!(ours.args, theirs.args);
}
