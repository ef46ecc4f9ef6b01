//! From a test's intent to the configuration that a node is launched with.
//!
//! A test says which wallet it wants and whether it needs the transaction
//! index. [`LaunchConf::new`] turns that into the wallet name and the command
//! line that `bitcoind` is started with; locating the executable and starting
//! the process is left to the caller.

use vstd::prelude::*;

verus! {

/// Controls the loaded wallet.
#[derive(Clone, Debug, PartialEq, Eq)]
pub enum Wallet {
    /// Load the default wallet.
    Default,
    /// Load a wallet with custom name.
    Load(String),
    /// Do not load a wallet.
    NoWallet,
}

/// The part of a node's configuration that a test's intent decides.
#[derive(Clone, Debug, PartialEq, Eq)]
pub struct LaunchConf<'a> {
    /// The wallet to load after initialization, if any.
    pub wallet: Option<String>,
    /// Command line arguments, in the order they are passed.
    pub args: Vec<&'a str>,
}

/// A [`LaunchConf`] as mathematical values: names and arguments are sequences
/// of characters.
pub struct LaunchConfView {
    pub wallet: Option<Seq<char>>,
    pub args: Seq<Seq<char>>,
}

impl<'a> View for LaunchConf<'a> {
    type V = LaunchConfView;

    open spec fn view(&self) -> LaunchConfView {
        LaunchConfView {
            wallet: match self.wallet {
                Some(name) => Some(name@),
                None => None,
            },
            args: self.args.deep_view(),
        }
    }
}

/// The argument that switches the transaction index on.
pub open spec fn index_flag() -> Seq<char> {
    "-txindex"@
}

/// What `corepc_node` launches a node with when nothing is asked for: the
/// wallet named `default`, on regtest, with a fallback fee.
pub open spec fn default_launch() -> LaunchConfView {
    LaunchConfView {
        wallet: Some("default"@),
        args: seq!["-regtest"@, "-fallbackfee=0.0001"@],
    }
}

/// The configuration that `base` becomes for a test that wants `wallet` and,
/// if `txindex`, the transaction index.
///
/// The default wallet leaves the wallet of `base` as it is, a named wallet
/// replaces it by that name, and no wallet clears it. The index flag is
/// appended after the arguments of `base`.
pub open spec fn resolved(base: LaunchConfView, wallet: Wallet, txindex: bool) -> LaunchConfView {
    LaunchConfView {
        wallet: match wallet {
            Wallet::Default => base.wallet,
            Wallet::Load(name) => Some(name@),
            Wallet::NoWallet => None,
        },
        args: if txindex {
            base.args.push(index_flag())
        } else {
            base.args
        },
    }
}

/// Calls `corepc_node::Conf::default()` and keeps its `wallet` and `args`.
///
/// Trusted: the contract repeats the two fields as `Conf`'s `Default` impl
/// writes them, `Some("default")` and `["-regtest", "-fallbackfee=0.0001"]`.
#[verifier::external_body]
fn node_defaults<'a>() -> (conf: LaunchConf<'a>)
    ensures
        conf@ == default_launch(),
{
    let conf = corepc_node::Conf::default();
    LaunchConf { wallet: conf.wallet, args: conf.args }
}

impl<'a> LaunchConf<'a> {
    /// Applies a test's intent to `base`.
    pub fn resolve(base: LaunchConf<'a>, wallet: Wallet, txindex: bool) -> (conf: LaunchConf<'a>)
        ensures
            conf@ == resolved(base@, wallet, txindex),
    {
        let mut conf = base;
        match wallet {
            Wallet::Default => {},
            Wallet::Load(name) => {
                conf.wallet = Some(name);
            },
            Wallet::NoWallet => {
                conf.wallet = None;
            },
        }
        if txindex {
            conf.args.push("-txindex");
            assert(conf.args.deep_view() =~= base.args.deep_view().push(index_flag()));
        }
        conf
    }

    /// The configuration of a node with `wallet` and, if `txindex`, with
    /// `-txindex` enabled, starting from the defaults of `corepc_node`.
    pub fn new(wallet: Wallet, txindex: bool) -> (conf: LaunchConf<'a>)
        ensures
            conf@ == resolved(default_launch(), wallet, txindex),
    {
        LaunchConf::resolve(node_defaults(), wallet, txindex)
    }

    /// Configuration with the "default" wallet loaded.
    pub fn new_with_default_wallet() -> (conf: LaunchConf<'a>)
        ensures
            conf@ == resolved(default_launch(), Wallet::Default, false),
    {
        LaunchConf::new(Wallet::Default, false)
    }

    /// Configuration with the "default" wallet loaded and `-txindex` enabled.
    pub fn new_with_default_wallet_txindex() -> (conf: LaunchConf<'a>)
        ensures
            conf@ == resolved(default_launch(), Wallet::Default, true),
    {
        LaunchConf::new(Wallet::Default, true)
    }

    /// Configuration with `wallet` loaded.
    pub fn new_with_wallet(wallet: String) -> (conf: LaunchConf<'a>)
        ensures
            conf@ == resolved(default_launch(), Wallet::Load(wallet), false),
    {
        LaunchConf::new(Wallet::Load(wallet), false)
    }

    /// Configuration with `wallet` loaded and `-txindex` enabled.
    pub fn new_with_wallet_txindex(wallet: String) -> (conf: LaunchConf<'a>)
        ensures
            conf@ == resolved(default_launch(), Wallet::Load(wallet), true),
    {
        LaunchConf::new(Wallet::Load(wallet), true)
    }

    /// Configuration without any wallet loaded.
    pub fn new_no_wallet() -> (conf: LaunchConf<'a>)
        ensures
            conf@ == resolved(default_launch(), Wallet::NoWallet, false),
    {
        LaunchConf::new(Wallet::NoWallet, false)
    }

    /// Configuration without any wallet loaded and `-txindex` enabled.
    pub fn new_no_wallet_txindex() -> (conf: LaunchConf<'a>)
        ensures
            conf@ == resolved(default_launch(), Wallet::NoWallet, true),
    {
        LaunchConf::new(Wallet::NoWallet, true)
    }
}

/// The wallet of a resolved configuration is the one that was asked for: none
/// where no wallet was wanted, exactly the given name (the empty name too)
/// where one was named, and the wallet of `base` where the default was wanted.
pub proof fn lemma_wallet_matches_intent(base: LaunchConfView, wallet: Wallet, txindex: bool)
    ensures
        wallet is NoWallet ==> resolved(base, wallet, txindex).wallet is None,
        wallet matches Wallet::Load(name) ==> resolved(base, wallet, txindex).wallet == Some(name@),
        wallet is Default ==> resolved(base, wallet, txindex).wallet == base.wallet,
{
}

/// A node configured from the defaults loads a wallet unless none was wanted,
/// and with the default wallet wanted it loads the one named `default`.
pub proof fn lemma_default_wallet_is_loaded(wallet: Wallet, txindex: bool)
    ensures
        resolved(default_launch(), wallet, txindex).wallet is Some <==> !(wallet is NoWallet),
        wallet is Default ==> resolved(default_launch(), wallet, txindex).wallet == Some("default"@),
{
}

/// Over a base without the index flag, the flag is among the resolved
/// arguments if and only if the index was asked for; the arguments of the base
/// stay in front, in their order.
pub proof fn lemma_index_flag_iff_requested(base: LaunchConfView, wallet: Wallet, txindex: bool)
    requires
        !base.args.contains(index_flag()),
    ensures
        resolved(base, wallet, txindex).args.contains(index_flag()) <==> txindex,
        base.args.is_prefix_of(resolved(base, wallet, txindex).args),
{
    let args = resolved(base, wallet, txindex).args;
    if txindex {
        assert(args[base.args.len() as int] == index_flag());
    }
}

/// From the defaults of `corepc_node`, the index flag is among the arguments
/// if and only if the index was asked for.
pub proof fn lemma_default_index_flag_iff_requested(wallet: Wallet, txindex: bool)
    ensures
        resolved(default_launch(), wallet, txindex).args.contains(index_flag()) <==> txindex,
{
    reveal_strlit("-txindex");
    reveal_strlit("-regtest");
    reveal_strlit("-fallbackfee=0.0001");
    let base = default_launch();
    assert(base.args[0][1] != index_flag()[1]);
    assert(base.args[1].len() != index_flag().len());
    assert(!base.args.contains(index_flag()));
    lemma_index_flag_iff_requested(base, wallet, txindex);
}

} // verus!
