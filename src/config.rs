use vstd::prelude::*;
use vstd::string::StringExecFns;
use crate::maturity::BOOTSTRAP_BLOCKS;

verus! {

/// A tenth of a coin, in satoshi: the amount the miner pays the trader.
pub const PAYMENT_SAT: u64 = 10_000_000;

/// Everything the walkthrough needs to know about where and what to run.
pub struct FlowConfig {
    /// Base URL of the node's RPC server.
    pub endpoint: String,
    pub user: String,
    pub password: String,
    pub miner_wallet: String,
    pub trader_wallet: String,
    /// Blocks mined to the miner before paying, to mature coinbase rewards.
    pub bootstrap_blocks: u64,
    /// Amount paid to the trader, in satoshi.
    pub payment_sat: u64,
    /// Where the report is written.
    pub report_path: String,
}

/// The RPC URL that addresses wallet `wallet` on the node at `endpoint`.
pub open spec fn wallet_url(endpoint: Seq<char>, wallet: Seq<char>) -> Seq<char> {
    endpoint + seq!['/', 'w', 'a', 'l', 'l', 'e', 't', '/'] + wallet
}

/// The RPC URL of wallet `wallet` on the node at `endpoint`.
pub fn wallet_endpoint(endpoint: &str, wallet: &str) -> (r: String)
    ensures
        r@ == wallet_url(endpoint@, wallet@),
{
    let mut r = String::from_str(endpoint);
    proof { reveal_strlit("/wallet/"); }
    let sep = "/wallet/";
    assert(sep@ =~= seq!['/', 'w', 'a', 'l', 'l', 'e', 't', '/']);
    r.append(sep);
    r.append(wallet);
    r
}

/// A local regtest node with the "Miner" and "Trader" wallets.
pub fn regtest_defaults() -> (c: FlowConfig)
    ensures
        c.endpoint@ == "http://127.0.0.1:18443"@,
        c.user@ == "bitcoin"@,
        c.password@ == "secret"@,
        c.miner_wallet@ == "Miner"@,
        c.trader_wallet@ == "Trader"@,
        c.bootstrap_blocks == BOOTSTRAP_BLOCKS,
        c.payment_sat == PAYMENT_SAT,
        c.report_path@ == "../out.txt"@,
{
    FlowConfig {
        endpoint: String::from_str("http://127.0.0.1:18443"),
        user: String::from_str("bitcoin"),
        password: String::from_str("secret"),
        miner_wallet: String::from_str("Miner"),
        trader_wallet: String::from_str("Trader"),
        bootstrap_blocks: BOOTSTRAP_BLOCKS,
        payment_sat: PAYMENT_SAT,
        report_path: String::from_str("../out.txt"),
    }
}

} // verus!
