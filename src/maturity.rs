use vstd::prelude::*;

verus! {

/// Confirmations a coinbase output needs before the wallet can spend it.
pub const COINBASE_MATURITY: u64 = 100;

/// Blocks mined to the miner's reward address when the chain is bootstrapped.
pub const BOOTSTRAP_BLOCKS: u64 = 110;

/// Number of coinbase outputs that are spendable after `blocks` blocks have been
/// mined to one address on a fresh chain.
pub open spec fn spendable_rewards(blocks: nat, maturity: nat) -> nat {
    if blocks > maturity {
        (blocks - maturity) as nat
    } else {
        0
    }
}

/// How many of the rewards of `blocks` freshly mined blocks have matured.
pub fn mature_rewards(blocks: u64, maturity: u64) -> (r: u64)
    ensures
        r as nat == spendable_rewards(blocks as nat, maturity as nat),
{
    if blocks > maturity {
        blocks - maturity
    } else {
        0
    }
}

/// Mining `maturity + k` blocks yields exactly `k` spendable rewards; the count
/// never falls as more blocks are mined, and it is non-zero exactly when more
/// blocks than the maturity depth were mined.
pub proof fn lemma_maturity_arithmetic(maturity: nat, k: nat, more: nat)
    ensures
        spendable_rewards(maturity + k, maturity) == k,
        spendable_rewards(maturity + k, maturity) <= spendable_rewards(maturity + k + more, maturity),
        spendable_rewards(maturity + k, maturity) > 0 <==> k > 0,
{
}

} // verus!
