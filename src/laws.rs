use vstd::prelude::*;
use crate::chain::TxModel;
use crate::inspect::{
    first_other, first_trader, inspection_of, pays_other, pays_trader, sum_values, FlowError,
    Inspection,
};
use crate::report::{
    coin_text, decimal_text, digit_char, fee_sat_of, fraction_text, padded_text, report_of,
    report_text, Report,
};

verus! {

/// Conservation: the reported input amount is the sum of all the payment's
/// outputs plus its fee.
pub proof fn lemma_conservation(
    tx: TxModel,
    addrs: Seq<Option<Seq<char>>>,
    trader: Seq<char>,
    ins: Inspection,
    txid: Seq<char>,
    input_address: Seq<char>,
    fee: Option<i64>,
    height: Option<u64>,
    hash: Option<Seq<char>>,
    rep: Report,
)
    requires
        inspection_of(tx, addrs, trader, Ok(ins)),
        report_of(ins, txid, input_address, fee, height, hash, Ok(rep)),
    ensures
        sum_values(tx.1) + rep.fee_sat == rep.input_sat,
        rep.fee_sat == fee_sat_of(fee),
{
}

/// When exactly one output pays the trader, the inspection records that output:
/// the trader's address with that output's amount.
pub proof fn lemma_single_trader_output(
    tx: TxModel,
    addrs: Seq<Option<Seq<char>>>,
    trader: Seq<char>,
    ins: Inspection,
    k: int,
)
    requires
        inspection_of(tx, addrs, trader, Ok(ins)),
        0 <= k < addrs.len(),
        pays_trader(addrs[k], trader),
        forall|j: int| 0 <= j < addrs.len() && j != k ==> !pays_trader(#[trigger] addrs[j], trader),
    ensures
        ins.trader.address@ == trader,
        ins.trader.value_sat == tx.1[k].0,
{
    let i = choose|i: usize| #![trigger addrs[i as int]]
        first_trader(addrs, trader, Some(i)) && ins.trader@ == (trader, tx.1[i as int].0);
    if i < k {
        assert(!pays_trader(addrs[i as int], trader));
    } else if i > k {
        assert(!pays_trader(addrs[k], trader));
    }
}

/// Change is optional: with no output paying a valid address other than the
/// trader's, no change is recorded and the report says "None" and "0"; with
/// one, the first such output is recorded as change.
pub proof fn lemma_change_optional(
    tx: TxModel,
    addrs: Seq<Option<Seq<char>>>,
    trader: Seq<char>,
    ins: Inspection,
    txid: Seq<char>,
    input_address: Seq<char>,
    fee: Option<i64>,
    height: Option<u64>,
    hash: Option<Seq<char>>,
    rep: Report,
)
    requires
        inspection_of(tx, addrs, trader, Ok(ins)),
        report_of(ins, txid, input_address, fee, height, hash, Ok(rep)),
    ensures
        (forall|j: int| 0 <= j < addrs.len() ==> !pays_other(#[trigger] addrs[j], trader)) ==> {
            &&& ins.change is None
            &&& report_text(rep)[5] == seq!['N', 'o', 'n', 'e']
            &&& report_text(rep)[6] == seq!['0']
        },
        (exists|j: int| 0 <= j < addrs.len() && pays_other(#[trigger] addrs[j], trader)) ==> {
            exists|i: usize| #![trigger addrs[i as int]]
                first_other(addrs, trader, Some(i)) && ins.change is Some
                    && addrs[i as int] == Some(ins.change->Some_0.address@)
                    && ins.change->Some_0.value_sat == tx.1[i as int].0
                    && report_text(rep)[5] == ins.change->Some_0.address@
                    && report_text(rep)[6] == coin_text(tx.1[i as int].0 as nat)
        },
{
    if forall|j: int| 0 <= j < addrs.len() ==> !pays_other(#[trigger] addrs[j], trader) {
        if ins.change is Some {
            let i = choose|i: usize| #![trigger addrs[i as int]]
                first_other(addrs, trader, Some(i)) && addrs[i as int] == Some(ins.change->Some_0.address@)
                    && ins.change->Some_0.value_sat == tx.1[i as int].0;
            assert(pays_other(addrs[i as int], trader));
        }
        assert(decimal_text(0) == seq![digit_char(0)]);
    }
    if exists|j: int| 0 <= j < addrs.len() && pays_other(#[trigger] addrs[j], trader) {
        let j = choose|j: int| 0 <= j < addrs.len() && pays_other(#[trigger] addrs[j], trader);
        if ins.change is None {
            assert(!pays_other(addrs[j], trader));
        }
    }
}

/// A payment of a tenth of a coin is written as "0.1", and the report's first
/// line is the txid it was built with, its fifth the trader's amount.
pub proof fn lemma_report_fidelity(
    ins: Inspection,
    txid: Seq<char>,
    input_address: Seq<char>,
    fee: Option<i64>,
    height: Option<u64>,
    hash: Option<Seq<char>>,
    rep: Report,
)
    requires
        report_of(ins, txid, input_address, fee, height, hash, Ok(rep)),
    ensures
        report_text(rep)[0] == txid,
        report_text(rep)[4] == coin_text(ins.trader.value_sat as nat),
        ins.trader.value_sat == 10_000_000 ==> report_text(rep)[4] == seq!['0', '.', '1'],
{
    lemma_tenth_coin_text();
}

/// A tenth of a coin is written "0.1".
pub proof fn lemma_tenth_coin_text()
    ensures
        coin_text(10_000_000) == seq!['0', '.', '1'],
{
    reveal_with_fuel(fraction_text, 9);
    reveal_with_fuel(padded_text, 2);
    assert(decimal_text(0) == seq!['0']);
    assert(fraction_text(10_000_000, 8) == fraction_text(1, 1));
    assert(padded_text(1, 1) =~= seq!['1']);
    assert(coin_text(10_000_000) =~= seq!['0', '.', '1']);
}

/// A payment with no output to the trader is fatal: its inspection fails with
/// "trader output not found" and yields nothing to report.
pub proof fn lemma_missing_trader_output_fatal(
    tx: TxModel,
    addrs: Seq<Option<Seq<char>>>,
    trader: Seq<char>,
    r: Result<Inspection, FlowError>,
)
    requires
        tx.0.len() > 0,
        forall|j: int| 0 <= j < addrs.len() ==> !pays_trader(#[trigger] addrs[j], trader),
        inspection_of(tx, addrs, trader, r),
    ensures
        r == Err::<Inspection, FlowError>(FlowError::TraderOutputNotFound),
{
}

} // verus!
