use vstd::prelude::*;
use crate::chain::{
    address_of_script, decode_transaction, decoded_transaction, opt_text, parse_regtest_address,
    regtest_address, script_address, OutPointRef, OutputModel, TxData, TxModel, TxOutData,
};

verus! {

/// Why the walkthrough cannot go on.
#[derive(Clone, Copy, Debug, PartialEq, Eq, Structural)]
pub enum FlowError {
    /// An address handed out by the node is not a valid regtest address.
    WrongNetwork,
    /// Raw transaction bytes do not decode.
    Undecodable,
    /// The payment spends nothing.
    NoInputs,
    /// The spent outpoint names an output its transaction does not have.
    SpentOutputMissing,
    /// The spent output's script has no address form.
    NoFundingAddress,
    /// No output pays the trader's address.
    TraderOutputNotFound,
    /// An amount sum does not fit in 64 bits.
    AmountOverflow,
    /// The confirmed transaction carries no block height.
    MissingBlockHeight,
    /// The confirmed transaction carries no block hash.
    MissingBlockHash,
}

/// An output that was recognised: its address and value.
pub struct PaidOutput {
    pub address: String,
    pub value_sat: u64,
}

/// What the payment transaction shows of itself.
pub struct Inspection {
    /// The output spent by the first input.
    pub funding: OutPointRef,
    /// Sum of all output values.
    pub outputs_sat: u64,
    /// The first output paying the trader.
    pub trader: PaidOutput,
    /// The first output paying some other valid address, if any.
    pub change: Option<PaidOutput>,
}

impl View for PaidOutput {
    type V = (Seq<char>, u64);

    open spec fn view(&self) -> (Seq<char>, u64) {
        (self.address@, self.value_sat)
    }
}

/// Sum of the values of `outs`.
pub open spec fn sum_values(outs: Seq<OutputModel>) -> nat
    decreases outs.len(),
{
    if outs.len() == 0 {
        0
    } else {
        sum_values(outs.drop_last()) + outs.last().0 as nat
    }
}

/// Output addresses as text.
pub open spec fn addresses_text(addrs: Seq<Option<String>>) -> Seq<Option<Seq<char>>> {
    addrs.map_values(|a: Option<String>| opt_text(a))
}

/// Whether an output with address `a` pays the trader.
pub open spec fn pays_trader(a: Option<Seq<char>>, trader: Seq<char>) -> bool {
    a == Some(trader)
}

/// Whether an output with address `a` is a candidate change output.
pub open spec fn pays_other(a: Option<Seq<char>>, trader: Seq<char>) -> bool {
    a is Some && a->Some_0 != trader
}

/// `r` is the first index of `addrs` that pays the trader, or none is there.
pub open spec fn first_trader(addrs: Seq<Option<Seq<char>>>, trader: Seq<char>, r: Option<usize>) -> bool {
    match r {
        Some(i) => i < addrs.len() && pays_trader(addrs[i as int], trader)
            && forall|j: int| 0 <= j < i ==> !pays_trader(#[trigger] addrs[j], trader),
        None => forall|j: int| 0 <= j < addrs.len() ==> !pays_trader(#[trigger] addrs[j], trader),
    }
}

/// `r` is the first index of `addrs` with a valid non-trader address, or none is there.
pub open spec fn first_other(addrs: Seq<Option<Seq<char>>>, trader: Seq<char>, r: Option<usize>) -> bool {
    match r {
        Some(i) => i < addrs.len() && pays_other(addrs[i as int], trader)
            && forall|j: int| 0 <= j < i ==> !pays_other(#[trigger] addrs[j], trader),
        None => forall|j: int| 0 <= j < addrs.len() ==> !pays_other(#[trigger] addrs[j], trader),
    }
}

/// The address of each output of `tx`.
pub open spec fn output_addresses_of(tx: TxModel) -> Seq<Option<Seq<char>>> {
    tx.1.map_values(|o: OutputModel| script_address(o.1))
}

/// `r` is the inspection of transaction `tx`, whose outputs have the addresses
/// `addrs`, for a payment to `trader`.
pub open spec fn inspection_of(
    tx: TxModel,
    addrs: Seq<Option<Seq<char>>>,
    trader: Seq<char>,
    r: Result<Inspection, FlowError>,
) -> bool {
    let none_to_trader = forall|j: int| 0 <= j < addrs.len() ==> !pays_trader(#[trigger] addrs[j], trader);
    if tx.0.len() == 0 {
        r == Err::<Inspection, FlowError>(FlowError::NoInputs)
    } else if none_to_trader {
        r == Err::<Inspection, FlowError>(FlowError::TraderOutputNotFound)
    } else if sum_values(tx.1) > u64::MAX {
        r == Err::<Inspection, FlowError>(FlowError::AmountOverflow)
    } else {
        match r {
            Ok(ins) => {
                &&& ins.funding@ == tx.0[0]
                &&& ins.outputs_sat == sum_values(tx.1)
                &&& exists|i: usize| #![trigger addrs[i as int]]
                    first_trader(addrs, trader, Some(i)) && ins.trader@ == (trader, tx.1[i as int].0)
                &&& match ins.change {
                    Some(c) => exists|i: usize| #![trigger addrs[i as int]]
                        first_other(addrs, trader, Some(i)) && addrs[i as int] == Some(c.address@)
                            && c.value_sat == tx.1[i as int].0,
                    None => first_other(addrs, trader, None),
                }
            },
            Err(_) => false,
        }
    }
}

/// Index of the first output that pays `trader`.
pub fn find_trader_output(addrs: &Vec<Option<String>>, trader: &String) -> (r: Option<usize>)
    ensures
        first_trader(addresses_text(addrs@), trader@, r),
{
    let ghost a = addresses_text(addrs@);
    let mut i: usize = 0;
    while i < addrs.len()
        invariant
            i <= addrs.len(),
            a == addresses_text(addrs@),
            forall|j: int| 0 <= j < i ==> !pays_trader(#[trigger] a[j], trader@),
        decreases addrs.len() - i,
    {
        match &addrs[i] {
            Some(s) => {
                if *s == *trader {
                    return Some(i);
                }
            },
            None => {},
        }
        i = i + 1;
    }
    None
}

/// Index of the first output that pays a valid address other than `trader`.
pub fn find_change_output(addrs: &Vec<Option<String>>, trader: &String) -> (r: Option<usize>)
    ensures
        first_other(addresses_text(addrs@), trader@, r),
{
    let ghost a = addresses_text(addrs@);
    let mut i: usize = 0;
    while i < addrs.len()
        invariant
            i <= addrs.len(),
            a == addresses_text(addrs@),
            forall|j: int| 0 <= j < i ==> !pays_other(#[trigger] a[j], trader@),
        decreases addrs.len() - i,
    {
        match &addrs[i] {
            Some(s) => {
                if *s != *trader {
                    return Some(i);
                }
            },
            None => {},
        }
        i = i + 1;
    }
    None
}

/// Sum of the output values, if it fits in 64 bits.
pub fn total_output_sat(outs: &Vec<TxOutData>) -> (r: Option<u64>)
    ensures
        match r {
            Some(t) => t == sum_values(outs@.map_values(|o: TxOutData| o@)),
            None => sum_values(outs@.map_values(|o: TxOutData| o@)) > u64::MAX,
        },
{
    let ghost m = outs@.map_values(|o: TxOutData| o@);
    let mut total: u64 = 0;
    let mut i: usize = 0;
    while i < outs.len()
        invariant
            i <= outs.len(),
            m == outs@.map_values(|o: TxOutData| o@),
            total == sum_values(m.take(i as int)),
        decreases outs.len() - i,
    {
        assert(m.take(i + 1).drop_last() == m.take(i as int));
        let v = outs[i].value_sat;
        if v > u64::MAX - total {
            proof {
                lemma_sum_prefix_grows(m, i + 1);
            }
            return None;
        }
        total = total + v;
        i = i + 1;
    }
    assert(m.take(i as int) == m);
    Some(total)
}

/// A prefix never sums to more than the whole.
proof fn lemma_sum_prefix_grows(m: Seq<OutputModel>, k: int)
    requires
        0 <= k <= m.len(),
    ensures
        sum_values(m.take(k)) <= sum_values(m),
    decreases m.len() - k,
{
    if k < m.len() {
        lemma_sum_prefix_grows(m, k + 1);
        assert(m.take(k + 1).drop_last() == m.take(k));
    } else {
        assert(m.take(k) == m);
    }
}

/// The address of each output of `tx`, as the node's network reads it.
pub fn output_addresses(tx: &TxData) -> (r: Vec<Option<String>>)
    ensures
        r@.len() == tx.outputs@.len(),
        addresses_text(r@) == output_addresses_of(tx@),
{
    let mut r: Vec<Option<String>> = Vec::new();
    let mut i: usize = 0;
    while i < tx.outputs.len()
        invariant
            i <= tx.outputs.len(),
            r@.len() == i,
            forall|j: int| 0 <= j < i ==> opt_text(#[trigger] r@[j]) == script_address(tx.outputs@[j].script@),
        decreases tx.outputs.len() - i,
    {
        let a = address_of_script(tx.outputs[i].script.as_slice());
        r.push(a);
        i = i + 1;
    }
    assert(addresses_text(r@) =~= output_addresses_of(tx@));
    r
}

/// Inspects a decoded payment whose outputs have the addresses `addrs`: the
/// spent outpoint of the first input, the output total, the first output that
/// pays `trader` and the first that pays any other valid address.
pub fn inspect_decoded(
    tx: &TxData,
    addrs: &Vec<Option<String>>,
    trader: &String,
) -> (r: Result<Inspection, FlowError>)
    requires
        addrs@.len() == tx.outputs@.len(),
    ensures
        inspection_of(tx@, addresses_text(addrs@), trader@, r),
{
    let ghost a = addresses_text(addrs@);
    if tx.inputs.len() == 0 {
        return Err(FlowError::NoInputs);
    }
    let t = match find_trader_output(addrs, trader) {
        Some(t) => t,
        None => {
            return Err(FlowError::TraderOutputNotFound);
        },
    };
    assert(pays_trader(a[t as int], trader@));
    let total = match total_output_sat(&tx.outputs) {
        Some(total) => total,
        None => {
            return Err(FlowError::AmountOverflow);
        },
    };
    let first = &tx.inputs[0];
    let funding = OutPointRef { txid: first.txid.clone(), vout: first.vout };
    let trader_out = PaidOutput { address: trader.clone(), value_sat: tx.outputs[t].value_sat };
    let cidx = find_change_output(addrs, trader);
    let change = match cidx {
        Some(c) => match &addrs[c] {
            Some(s) => Some(PaidOutput { address: s.clone(), value_sat: tx.outputs[c].value_sat }),
            None => None,
        },
        None => None,
    };
    let r = Inspection { funding, outputs_sat: total, trader: trader_out, change };
    assert(first_trader(a, trader@, Some(t)));
    assert(tx@.1[t as int].0 == tx.outputs@[t as int].value_sat);
    proof {
        if cidx is Some {
            let c = cidx->Some_0;
            assert(a[c as int] == opt_text(addrs@[c as int]));
            assert(tx@.1[c as int].0 == tx.outputs@[c as int].value_sat);
        }
    }
    Ok(r)
}

/// Decodes the confirmed payment `raw` and inspects it for a payment to `trader`.
pub fn inspect_payment(raw: &Vec<u8>, trader: &String) -> (r: Result<Inspection, FlowError>)
    ensures
        match decoded_transaction(raw@) {
            None => r == Err::<Inspection, FlowError>(FlowError::Undecodable),
            Some(tx) => inspection_of(tx, output_addresses_of(tx), trader@, r),
        },
{
    match decode_transaction(raw.as_slice()) {
        None => Err(FlowError::Undecodable),
        Some(tx) => {
            let addrs = output_addresses(&tx);
            inspect_decoded(&tx, &addrs, trader)
        },
    }
}

/// The address that output `vout` of the earlier transaction `prev_raw` pays.
pub fn funding_address(prev_raw: &Vec<u8>, vout: u32) -> (r: Result<String, FlowError>)
    ensures
        match decoded_transaction(prev_raw@) {
            None => r == Err::<String, FlowError>(FlowError::Undecodable),
            Some(tx) => if vout >= tx.1.len() {
                r == Err::<String, FlowError>(FlowError::SpentOutputMissing)
            } else {
                match script_address(tx.1[vout as int].1) {
                    None => r == Err::<String, FlowError>(FlowError::NoFundingAddress),
                    Some(a) => r is Ok && r->Ok_0@ == a,
                }
            },
        },
{
    let tx = match decode_transaction(prev_raw.as_slice()) {
        None => {
            return Err(FlowError::Undecodable);
        },
        Some(tx) => tx,
    };
    if vout as usize >= tx.outputs.len() {
        return Err(FlowError::SpentOutputMissing);
    }
    assert(tx@.1[vout as int] == tx.outputs@[vout as int]@);
    match address_of_script(tx.outputs[vout as usize].script.as_slice()) {
        None => Err(FlowError::NoFundingAddress),
        Some(a) => Ok(a),
    }
}

/// The canonical text of an address the node handed out, which must be valid
/// on regtest.
pub fn require_regtest(text: &String) -> (r: Result<String, FlowError>)
    ensures
        match regtest_address(text@) {
            None => r == Err::<String, FlowError>(FlowError::WrongNetwork),
            Some(a) => r is Ok && r->Ok_0@ == a,
        },
{
    match parse_regtest_address(text.as_str()) {
        None => Err(FlowError::WrongNetwork),
        Some(a) => Ok(a),
    }
}

} // verus!
