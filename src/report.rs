use vstd::prelude::*;
use vstd::string::StringExecFns;
use crate::inspect::{Inspection, FlowError};

verus! {

/// Satoshi in one coin.
pub const SAT_PER_COIN: u64 = 100_000_000;

/// The ten fields written about the confirmed payment, in file order.
pub struct Report {
    pub txid: String,
    pub input_address: String,
    pub input_sat: u64,
    pub trader_address: String,
    pub trader_sat: u64,
    pub change_address: Option<String>,
    pub change_sat: u64,
    pub fee_sat: u64,
    pub block_height: u64,
    pub block_hash: String,
}

/// The character of decimal digit `d`.
pub open spec fn digit_char(d: nat) -> char {
    if d == 0 {
        '0'
    } else if d == 1 {
        '1'
    } else if d == 2 {
        '2'
    } else if d == 3 {
        '3'
    } else if d == 4 {
        '4'
    } else if d == 5 {
        '5'
    } else if d == 6 {
        '6'
    } else if d == 7 {
        '7'
    } else if d == 8 {
        '8'
    } else {
        '9'
    }
}

/// `n` in decimal, without leading zeros.
pub open spec fn decimal_text(n: nat) -> Seq<char>
    decreases n,
{
    if n < 10 {
        seq![digit_char(n)]
    } else {
        decimal_text(n / 10) + seq![digit_char(n % 10)]
    }
}

/// The last `w` decimal digits of `f`, with leading zeros.
pub open spec fn padded_text(f: nat, w: nat) -> Seq<char>
    decreases w,
{
    if w == 0 {
        seq![]
    } else {
        padded_text(f / 10, (w - 1) as nat) + seq![digit_char(f % 10)]
    }
}

/// The fraction `f / 10^w` after the decimal point, trailing zeros dropped.
pub open spec fn fraction_text(f: nat, w: nat) -> Seq<char>
    decreases w,
{
    if w > 0 && f % 10 == 0 {
        fraction_text(f / 10, (w - 1) as nat)
    } else {
        padded_text(f, w)
    }
}

/// An amount of `sat` satoshi written in coins: whole coins in decimal, then,
/// when the amount is not whole, a point and the fraction without trailing zeros.
pub open spec fn coin_text(sat: nat) -> Seq<char> {
    let whole = decimal_text(sat / SAT_PER_COIN as nat);
    let frac = sat % SAT_PER_COIN as nat;
    if frac == 0 {
        whole
    } else {
        whole + seq!['.'] + fraction_text(frac, 8)
    }
}

/// Magnitude of the fee the node reported; no report counts as zero.
pub open spec fn fee_sat_of(fee: Option<i64>) -> nat {
    match fee {
        Some(f) => if f < 0 { (-f) as nat } else { f as nat },
        None => 0,
    }
}

/// The ten lines written for `r`.
pub open spec fn report_text(r: Report) -> Seq<Seq<char>> {
    seq![
        r.txid@,
        r.input_address@,
        coin_text(r.input_sat as nat),
        r.trader_address@,
        coin_text(r.trader_sat as nat),
        match r.change_address {
            Some(a) => a@,
            None => seq!['N', 'o', 'n', 'e'],
        },
        coin_text(r.change_sat as nat),
        coin_text(r.fee_sat as nat),
        decimal_text(r.block_height as nat),
        r.block_hash@,
    ]
}

/// `r` is the report made from the inspection `ins`, the payment's `txid`,
/// the funding output's `input_address`, the node's `fee` and block data.
pub open spec fn report_of(
    ins: Inspection,
    txid: Seq<char>,
    input_address: Seq<char>,
    fee: Option<i64>,
    height: Option<u64>,
    hash: Option<Seq<char>>,
    r: Result<Report, FlowError>,
) -> bool {
    if ins.outputs_sat + fee_sat_of(fee) > u64::MAX {
        r == Err::<Report, FlowError>(FlowError::AmountOverflow)
    } else if height is None {
        r == Err::<Report, FlowError>(FlowError::MissingBlockHeight)
    } else if hash is None {
        r == Err::<Report, FlowError>(FlowError::MissingBlockHash)
    } else {
        match r {
            Ok(rep) => {
                &&& rep.txid@ == txid
                &&& rep.input_address@ == input_address
                &&& rep.input_sat == ins.outputs_sat + fee_sat_of(fee)
                &&& rep.trader_address@ == ins.trader.address@
                &&& rep.trader_sat == ins.trader.value_sat
                &&& match ins.change {
                    Some(c) => rep.change_address is Some && rep.change_address->Some_0@
                        == c.address@ && rep.change_sat == c.value_sat,
                    None => rep.change_address is None && rep.change_sat == 0,
                }
                &&& rep.fee_sat == fee_sat_of(fee)
                &&& rep.block_height == height->Some_0
                &&& rep.block_hash@ == hash->Some_0
            },
            Err(_) => false,
        }
    }
}

/// Magnitude of the fee the node reported, zero when it reported none.
pub fn fee_magnitude(fee: Option<i64>) -> (r: u64)
    ensures
        r == fee_sat_of(fee),
{
    match fee {
        Some(f) => if f < 0 {
            if f == i64::MIN {
                9_223_372_036_854_775_808u64
            } else {
                (-f) as u64
            }
        } else {
            f as u64
        },
        None => 0,
    }
}

/// Assembles the report of a confirmed payment. The input amount is not read
/// from the input: it is the sum of the outputs plus the fee.
pub fn build_report(
    ins: Inspection,
    txid: String,
    input_address: String,
    fee: Option<i64>,
    height: Option<u64>,
    hash: Option<String>,
) -> (r: Result<Report, FlowError>)
    ensures
        report_of(
            ins,
            txid@,
            input_address@,
            fee,
            height,
            match hash {
                Some(h) => Some(h@),
                None => None,
            },
            r,
        ),
{
    let fee_sat = fee_magnitude(fee);
    if ins.outputs_sat > u64::MAX - fee_sat {
        return Err(FlowError::AmountOverflow);
    }
    let block_height = match height {
        Some(h) => h,
        None => {
            return Err(FlowError::MissingBlockHeight);
        },
    };
    let block_hash = match hash {
        Some(h) => h,
        None => {
            return Err(FlowError::MissingBlockHash);
        },
    };
    let input_sat = ins.outputs_sat + fee_sat;
    let (change_address, change_sat) = match ins.change {
        Some(c) => (Some(c.address), c.value_sat),
        None => (None, 0),
    };
    Ok(
        Report {
            txid,
            input_address,
            input_sat,
            trader_address: ins.trader.address,
            trader_sat: ins.trader.value_sat,
            change_address,
            change_sat,
            fee_sat,
            block_height,
            block_hash,
        },
    )
}

/// The one-character text of digit `d`.
fn digit_str(d: u64) -> (r: &'static str)
    requires
        d < 10,
    ensures
        r@ == seq![digit_char(d as nat)],
{
    let r = if d == 0 {
        proof { reveal_strlit("0"); }
        "0"
    } else if d == 1 {
        proof { reveal_strlit("1"); }
        "1"
    } else if d == 2 {
        proof { reveal_strlit("2"); }
        "2"
    } else if d == 3 {
        proof { reveal_strlit("3"); }
        "3"
    } else if d == 4 {
        proof { reveal_strlit("4"); }
        "4"
    } else if d == 5 {
        proof { reveal_strlit("5"); }
        "5"
    } else if d == 6 {
        proof { reveal_strlit("6"); }
        "6"
    } else if d == 7 {
        proof { reveal_strlit("7"); }
        "7"
    } else if d == 8 {
        proof { reveal_strlit("8"); }
        "8"
    } else {
        proof { reveal_strlit("9"); }
        "9"
    };
    assert(r@ =~= seq![digit_char(d as nat)]);
    r
}

/// Appends `n` in decimal to `s`.
fn push_decimal(s: &mut String, n: u64)
    ensures
        final(s)@ == old(s)@ + decimal_text(n as nat),
    decreases n,
{
    if n >= 10 {
        push_decimal(s, n / 10);
    }
    s.append(digit_str(n % 10));
    assert(s@ =~= old(s)@ + decimal_text(n as nat));
}

/// Appends the last `w` decimal digits of `f` to `s`, with leading zeros.
fn push_padded(s: &mut String, f: u64, w: u64)
    ensures
        final(s)@ == old(s)@ + padded_text(f as nat, w as nat),
    decreases w,
{
    if w > 0 {
        push_padded(s, f / 10, w - 1);
        s.append(digit_str(f % 10));
        assert(s@ =~= old(s)@ + padded_text(f as nat, w as nat));
    } else {
        assert(s@ =~= old(s)@ + padded_text(f as nat, w as nat));
    }
}

/// Appends the fraction `f / 10^w` to `s`, without trailing zeros.
fn push_fraction(s: &mut String, f: u64, w: u64)
    ensures
        final(s)@ == old(s)@ + fraction_text(f as nat, w as nat),
    decreases w,
{
    if w > 0 && f % 10 == 0 {
        push_fraction(s, f / 10, w - 1);
    } else {
        push_padded(s, f, w);
    }
}

/// `n` in decimal.
pub fn decimal_string(n: u64) -> (r: String)
    ensures
        r@ == decimal_text(n as nat),
{
    let mut s = String::new();
    push_decimal(&mut s, n);
    assert(s@ =~= decimal_text(n as nat));
    s
}

/// An amount of `sat` satoshi written in coins, as exact decimal text.
pub fn coin_string(sat: u64) -> (r: String)
    ensures
        r@ == coin_text(sat as nat),
{
    let mut s = String::new();
    push_decimal(&mut s, sat / SAT_PER_COIN);
    let frac = sat % SAT_PER_COIN;
    if frac != 0 {
        proof { reveal_strlit("."); }
        s.append(".");
        push_fraction(&mut s, frac, 8);
    }
    assert(s@ =~= coin_text(sat as nat));
    s
}

/// The ten lines of the report, in file order.
pub fn report_lines(r: &Report) -> (lines: Vec<String>)
    ensures
        lines@.map_values(|l: String| l@) == report_text(*r),
{
    let mut lines: Vec<String> = Vec::new();
    lines.push(r.txid.clone());
    lines.push(r.input_address.clone());
    lines.push(coin_string(r.input_sat));
    lines.push(r.trader_address.clone());
    lines.push(coin_string(r.trader_sat));
    let change = match &r.change_address {
        Some(a) => a.clone(),
        None => {
            proof { reveal_strlit("None"); }
            let t = String::from_str("None");
            assert(t@ =~= seq!['N', 'o', 'n', 'e']);
            t
        },
    };
    lines.push(change);
    lines.push(coin_string(r.change_sat));
    lines.push(coin_string(r.fee_sat));
    lines.push(decimal_string(r.block_height));
    lines.push(r.block_hash.clone());
    assert(lines@.map_values(|l: String| l@) =~= report_text(*r));
    lines
}

} // verus!
