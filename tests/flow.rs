use regtest_flow::{
    build_report, classify, coin_string, decimal_string, fee_magnitude, find_change_output,
    find_trader_output, funding_address, inspect_decoded, inspect_payment, mature_rewards,
    output_addresses, pending_call, provision_step, regtest_defaults, report_lines,
    require_regtest, total_output_sat, wallet_endpoint, CallError, Disposition, FlowError,
    Inspection, OutPointRef, PaidOutput, ProvisionState, TxData, TxOutData, WalletOp,
    BOOTSTRAP_BLOCKS, COINBASE_MATURITY, PAYMENT_SAT,
};

fn bytes(hex: &str) -> Vec<u8> {
    (0..hex.len())
        .step_by(2)
        .map(|i| u8::from_str_radix(&hex[i..i + 2], 16).unwrap())
        .collect()
}

fn p2wpkh(fill: &str) -> String {
    format!("160014{}", fill.repeat(20))
}

/// One input spending output 0 of txid ...01; a payment of 0.1 coin to a
/// witness key hash of 0x11 bytes and 123456789 sat to one of 0x22 bytes.
fn payment_hex() -> String {
    format!(
        "0200000001{}{}0000000000ffffffff02{}{}{}{}00000000",
        "01",
        "00".repeat(31),
        "8096980000000000",
        p2wpkh("11"),
        "15cd5b0700000000",
        p2wpkh("22"),
    )
}

/// Same input; an OP_RETURN output and then 0.1 coin to the 0x11 key hash.
fn no_change_hex() -> String {
    format!(
        "0200000001{}{}0000000000ffffffff02{}016a{}{}00000000",
        "01",
        "00".repeat(31),
        "0000000000000000",
        "8096980000000000",
        p2wpkh("11"),
    )
}

fn text(s: &str) -> Option<String> {
    Some(s.to_string())
}

fn out(value_sat: u64) -> TxOutData {
    TxOutData { value_sat, script: vec![0x51] }
}

fn sample_tx(values: &[u64]) -> TxData {
    TxData {
        inputs: vec![OutPointRef { txid: "aa".to_string(), vout: 3 }],
        outputs: values.iter().map(|v| out(*v)).collect(),
    }
}

#[test]
fn create_error_codes_classified() {
    assert_eq!(classify(WalletOp::Create, &CallError::Rpc { code: -4 }), Disposition::Ignorable);
    assert_eq!(classify(WalletOp::Create, &CallError::Rpc { code: -35 }), Disposition::Fatal);
    assert_eq!(classify(WalletOp::Create, &CallError::Transport), Disposition::Fatal);
}

#[test]
fn load_error_codes_classified() {
    assert_eq!(classify(WalletOp::Load, &CallError::Rpc { code: -35 }), Disposition::Ignorable);
    assert_eq!(classify(WalletOp::Load, &CallError::Rpc { code: -4 }), Disposition::Fatal);
    assert_eq!(classify(WalletOp::Load, &CallError::Rpc { code: -18 }), Disposition::Fatal);
    assert_eq!(classify(WalletOp::Load, &CallError::Transport), Disposition::Fatal);
}

#[test]
fn first_provision_creates_then_loads() {
    let s = ProvisionState::Creating;
    assert_eq!(pending_call(s), Some(WalletOp::Create));
    let s = provision_step(s, &Ok(()));
    assert_eq!(s, ProvisionState::Loading);
    assert_eq!(pending_call(s), Some(WalletOp::Load));
    let s = provision_step(s, &Ok(()));
    assert_eq!(s, ProvisionState::Ready);
    assert_eq!(pending_call(s), None);
}

#[test]
fn repeated_provision_succeeds() {
    let s = provision_step(ProvisionState::Creating, &Err(CallError::Rpc { code: -4 }));
    assert_eq!(s, ProvisionState::Loading);
    let s = provision_step(s, &Err(CallError::Rpc { code: -35 }));
    assert_eq!(s, ProvisionState::Ready);
}

#[test]
fn provision_fails_on_other_errors() {
    assert_eq!(
        provision_step(ProvisionState::Creating, &Err(CallError::Rpc { code: -1 })),
        ProvisionState::Failed
    );
    assert_eq!(
        provision_step(ProvisionState::Loading, &Err(CallError::Transport)),
        ProvisionState::Failed
    );
    assert_eq!(provision_step(ProvisionState::Failed, &Ok(())), ProvisionState::Failed);
    assert_eq!(pending_call(ProvisionState::Failed), None);
}

#[test]
fn maturity_counts() {
    assert_eq!(mature_rewards(BOOTSTRAP_BLOCKS, COINBASE_MATURITY), 10);
    assert_eq!(mature_rewards(100, 100), 0);
    assert_eq!(mature_rewards(101, 100), 1);
    assert_eq!(mature_rewards(5, 100), 0);
    assert!(mature_rewards(111, 100) > mature_rewards(110, 100));
}

#[test]
fn trader_and_change_search() {
    let addrs = vec![None, text("change1"), text("trader"), text("change2"), text("trader")];
    let trader = "trader".to_string();
    assert_eq!(find_trader_output(&addrs, &trader), Some(2));
    assert_eq!(find_change_output(&addrs, &trader), Some(1));
    let only = vec![None, text("trader")];
    assert_eq!(find_trader_output(&only, &trader), Some(1));
    assert_eq!(find_change_output(&only, &trader), None);
    assert_eq!(find_trader_output(&vec![], &trader), None);
}

#[test]
fn output_total_and_overflow() {
    assert_eq!(total_output_sat(&vec![out(1), out(2), out(3)]), Some(6));
    assert_eq!(total_output_sat(&vec![]), Some(0));
    assert_eq!(total_output_sat(&vec![out(u64::MAX), out(1)]), None);
    assert_eq!(total_output_sat(&vec![out(u64::MAX - 1), out(1)]), Some(u64::MAX));
}

#[test]
fn inspect_records_trader_and_change() {
    let tx = sample_tx(&[4_000, 10_000_000, 5]);
    let addrs = vec![text("chg"), text("trd"), None];
    let ins = inspect_decoded(&tx, &addrs, &"trd".to_string()).unwrap();
    assert_eq!(ins.funding.txid, "aa");
    assert_eq!(ins.funding.vout, 3);
    assert_eq!(ins.outputs_sat, 10_004_005);
    assert_eq!(ins.trader.address, "trd");
    assert_eq!(ins.trader.value_sat, 10_000_000);
    let change = ins.change.unwrap();
    assert_eq!(change.address, "chg");
    assert_eq!(change.value_sat, 4_000);
}

#[test]
fn inspect_without_change() {
    let tx = sample_tx(&[7, 10_000_000]);
    let addrs = vec![None, text("trd")];
    let ins = inspect_decoded(&tx, &addrs, &"trd".to_string()).unwrap();
    assert!(ins.change.is_none());
    assert_eq!(ins.outputs_sat, 10_000_007);
}

#[test]
fn inspect_errors() {
    let tx = sample_tx(&[1, 2]);
    let addrs = vec![text("a"), text("b")];
    assert_eq!(
        inspect_decoded(&tx, &addrs, &"trd".to_string()).err(),
        Some(FlowError::TraderOutputNotFound)
    );
    let empty = TxData { inputs: vec![], outputs: vec![out(1)] };
    assert_eq!(
        inspect_decoded(&empty, &vec![text("trd")], &"trd".to_string()).err(),
        Some(FlowError::NoInputs)
    );
    let big = sample_tx(&[u64::MAX, 1]);
    assert_eq!(
        inspect_decoded(&big, &vec![text("trd"), None], &"trd".to_string()).err(),
        Some(FlowError::AmountOverflow)
    );
}

#[test]
fn decoded_payment_is_inspected() {
    let raw = bytes(&payment_hex());
    let trader = funding_address(&raw, 0).unwrap();
    assert!(trader.starts_with("bcrt1q"));
    let ins = inspect_payment(&raw, &trader).unwrap();
    assert_eq!(ins.funding.txid, format!("{}01", "00".repeat(31)));
    assert_eq!(ins.funding.vout, 0);
    assert_eq!(ins.outputs_sat, 133_456_789);
    assert_eq!(ins.trader.address, trader);
    assert_eq!(ins.trader.value_sat, PAYMENT_SAT);
    let change = ins.change.unwrap();
    assert_ne!(change.address, trader);
    assert!(change.address.starts_with("bcrt1q"));
    assert_eq!(change.value_sat, 123_456_789);
}

#[test]
fn decoded_payment_without_change() {
    let raw = bytes(&no_change_hex());
    let trader = funding_address(&raw, 1).unwrap();
    let ins = inspect_payment(&raw, &trader).unwrap();
    assert!(ins.change.is_none());
    assert_eq!(ins.trader.value_sat, 10_000_000);
    assert_eq!(ins.outputs_sat, 10_000_000);
}

#[test]
fn decoded_payment_missing_trader() {
    let raw = bytes(&payment_hex());
    let other = bytes(&no_change_hex());
    let trader = funding_address(&raw, 1).unwrap();
    assert_eq!(inspect_payment(&other, &trader).err(), Some(FlowError::TraderOutputNotFound));
}

#[test]
fn output_addresses_of_decoded_tx() {
    let raw = bytes(&payment_hex());
    let plain = TxData {
        inputs: vec![],
        outputs: vec![
            TxOutData { value_sat: 0, script: vec![0x6a] },
            TxOutData { value_sat: 0, script: bytes(&p2wpkh("11"))[1..].to_vec() },
        ],
    };
    let addrs = output_addresses(&plain);
    assert_eq!(addrs[0], None);
    assert_eq!(addrs[1], Some(funding_address(&raw, 0).unwrap()));
}

#[test]
fn funding_address_errors() {
    assert_eq!(funding_address(&vec![0, 1, 2], 0), Err(FlowError::Undecodable));
    assert_eq!(inspect_payment(&vec![], &"x".to_string()).err(), Some(FlowError::Undecodable));
    let raw = bytes(&payment_hex());
    assert_eq!(funding_address(&raw, 2), Err(FlowError::SpentOutputMissing));
    let no_change = bytes(&no_change_hex());
    assert_eq!(funding_address(&no_change, 0), Err(FlowError::NoFundingAddress));
}

#[test]
fn regtest_addresses_validated() {
    let raw = bytes(&payment_hex());
    let a = funding_address(&raw, 0).unwrap();
    assert_eq!(require_regtest(&a), Ok(a.clone()));
    assert_eq!(
        require_regtest(&"1BoatSLRHtKNngkdXEeobR76b53LETtpyT".to_string()),
        Err(FlowError::WrongNetwork)
    );
    assert_eq!(require_regtest(&"not an address".to_string()), Err(FlowError::WrongNetwork));
}

#[test]
fn coin_amount_text() {
    assert_eq!(coin_string(10_000_000), "0.1");
    assert_eq!(coin_string(0), "0");
    assert_eq!(coin_string(100_000_000), "1");
    assert_eq!(coin_string(150_000_000), "1.5");
    assert_eq!(coin_string(1), "0.00000001");
    assert_eq!(coin_string(1410), "0.0000141");
    assert_eq!(coin_string(5_000_000_000), "50");
    assert_eq!(coin_string(4_999_998_590), "49.9999859");
    assert_eq!(decimal_string(0), "0");
    assert_eq!(decimal_string(111), "111");
    assert_eq!(decimal_string(u64::MAX), "18446744073709551615");
}

#[test]
fn fee_magnitude_values() {
    assert_eq!(fee_magnitude(Some(-1410)), 1410);
    assert_eq!(fee_magnitude(Some(1410)), 1410);
    assert_eq!(fee_magnitude(None), 0);
    assert_eq!(fee_magnitude(Some(i64::MIN)), 1u64 << 63);
}

fn inspection(change: Option<(&str, u64)>) -> Inspection {
    Inspection {
        funding: OutPointRef { txid: "prev".to_string(), vout: 0 },
        outputs_sat: 133_456_789,
        trader: PaidOutput { address: "trd".to_string(), value_sat: 10_000_000 },
        change: change.map(|(a, v)| PaidOutput { address: a.to_string(), value_sat: v }),
    }
}

#[test]
fn report_lines_in_order() {
    let rep = build_report(
        inspection(Some(("chg", 123_456_789))),
        "txid1".to_string(),
        "fund".to_string(),
        Some(-1410),
        Some(111),
        Some("hash1".to_string()),
    )
    .unwrap();
    assert_eq!(rep.input_sat, 133_456_789 + 1410);
    let lines = report_lines(&rep);
    assert_eq!(
        lines,
        vec![
            "txid1", "fund", "1.33458199", "trd", "0.1", "chg", "1.23456789", "0.0000141", "111",
            "hash1"
        ]
    );
}

#[test]
fn report_without_change() {
    let rep = build_report(
        inspection(None),
        "t".to_string(),
        "f".to_string(),
        None,
        Some(7),
        Some("h".to_string()),
    )
    .unwrap();
    let lines = report_lines(&rep);
    assert_eq!(lines[5], "None");
    assert_eq!(lines[6], "0");
    assert_eq!(lines[7], "0");
    assert_eq!(lines[2], "1.33456789");
}

#[test]
fn report_errors() {
    let mut big = inspection(None);
    big.outputs_sat = u64::MAX;
    let r = build_report(big, "t".into(), "f".into(), Some(1), Some(1), Some("h".into()));
    assert_eq!(r.err(), Some(FlowError::AmountOverflow));
    let r = build_report(inspection(None), "t".into(), "f".into(), None, None, Some("h".into()));
    assert_eq!(r.err(), Some(FlowError::MissingBlockHeight));
    let r = build_report(inspection(None), "t".into(), "f".into(), None, Some(1), None);
    assert_eq!(r.err(), Some(FlowError::MissingBlockHash));
}

#[test]
fn wallet_urls_and_defaults() {
    let c = regtest_defaults();
    assert_eq!(c.endpoint, "http://127.0.0.1:18443");
    assert_eq!(c.miner_wallet, "Miner");
    assert_eq!(c.trader_wallet, "Trader");
    assert_eq!(c.bootstrap_blocks, 110);
    assert_eq!(c.payment_sat, 10_000_000);
    assert_eq!(c.report_path, "../out.txt");
    assert_eq!(
        wallet_endpoint(&c.endpoint, &c.miner_wallet),
        "http://127.0.0.1:18443/wallet/Miner"
    );
}
