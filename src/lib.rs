//! Decision and bookkeeping logic for a regtest wallet walkthrough: provisioning
//! two wallets, maturing coinbase rewards, paying from one wallet to the other,
//! and reporting the inputs, outputs, fee and block of the payment.

pub mod chain;
pub mod config;
pub mod inspect;
pub mod laws;
pub mod maturity;
pub mod provision;
pub mod report;

pub use chain::{OutPointRef, TxData, TxOutData};
pub use config::{regtest_defaults, wallet_endpoint, FlowConfig, PAYMENT_SAT};
pub use inspect::{
    find_change_output, find_trader_output, funding_address, inspect_decoded, inspect_payment,
    output_addresses, require_regtest, total_output_sat, FlowError, Inspection, PaidOutput,
};
pub use laws::{
    lemma_change_optional, lemma_conservation, lemma_missing_trader_output_fatal,
    lemma_report_fidelity, lemma_single_trader_output, lemma_tenth_coin_text,
};
pub use maturity::{lemma_maturity_arithmetic, mature_rewards, BOOTSTRAP_BLOCKS, COINBASE_MATURITY};
pub use provision::{
    classify, lemma_failure_needs_fatal_reply, lemma_repeat_provision_succeeds, pending_call,
    provision_step, CallError, Disposition, ProvisionState, WalletOp, WALLET_EXISTS_CODE,
    WALLET_LOADED_CODE,
};
pub use report::{
    build_report, coin_string, decimal_string, fee_magnitude, report_lines, Report, SAT_PER_COIN,
};
