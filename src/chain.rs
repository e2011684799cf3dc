use vstd::prelude::*;
use bitcoincore_rpc::bitcoin::address::NetworkUnchecked;
use bitcoincore_rpc::bitcoin::consensus::deserialize;
use bitcoincore_rpc::bitcoin::{Address, Network, Script, Transaction};

verus! {

/// A reference to an earlier transaction's output: its txid (in the node's hex
/// notation) and the output's index.
pub struct OutPointRef {
    pub txid: String,
    pub vout: u32,
}

/// One transaction output: its value in satoshi and its locking script.
pub struct TxOutData {
    pub value_sat: u64,
    pub script: Vec<u8>,
}

/// A decoded transaction: the outputs its inputs spend, and its outputs, in order.
pub struct TxData {
    pub inputs: Vec<OutPointRef>,
    pub outputs: Vec<TxOutData>,
}

/// Mathematical form of an output: value and script.
pub type OutputModel = (u64, Seq<u8>);

/// Mathematical form of a transaction: spent outpoints and outputs.
pub type TxModel = (Seq<(Seq<char>, u32)>, Seq<OutputModel>);

impl View for OutPointRef {
    type V = (Seq<char>, u32);

    open spec fn view(&self) -> (Seq<char>, u32) {
        (self.txid@, self.vout)
    }
}

impl View for TxOutData {
    type V = OutputModel;

    open spec fn view(&self) -> OutputModel {
        (self.value_sat, self.script@)
    }
}

impl View for TxData {
    type V = TxModel;

    open spec fn view(&self) -> TxModel {
        (self.inputs@.map_values(|i: OutPointRef| i@), self.outputs@.map_values(|o: TxOutData| o@))
    }
}

/// The transaction that the consensus wire format `raw` encodes, if it is one.
pub uninterp spec fn decoded_transaction(raw: Seq<u8>) -> Option<TxModel>;

/// The regtest address, in its text form, that pays to `script`, if the script
/// has a standard address form.
pub uninterp spec fn script_address(script: Seq<u8>) -> Option<Seq<char>>;

/// The canonical text of `text` read as an address, if it parses and is valid
/// on regtest.
pub uninterp spec fn regtest_address(text: Seq<char>) -> Option<Seq<char>>;

/// The text form of an optional string.
pub open spec fn opt_text(s: Option<String>) -> Option<Seq<char>> {
    match s {
        Some(t) => Some(t@),
        None => None,
    }
}

/// Relies on bitcoin::consensus::deserialize for `Transaction`: decodes the
/// whole of `raw` (it fails when bytes are left over), a function of the bytes.
#[verifier::external_body]
pub(crate) fn decode_transaction(raw: &[u8]) -> (r: Option<TxData>)
    ensures
        match r {
            Some(t) => decoded_transaction(raw@) == Some(t@),
            None => decoded_transaction(raw@) is None,
        },
{
    let t: Transaction = deserialize(raw).ok()?;
    let inputs = t.input.iter().map(|i| OutPointRef {
        txid: i.previous_output.txid.to_string(),
        vout: i.previous_output.vout,
    }).collect();
    let outputs = t.output.iter().map(|o| TxOutData {
        value_sat: o.value.to_sat(),
        script: o.script_pubkey.to_bytes(),
    }).collect();
    Some(TxData { inputs, outputs })
}

/// Relies on bitcoin's Address::from_script on regtest and the address's
/// Display: the text of the address a script pays to, a function of the script.
#[verifier::external_body]
pub(crate) fn address_of_script(script: &[u8]) -> (r: Option<String>)
    ensures
        opt_text(r) == script_address(script@),
{
    Address::from_script(Script::from_bytes(script), Network::Regtest).ok().map(|a| a.to_string())
}

/// Relies on bitcoin's `FromStr` for `Address<NetworkUnchecked>`, then
/// `require_network(Network::Regtest)` and the address's Display: the canonical
/// text of a regtest address, a function of the given text.
#[verifier::external_body]
pub(crate) fn parse_regtest_address(text: &str) -> (r: Option<String>)
    ensures
        opt_text(r) == regtest_address(text@),
{
    let unchecked: Address<NetworkUnchecked> = text.parse().ok()?;
    unchecked.require_network(Network::Regtest).ok().map(|a| a.to_string())
}

} // verus!
