//! What is asked of the node and of the signer: the request for a gas
//! estimate, and the transaction request. Both are made from the same call
//! data, so that what is estimated is what is sent.

use vstd::prelude::*;
use crate::address::Address;
use crate::amount::Amount;
use crate::swap::{
    estimate_gas_limit,
    router_address,
    router_address_bytes,
    swap_value,
    swap_value_spec,
    ESTIMATE_GAS_LIMIT,
};

verus! {

/// A transaction request as plain values.
pub ghost struct TransactionRequestView {
    pub nonce: nat,
    pub to: Seq<u8>,
    pub value: nat,
    pub gas_price: nat,
    pub gas: nat,
    pub data: Seq<u8>,
}

/// A transaction that is ready to be signed: the sender's nonce, the
/// recipient, the value sent, the gas price and gas limit, and the call
/// data. It is made once and consumed by signing.
#[derive(Debug, PartialEq, Eq)]
pub struct TransactionRequest {
    pub nonce: Amount,
    pub to: Address,
    pub value: Amount,
    pub gas_price: Amount,
    pub gas: Amount,
    pub data: Vec<u8>,
}

impl View for TransactionRequest {
    type V = TransactionRequestView;

    open spec fn view(&self) -> TransactionRequestView {
        TransactionRequestView {
            nonce: self.nonce@,
            to: self.to@,
            value: self.value@,
            gas_price: self.gas_price@,
            gas: self.gas@,
            data: self.data@,
        }
    }
}

/// A request for a gas estimate as plain values.
pub ghost struct EstimateRequestView {
    pub from: Seq<u8>,
    pub to: Seq<u8>,
    pub gas: nat,
    pub value: nat,
    pub data: Seq<u8>,
}

/// The call whose gas the node is asked to estimate: the sender, the
/// contract called, the gas limit of the estimate, the value sent and the
/// call data.
#[derive(Debug, PartialEq, Eq)]
pub struct EstimateRequest {
    pub from: Address,
    pub to: Address,
    pub gas: Amount,
    pub value: Amount,
    pub data: Vec<u8>,
}

impl View for EstimateRequest {
    type V = EstimateRequestView;

    open spec fn view(&self) -> EstimateRequestView {
        EstimateRequestView {
            from: self.from@,
            to: self.to@,
            gas: self.gas@,
            value: self.value@,
            data: self.data@,
        }
    }
}

/// What `estimate_request` assembles.
pub open spec fn estimate_request_view(from: Seq<u8>, data: Seq<u8>) -> EstimateRequestView {
    EstimateRequestView {
        from,
        to: router_address_bytes(),
        gas: ESTIMATE_GAS_LIMIT as nat,
        value: swap_value_spec(),
        data,
    }
}

/// What `swap_transaction` assembles.
pub open spec fn swap_transaction_view(nonce: nat, gas_price: nat, gas: nat, data: Seq<u8>)
    -> TransactionRequestView {
    TransactionRequestView {
        nonce,
        to: router_address_bytes(),
        value: swap_value_spec(),
        gas_price,
        gas,
        data,
    }
}

/// The transaction of the swap: to the router, with the swap's value, and
/// with the nonce, gas price, gas limit and call data exactly as given.
pub fn swap_transaction(nonce: Amount, gas_price: Amount, gas: Amount, data: Vec<u8>) -> (r:
    TransactionRequest)
    ensures
        r@ == swap_transaction_view(nonce@, gas_price@, gas@, data@),
{
    TransactionRequest { nonce, to: router_address(), value: swap_value(), gas_price, gas, data }
}

/// The request for the gas estimate of the swap: from the sender to the
/// router, with the swap's value, under the gas limit of the estimate, and
/// with the call data exactly as given.
pub fn estimate_request(from: Address, data: &Vec<u8>) -> (r: EstimateRequest)
    ensures
        r@ == estimate_request_view(from@, data@),
{
    EstimateRequest {
        from,
        to: router_address(),
        gas: estimate_gas_limit(),
        value: swap_value(),
        data: data.clone(),
    }
}

/// The gas estimate and the transaction speak of one call: whatever the
/// sender, nonce, gas price and gas limit, requests made from the same call
/// data go to the same contract, send the same value and carry the same call
/// data.
pub proof fn lemma_estimate_matches_transaction(
    from: Seq<u8>,
    nonce: nat,
    gas_price: nat,
    gas: nat,
    data: Seq<u8>,
)
    ensures
        estimate_request_view(from, data).to == swap_transaction_view(
            nonce,
            gas_price,
            gas,
            data,
        ).to,
        estimate_request_view(from, data).value == swap_transaction_view(
            nonce,
            gas_price,
            gas,
            data,
        ).value,
        estimate_request_view(from, data).data == swap_transaction_view(
            nonce,
            gas_price,
            gas,
            data,
        ).data,
{
}

} // verus!
