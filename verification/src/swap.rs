//! The swap call: its parameters, the constants of the swap that is made,
//! and the call data that the router contract takes.

use vstd::prelude::*;
use web3::contract::tokens::Tokenize;
use web3::ethabi::{Contract, Function};
use web3::types::{H160, U256};
use crate::address::Address;
use crate::amount::{one_unit, u256_checked_div, unit_divisor, Amount};
use crate::error::SwapError;

verus! {

/// The least amount of the output token that the swap accepts.
pub const AMOUNT_OUT_MIN: u64 = 106_662_000_000;

/// The gas limit under which the node estimates the swap.
pub const ESTIMATE_GAS_LIMIT: u64 = 500_000;

/// The swap sends one whole unit divided by this.
pub const VALUE_DIVISOR: u64 = 20;

/// The longest path that a call can hold: the encoder counts the bytes of a
/// call in 32 bits.
pub const MAX_PATH_LEN: usize = 134_217_722;

/// `ethabi::Contract`: a parsed interface definition, carried as an opaque
/// value.
#[verifier::external_type_specification]
#[verifier::external_body]
pub struct ExContract(Contract);

/// `ethabi::Function`: the declaration of one function of an interface
/// definition, carried as an opaque value.
#[verifier::external_type_specification]
#[verifier::external_body]
pub struct ExFunction(Function);

/// `ethabi::Error`: why a lookup or an encoding failed. Nothing is read from
/// it.
#[verifier::external_type_specification]
#[verifier::external_body]
pub struct ExAbiError(web3::ethabi::Error);

/// The parameters of a swap call as plain values.
pub ghost struct SwapCallView {
    pub amount_out_min: nat,
    pub path: Seq<Seq<u8>>,
    pub recipient: Seq<u8>,
    pub deadline: nat,
}

/// The function that an interface definition holds under a name: the first
/// where it holds several, nothing where it holds none.
pub uninterp spec fn abi_function(abi: Contract, name: Seq<char>) -> Option<Function>;

/// The call data that a function of an interface definition takes for the
/// parameters of a swap, or nothing where its declared inputs are not an
/// unsigned integer, a list of addresses, an address and an unsigned integer.
pub uninterp spec fn input_encoding(function: Function, call: SwapCallView) -> Option<Seq<u8>>;

/// The views of the addresses of a path, in order.
pub open spec fn path_view(path: Seq<Address>) -> Seq<Seq<u8>> {
    path.map_values(|a: Address| a@)
}

/// The call data of the swap against an interface definition: the encoding
/// under the function that the definition holds under the swap's name.
pub open spec fn swap_call_data(abi: Contract, call: SwapCallView) -> Option<Seq<u8>> {
    match abi_function(abi, swap_function_name()@) {
        Some(function) => input_encoding(function, call),
        None => None,
    }
}

/// The name of the router's function that swaps the native currency for a
/// token.
#[verifier::when_used_as_spec(spec_swap_function_name)]
pub fn swap_function_name() -> (r: &'static str)
    ensures
        r == spec_swap_function_name(),
{
    "swapExactETHForTokens"
}

/// The name of the swap function, for contracts.
pub open spec fn spec_swap_function_name() -> &'static str {
    "swapExactETHForTokens"
}

/// The parameters of a swap call: the least output accepted, the path of
/// token addresses from input to output, the recipient, and the deadline.
/// A path names at least two tokens and at most `MAX_PATH_LEN`.
#[derive(Debug, PartialEq, Eq)]
pub struct SwapCall {
    amount_out_min: Amount,
    path: Vec<Address>,
    recipient: Address,
    deadline: Amount,
}

impl View for SwapCall {
    type V = SwapCallView;

    closed spec fn view(&self) -> SwapCallView {
        SwapCallView {
            amount_out_min: self.amount_out_min@,
            path: path_view(self.path@),
            recipient: self.recipient@,
            deadline: self.deadline@,
        }
    }
}

/// `ethabi::Contract::function`: the first function that the interface
/// definition holds under the name, or an error where it holds none. The
/// outcome depends on the definition and the name alone.
#[verifier::external_body]
fn contract_function<'a>(abi: &'a Contract, name: &str) -> (r: Result<
    &'a Function,
    web3::ethabi::Error,
>)
    ensures
        match r {
            Ok(function) => abi_function(*abi, name@) == Some(*function),
            Err(_) => abi_function(*abi, name@) is None,
        },
{
    abi.function(name)
}

/// `ethabi::Function::encode_input`, on the four parameters of a swap as
/// `Tokenize::into_tokens` makes tokens of them: the call data, or an error
/// where the tokens do not match the inputs that the function declares. The
/// outcome depends on the function and the parameters alone. The outside
/// encoder adds up byte counts in 32 bits, which a longer path would exceed.
#[verifier::external_body]
fn function_encode_input(function: &Function, call: &SwapCall) -> (r: Result<
    Vec<u8>,
    web3::ethabi::Error,
>)
    requires
        call@.path.len() <= MAX_PATH_LEN,
    ensures
        match r {
            Ok(data) => input_encoding(*function, call@) == Some(data@),
            Err(_) => input_encoding(*function, call@) is None,
        },
{
    let path: Vec<H160> = call.path.iter().map(|a| H160(a.to_bytes())).collect();
    let tokens = (
        U256(call.amount_out_min.to_words()),
        path,
        H160(call.recipient.to_bytes()),
        U256(call.deadline.to_words()),
    ).into_tokens();
    function.encode_input(&tokens)
}

impl SwapCall {
    #[verifier::type_invariant]
    spec fn well_formed(self) -> bool {
        2 <= self.path@.len() <= MAX_PATH_LEN
    }

    /// The parameters of a swap along `path`. A path of fewer than two
    /// tokens, or of more than `MAX_PATH_LEN`, is refused.
    pub fn new(amount_out_min: Amount, path: Vec<Address>, recipient: Address, deadline: Amount) -> (r:
        Result<SwapCall, SwapError>)
        ensures
            match r {
                Ok(call) => 2 <= path@.len() <= MAX_PATH_LEN && call@ == (SwapCallView {
                    amount_out_min: amount_out_min@,
                    path: path_view(path@),
                    recipient: recipient@,
                    deadline: deadline@,
                }),
                Err(e) => if path@.len() < 2 {
                    e == SwapError::PathTooShort
                } else {
                    path@.len() > MAX_PATH_LEN && e == SwapError::PathTooLong
                },
            },
    {
        if path.len() < 2 {
            Err(SwapError::PathTooShort)
        } else if path.len() > MAX_PATH_LEN {
            Err(SwapError::PathTooLong)
        } else {
            Ok(SwapCall { amount_out_min, path, recipient, deadline })
        }
    }

    /// The least amount of the output token that the swap accepts.
    pub fn amount_out_min(&self) -> (r: Amount)
        ensures
            r@ == self@.amount_out_min,
    {
        self.amount_out_min
    }

    /// The token addresses of the path, the input token first.
    pub fn path(&self) -> (r: &Vec<Address>)
        ensures
            path_view(r@) == self@.path,
            2 <= r@.len() <= MAX_PATH_LEN,
    {
        proof {
            use_type_invariant(self);
        }
        &self.path
    }

    /// The address that receives the output token.
    pub fn recipient(&self) -> (r: Address)
        ensures
            r@ == self@.recipient,
    {
        self.recipient
    }

    /// The time after which the router refuses the swap.
    pub fn deadline(&self) -> (r: Amount)
        ensures
            r@ == self@.deadline,
    {
        self.deadline
    }
}

/// The bytes of the router contract's address.
pub open spec fn router_address_bytes() -> Seq<u8> {
    seq![
        0x7au8, 0x25, 0x0d, 0x56, 0x30, 0xb4, 0xcf, 0x53, 0x97, 0x39,
        0xdf, 0x2c, 0x5d, 0xac, 0xb4, 0xc6, 0x59, 0xf2, 0x48, 0x8d,
    ]
}

/// The bytes of the address of the token that the swap buys.
pub open spec fn output_token_bytes() -> Seq<u8> {
    seq![
        0xc7u8, 0xad, 0x46, 0xe0, 0xb8, 0xa4, 0x00, 0xbb, 0x3c, 0x91,
        0x51, 0x20, 0xd2, 0x84, 0xaa, 0xfb, 0xa8, 0xfc, 0x47, 0x35,
    ]
}

/// The address of the router contract.
pub fn router_address() -> (r: Address)
    ensures
        r@ == router_address_bytes(),
{
    let r = Address::from_bytes(
        [
            0x7a, 0x25, 0x0d, 0x56, 0x30, 0xb4, 0xcf, 0x53, 0x97, 0x39,
            0xdf, 0x2c, 0x5d, 0xac, 0xb4, 0xc6, 0x59, 0xf2, 0x48, 0x8d,
        ],
    );
    assert(r@ =~= router_address_bytes());
    r
}

/// The address of the token that the swap buys.
pub fn output_token_address() -> (r: Address)
    ensures
        r@ == output_token_bytes(),
{
    let r = Address::from_bytes(
        [
            0xc7, 0xad, 0x46, 0xe0, 0xb8, 0xa4, 0x00, 0xbb, 0x3c, 0x91,
            0x51, 0x20, 0xd2, 0x84, 0xaa, 0xfb, 0xa8, 0xfc, 0x47, 0x35,
        ],
    );
    assert(r@ =~= output_token_bytes());
    r
}

/// The value that the swap sends, in the smallest unit: one whole unit
/// divided by `VALUE_DIVISOR`, which is 50 000 000 000 000 000.
pub open spec fn swap_value_spec() -> nat {
    unit_divisor() / (VALUE_DIVISOR as nat)
}

/// The value that the swap sends: a twentieth of one whole unit.
pub fn swap_value() -> (r: Amount)
    ensures
        r@ == swap_value_spec(),
        r@ == 50_000_000_000_000_000nat,
{
    match u256_checked_div(one_unit(), Amount::from_u64(VALUE_DIVISOR)) {
        Some(value) => value,
        None => {
            assert(false);
            vstd::pervasive::unreached()
        },
    }
}

/// The gas limit under which the node estimates the swap, as an amount.
pub fn estimate_gas_limit() -> (r: Amount)
    ensures
        r@ == ESTIMATE_GAS_LIMIT,
{
    Amount::from_u64(ESTIMATE_GAS_LIMIT)
}

/// The parameters of the swap that is made: the least output
/// `AMOUNT_OUT_MIN`, the path from the wrapped native token to the output
/// token, and the given recipient and deadline. The same parameters serve the
/// gas estimate and the call data.
pub fn swap_call_for(wrapped_native: Address, recipient: Address, deadline_millis: u128) -> (r:
    SwapCall)
    ensures
        r@ == (SwapCallView {
            amount_out_min: AMOUNT_OUT_MIN as nat,
            path: seq![wrapped_native@, output_token_bytes()],
            recipient: recipient@,
            deadline: deadline_millis as nat,
        }),
{
    let mut path: Vec<Address> = Vec::new();
    path.push(wrapped_native);
    path.push(output_token_address());
    assert(path_view(path@) =~= seq![wrapped_native@, output_token_bytes()]);
    let call = SwapCall::new(
        Amount::from_u64(AMOUNT_OUT_MIN),
        path,
        recipient,
        Amount::from_u128(deadline_millis),
    );
    match call {
        Ok(call) => call,
        Err(_) => {
            assert(false);
            vstd::pervasive::unreached()
        },
    }
}

/// The call data of a swap under one function of an interface definition:
/// `Ok` exactly where the function's declared inputs take the parameters.
pub fn encode_swap_input(function: &Function, call: &SwapCall) -> (r: Result<Vec<u8>, SwapError>)
    ensures
        match r {
            Ok(data) => input_encoding(*function, call@) == Some(data@),
            Err(e) => e == SwapError::Encoding && input_encoding(*function, call@) is None,
        },
{
    proof {
        use_type_invariant(call);
    }
    match function_encode_input(function, call) {
        Ok(data) => Ok(data),
        Err(_) => Err(SwapError::Encoding),
    }
}

/// The call data of a swap against an interface definition: `Ok` exactly
/// where the definition holds the swap function and its declared inputs take
/// the parameters.
pub fn encode_swap_call(abi: &Contract, call: &SwapCall) -> (r: Result<Vec<u8>, SwapError>)
    ensures
        match r {
            Ok(data) => swap_call_data(*abi, call@) == Some(data@),
            Err(e) => e == SwapError::Encoding && swap_call_data(*abi, call@) is None,
        },
{
    match contract_function(abi, swap_function_name()) {
        Ok(function) => encode_swap_input(function, call),
        Err(_) => Err(SwapError::Encoding),
    }
}

/// Encoding is deterministic: against one interface definition, two calls
/// with the same least output, path, recipient and deadline have the same
/// call data, byte for byte, and one fails to encode exactly where the other
/// does.
pub proof fn lemma_encoding_deterministic(abi: Contract, first: SwapCall, second: SwapCall)
    requires
        first@.amount_out_min == second@.amount_out_min,
        first@.path == second@.path,
        first@.recipient == second@.recipient,
        first@.deadline == second@.deadline,
    ensures
        swap_call_data(abi, first@) == swap_call_data(abi, second@),
{
}

} // verus!
