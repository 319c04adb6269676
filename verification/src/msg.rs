use vstd::prelude::*;

use crate::state::ViewingKey;

verus! {

/// Outgoing messages are padded with spaces to a multiple of this many bytes, so that their
/// length says little about their content.
pub const BLOCK_SIZE: usize = 256;

// ---------------------------------------------------------------------------------------------
// Init
// ---------------------------------------------------------------------------------------------

/// Instantiation message: the code hash and the address of the random number contract.
#[derive(Clone, Debug, PartialEq)]
pub struct InitMsg {
    pub rng_hash: String,
    pub rng_addr: String,
}

// ---------------------------------------------------------------------------------------------
// Handles
// ---------------------------------------------------------------------------------------------

/// The messages that the contract handles. Byte payloads (`cb_msg`) are raw bytes.
#[derive(Clone, Debug, PartialEq)]
pub enum HandleMsg {
    /// Ask the random number contract for a number, to be sent back to this contract.
    CallRn { entropy: String, cb_msg: Vec<u8>, rng_hash: String, rng_addr: String },
    /// A random number sent back by the random number contract.
    ReceiveRn { rn: [u8; 32], cb_msg: Vec<u8> },
    /// A random number fulfilled by the random number contract for a created request.
    ReceiveFRn { rn: [u8; 32], cb_msg: Vec<u8>, purpose: Option<String> },
    /// Ask the random number contract to create a random number to be fulfilled later.
    TriggerCreateRn {
        entropy: String,
        cb_msg: Vec<u8>,
        receiver_code_hash: String,
        receiver_addr: Option<String>,
        purpose: Option<String>,
        max_blk_delay: Option<u64>,
        rng_hash: String,
        rng_addr: String,
    },
    /// Ask the random number contract to fulfill a created random number.
    TriggerFulfillRn {
        creator_addr: String,
        receiver_code_hash: String,
        purpose: Option<String>,
        rng_hash: String,
        rng_addr: String,
    },
    /// Ask the random number contract for a viewing key.
    TriggerGenerateVk { receiver_code_hash: String, rng_hash: String, rng_addr: String },
    /// A viewing key sent back by the random number contract.
    ReceiveViewingKey { key: ViewingKey },
    /// Query the random number contract with a viewing key.
    TriggerQueryRn { entropy: String, optionalvk: Option<String> },
}

// ---------------------------------------------------------------------------------------------
// Messages for other contracts
// ---------------------------------------------------------------------------------------------

/// Handle message of the random number contract: produce a number and call back `contract_addr`.
#[derive(Clone, Debug, PartialEq)]
pub enum CallbackRnMsg {
    CallbackRn { entropy: String, cb_msg: Vec<u8>, callback_code_hash: String, contract_addr: String },
}

/// Handle message of the random number contract: create a number to be fulfilled later.
#[derive(Clone, Debug, PartialEq)]
pub enum CreateRnMsg {
    CreateRn {
        entropy: String,
        cb_msg: Vec<u8>,
        receiver_code_hash: String,
        receiver_addr: Option<String>,
        purpose: Option<String>,
        max_blk_delay: Option<u64>,
    },
}

/// Handle message of the random number contract: fulfill a created number.
#[derive(Clone, Debug, PartialEq)]
pub enum FulfillRnMsg {
    FulfillRn { creator_addr: String, receiver_code_hash: String, purpose: Option<String> },
}

/// Handle message of the random number contract: generate a viewing key.
#[derive(Clone, Debug, PartialEq)]
pub enum GenerateViewingKeyMsg {
    GenerateViewingKey { entropy: String, receiver_code_hash: String, padding: Option<String> },
}

/// Query message of the random number contract.
#[derive(Clone, Debug, PartialEq)]
pub enum QueryRnMsg {
    QueryRn { entropy: String, addr: String, vk: String },
}

/// Answer of the random number contract to a `QueryRnMsg`.
#[derive(Clone, Debug, PartialEq)]
pub struct QueryAnswerMsg {
    pub rn_output: RnOutput,
}

/// A random number.
#[derive(Clone, Debug, PartialEq)]
pub struct RnOutput {
    pub rn: [u8; 32],
}

// ---------------------------------------------------------------------------------------------
// Queries
// ---------------------------------------------------------------------------------------------

/// The queries that the contract answers.
#[derive(Clone, Debug, PartialEq)]
pub enum QueryMsg {
    GetRngAddr {},
}

/// Answer to `QueryMsg::GetRngAddr`: the (human) address of the random number contract.
#[derive(Clone, Debug, PartialEq)]
pub struct QueryResponse {
    pub rng_addr: String,
}

} // verus!
