use vstd::prelude::*;

verus! {

/// The contract's configuration: the code hash and the canonical address of the random
/// number contract.
#[derive(Clone, Debug, PartialEq)]
pub struct State {
    pub rng_hash: String,
    pub rng_addr: Vec<u8>,
}

/// A viewing key issued by the random number contract.
#[derive(Clone, Debug, PartialEq)]
pub struct ViewingKey(pub String);

/// The viewing keys received from the random number contract.
#[derive(Clone, Debug, PartialEq)]
pub struct VkStore {
    pub vks: Vec<ViewingKey>,
}

} // verus!
