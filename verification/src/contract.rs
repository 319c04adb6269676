use vstd::prelude::*;

use secret_cosmwasm_std::StdError;
use vstd::utf8::{decode_utf8, decode_utf8_encode_utf8, encode_utf8, valid_utf8};

use crate::msg::{HandleMsg, InitMsg, QueryMsg, QueryResponse, BLOCK_SIZE};
use crate::state::State;
use crate::trusted::{
    debug_bytes, debug_optional_text, debug_text_of_bytes, debug_text_of_optional_text,
    optional_text, space_pad, space_padded, text_from_utf8,
};

pub use crate::msg::{CallbackRnMsg, CreateRnMsg, FulfillRnMsg};

verus! {

/// The fee, in uscrt, attached to a request for a random number.
pub const CALLBACK_FEE: u128 = 100_000;

/// What the contract reads of its environment.
#[derive(Clone, Debug, PartialEq)]
pub struct ContractEnv {
    /// The (human) address of this contract.
    pub contract_address: String,
    /// The code hash of this contract.
    pub contract_code_hash: String,
}

/// Why a message is refused.
#[derive(Debug, PartialEq)]
pub enum ContractError {
    /// An error of the chain's storage or address API, passed on unchanged.
    Std(StdError),
    /// A random number arrived from an address other than the configured random number contract.
    SenderNotApproved,
    /// The message has no handler.
    UnsupportedMessage,
}

/// A message for the random number contract.
#[derive(Clone, Debug, PartialEq)]
pub enum OutgoingMsg {
    CallbackRn(CallbackRnMsg),
    CreateRn(CreateRnMsg),
    FulfillRn(FulfillRnMsg),
}

/// A call of another contract's handle function, before its message is serialized.
#[derive(Clone, Debug, PartialEq)]
pub struct OutgoingCall {
    pub msg: OutgoingMsg,
    pub callback_code_hash: String,
    pub contract_addr: String,
    /// An amount of uscrt sent along, if any.
    pub send_amount: Option<u128>,
}

/// One (encrypted) log attribute.
#[derive(Clone, Debug, PartialEq)]
pub struct LogEntry {
    pub key: String,
    pub value: String,
}

/// The result of handling a message: the calls to make, the log, and the data returned.
#[derive(Clone, Debug, PartialEq)]
pub struct HandleOutcome {
    pub messages: Vec<OutgoingCall>,
    pub log: Vec<LogEntry>,
    pub data: Option<Vec<u8>>,
}

/// An amount of a native coin.
#[derive(Clone, Debug, PartialEq)]
pub struct Coin {
    pub denom: String,
    pub amount: u128,
}

/// A call of another contract's handle function, with its message serialized and padded.
#[derive(Clone, Debug, PartialEq)]
pub struct WasmExecute {
    pub contract_addr: String,
    pub callback_code_hash: String,
    pub msg: Vec<u8>,
    pub send: Vec<Coin>,
}

// ---------------------------------------------------------------------------------------------
// What the handlers produce
// ---------------------------------------------------------------------------------------------

/// The outcome makes exactly the one call `call`, with no log and no data.
pub open spec fn sends_only(out: HandleOutcome, call: OutgoingCall) -> bool {
    &&& out.messages@ == seq![call]
    &&& out.log@.len() == 0
    &&& out.data is None
}

/// The outcome makes no call, returns no data, and logs exactly `entries` (key, value), in order.
pub open spec fn logs_only(out: HandleOutcome, entries: Seq<(Seq<char>, Seq<char>)>) -> bool {
    &&& out.messages@.len() == 0
    &&& out.log@.len() == entries.len()
    &&& forall|i: int|
        0 <= i < entries.len() ==> (#[trigger] out.log@[i]).key@ == entries[i].0
            && out.log@[i].value@ == entries[i].1
    &&& out.data is None
}

/// The request for a random number that `CallRn` makes: the number is to be sent back to
/// this contract, and the request carries the callback fee.
pub open spec fn call_rn_call(
    env: ContractEnv,
    entropy: String,
    cb_msg: Vec<u8>,
    rng_hash: String,
    rng_addr: String,
) -> OutgoingCall {
    OutgoingCall {
        msg: OutgoingMsg::CallbackRn(
            CallbackRnMsg::CallbackRn {
                entropy: entropy,
                cb_msg: cb_msg,
                callback_code_hash: env.contract_code_hash,
                contract_addr: env.contract_address,
            },
        ),
        callback_code_hash: rng_hash,
        contract_addr: rng_addr,
        send_amount: Some(CALLBACK_FEE),
    }
}

/// The request that `TriggerCreateRn` makes: its fields are forwarded unchanged, with no fee.
pub open spec fn create_rn_call(
    entropy: String,
    cb_msg: Vec<u8>,
    receiver_code_hash: String,
    receiver_addr: Option<String>,
    purpose: Option<String>,
    max_blk_delay: Option<u64>,
    rng_hash: String,
    rng_addr: String,
) -> OutgoingCall {
    OutgoingCall {
        msg: OutgoingMsg::CreateRn(
            CreateRnMsg::CreateRn {
                entropy: entropy,
                cb_msg: cb_msg,
                receiver_code_hash: receiver_code_hash,
                receiver_addr: receiver_addr,
                purpose: purpose,
                max_blk_delay: max_blk_delay,
            },
        ),
        callback_code_hash: rng_hash,
        contract_addr: rng_addr,
        send_amount: None,
    }
}

/// The request that `TriggerFulfillRn` makes: its fields are forwarded unchanged, with no fee.
pub open spec fn fulfill_rn_call(
    creator_addr: String,
    receiver_code_hash: String,
    purpose: Option<String>,
    rng_hash: String,
    rng_addr: String,
) -> OutgoingCall {
    OutgoingCall {
        msg: OutgoingMsg::FulfillRn(
            FulfillRnMsg::FulfillRn {
                creator_addr: creator_addr,
                receiver_code_hash: receiver_code_hash,
                purpose: purpose,
            },
        ),
        callback_code_hash: rng_hash,
        contract_addr: rng_addr,
        send_amount: None,
    }
}

/// The log of a received random number: the number's debug text and the callback message.
pub open spec fn receive_rn_log(rn: Seq<u8>, cb_msg: Seq<u8>) -> Seq<(Seq<char>, Seq<char>)> {
    seq![("rn"@, debug_text_of_bytes(rn)), ("cb_msg"@, decode_utf8(cb_msg))]
}

/// The log of a fulfilled random number: the number, the callback message and the purpose.
pub open spec fn receive_fulfill_rn_log(
    rn: Seq<u8>,
    cb_msg: Seq<u8>,
    purpose: Option<String>,
) -> Seq<(Seq<char>, Seq<char>)> {
    seq![
        ("rn"@, debug_text_of_bytes(rn)),
        ("cb_msg"@, decode_utf8(cb_msg)),
        ("purpose"@, debug_text_of_optional_text(optional_text(purpose))),
    ]
}

/// The configured random number contract is `sender`.
pub open spec fn approves(config: State, sender: Seq<u8>) -> bool {
    sender == config.rng_addr@
}

/// Where receiving a random number reaches the decoding of its callback message (the
/// configuration loaded, the sender known and approved), that message is UTF-8.
pub open spec fn receive_rn_defined(
    config: Result<State, StdError>,
    sender: Result<Vec<u8>, StdError>,
    cb_msg: Seq<u8>,
) -> bool {
    (config matches Ok(c) && sender matches Ok(s) && approves(c, s@)) ==> valid_utf8(cb_msg)
}

/// What receiving a random number returns: the configuration's error, else the sender's
/// error, else a refusal of an unapproved sender, else the log of the number.
pub open spec fn receive_rn_result(
    config: Result<State, StdError>,
    sender: Result<Vec<u8>, StdError>,
    rn: Seq<u8>,
    cb_msg: Seq<u8>,
    r: Result<HandleOutcome, ContractError>,
) -> bool {
    match config {
        Err(e) => r == Err::<HandleOutcome, ContractError>(ContractError::Std(e)),
        Ok(c) => match sender {
            Err(e) => r == Err::<HandleOutcome, ContractError>(ContractError::Std(e)),
            Ok(s) => if approves(c, s@) {
                r matches Ok(out) && logs_only(out, receive_rn_log(rn, cb_msg))
            } else {
                r == Err::<HandleOutcome, ContractError>(ContractError::SenderNotApproved)
            },
        },
    }
}

/// The inputs on which handling `msg` is defined: a callback message that is decoded is UTF-8.
pub open spec fn handle_defined(
    msg: HandleMsg,
    config: Result<State, StdError>,
    sender: Result<Vec<u8>, StdError>,
) -> bool {
    match msg {
        HandleMsg::ReceiveRn { rn, cb_msg } => receive_rn_defined(config, sender, cb_msg@),
        HandleMsg::ReceiveFRn { rn, cb_msg, purpose } => valid_utf8(cb_msg@),
        _ => true,
    }
}

/// What handling `msg` returns, message by message.
pub open spec fn handle_result(
    env: ContractEnv,
    msg: HandleMsg,
    config: Result<State, StdError>,
    sender: Result<Vec<u8>, StdError>,
    r: Result<HandleOutcome, ContractError>,
) -> bool {
    match msg {
        HandleMsg::CallRn { entropy, cb_msg, rng_hash, rng_addr } => r matches Ok(out)
            && sends_only(out, call_rn_call(env, entropy, cb_msg, rng_hash, rng_addr)),
        HandleMsg::ReceiveRn { rn, cb_msg } => receive_rn_result(config, sender, rn@, cb_msg@, r),
        HandleMsg::ReceiveFRn { rn, cb_msg, purpose } => r matches Ok(out) && logs_only(
            out,
            receive_fulfill_rn_log(rn@, cb_msg@, purpose),
        ),
        HandleMsg::TriggerCreateRn {
            entropy,
            cb_msg,
            receiver_code_hash,
            receiver_addr,
            purpose,
            max_blk_delay,
            rng_hash,
            rng_addr,
        } => r matches Ok(out) && sends_only(
            out,
            create_rn_call(
                entropy,
                cb_msg,
                receiver_code_hash,
                receiver_addr,
                purpose,
                max_blk_delay,
                rng_hash,
                rng_addr,
            ),
        ),
        HandleMsg::TriggerFulfillRn {
            creator_addr,
            receiver_code_hash,
            purpose,
            rng_hash,
            rng_addr,
        } => r matches Ok(out) && sends_only(
            out,
            fulfill_rn_call(creator_addr, receiver_code_hash, purpose, rng_hash, rng_addr),
        ),
        _ => r == Err::<HandleOutcome, ContractError>(ContractError::UnsupportedMessage),
    }
}

/// The coins sent along with a call: `amount` uscrt if there is an amount, else none.
pub open spec fn sends_amount(send: Seq<Coin>, amount: Option<u128>) -> bool {
    match amount {
        Some(a) => send.len() == 1 && send[0].denom@ == "uscrt"@ && send[0].amount == a,
        None => send.len() == 0,
    }
}

// ---------------------------------------------------------------------------------------------
// Init
// ---------------------------------------------------------------------------------------------

/// The configuration stored at instantiation: the random number contract's code hash, and its
/// address in canonical form (`rng_addr`, as the chain's address API gave it, or its error).
pub fn init(msg: InitMsg, rng_addr: Result<Vec<u8>, StdError>) -> (r: Result<State, ContractError>)
    ensures
        match rng_addr {
            Ok(a) => r == Ok::<State, ContractError>(State { rng_hash: msg.rng_hash, rng_addr: a }),
            Err(e) => r == Err::<State, ContractError>(ContractError::Std(e)),
        },
{
    match rng_addr {
        Ok(a) => Ok(State { rng_hash: msg.rng_hash, rng_addr: a }),
        Err(e) => Err(ContractError::Std(e)),
    }
}

// ---------------------------------------------------------------------------------------------
// Handles
// ---------------------------------------------------------------------------------------------

/// Handles `msg`. `config` is the stored configuration (or the error of loading it) and
/// `sender` the sender's canonical address (or the error of computing it); only a received
/// random number reads them.
pub fn handle(
    env: ContractEnv,
    msg: HandleMsg,
    config: Result<State, StdError>,
    sender: Result<Vec<u8>, StdError>,
) -> (r: Result<HandleOutcome, ContractError>)
    requires
        handle_defined(msg, config, sender),
    ensures
        handle_result(env, msg, config, sender, r),
{
    match msg {
        HandleMsg::CallRn { entropy, cb_msg, rng_hash, rng_addr } => Ok(
            try_call_rn(env, entropy, cb_msg, rng_hash, rng_addr),
        ),
        HandleMsg::ReceiveRn { rn, cb_msg } => try_receive_rn(config, sender, rn, cb_msg),
        HandleMsg::ReceiveFRn { rn, cb_msg, purpose } => Ok(
            try_receive_fulfill_rn(env, rn, cb_msg, purpose),
        ),
        HandleMsg::TriggerCreateRn {
            entropy,
            cb_msg,
            receiver_code_hash,
            receiver_addr,
            purpose,
            max_blk_delay,
            rng_hash,
            rng_addr,
        } => Ok(
            try_trigger_create_rn(
                env,
                entropy,
                cb_msg,
                receiver_code_hash,
                receiver_addr,
                purpose,
                max_blk_delay,
                rng_hash,
                rng_addr,
            ),
        ),
        HandleMsg::TriggerFulfillRn {
            creator_addr,
            receiver_code_hash,
            purpose,
            rng_hash,
            rng_addr,
        } => Ok(
            try_trigger_fulfill_rn(
                env,
                creator_addr,
                receiver_code_hash,
                purpose,
                rng_hash,
                rng_addr,
            ),
        ),
        HandleMsg::TriggerGenerateVk { .. } => Err(ContractError::UnsupportedMessage),
        HandleMsg::ReceiveViewingKey { .. } => Err(ContractError::UnsupportedMessage),
        HandleMsg::TriggerQueryRn { .. } => Err(ContractError::UnsupportedMessage),
    }
}

/// Whether `handle` is defined on these inputs (see `handle_defined`); where it is not, the
/// callback message to be logged is not UTF-8.
pub fn handle_is_defined(
    msg: &HandleMsg,
    config: &Result<State, StdError>,
    sender: &Result<Vec<u8>, StdError>,
) -> (b: bool)
    ensures
        b == handle_defined(*msg, *config, *sender),
{
    match msg {
        HandleMsg::ReceiveRn { rn, cb_msg } => match (config, sender) {
            (Ok(c), Ok(s)) => !bytes_equal(s, &c.rng_addr) || is_utf8(cb_msg),
            _ => true,
        },
        HandleMsg::ReceiveFRn { rn, cb_msg, purpose } => is_utf8(cb_msg),
        _ => true,
    }
}

/// Whether `bytes` are valid UTF-8.
fn is_utf8(bytes: &Vec<u8>) -> (b: bool)
    ensures
        b == valid_utf8(bytes@),
{
    let copy = bytes.clone();
    text_from_utf8(copy).is_some()
}

/// Whether two byte strings are equal.
fn bytes_equal(a: &Vec<u8>, b: &Vec<u8>) -> (eq: bool)
    ensures
        eq == (a@ == b@),
{
    if a.len() != b.len() {
        return false;
    }
    let mut i: usize = 0;
    while i < a.len()
        invariant
            a.len() == b.len(),
            i <= a.len(),
            forall|j: int| 0 <= j < i ==> a@[j] == b@[j],
        decreases a.len() - i,
    {
        if a[i] != b[i] {
            return false;
        }
        i = i + 1;
    }
    assert(a@ =~= b@);
    true
}

/// Asks the random number contract `rng_addr` (code hash `rng_hash`) for a random number,
/// to be sent back to this contract with `cb_msg`; the request carries the callback fee.
pub fn try_call_rn(
    env: ContractEnv,
    entropy: String,
    cb_msg: Vec<u8>,
    rng_hash: String,
    rng_addr: String,
) -> (out: HandleOutcome)
    ensures
        sends_only(out, call_rn_call(env, entropy, cb_msg, rng_hash, rng_addr)),
        out.messages@.len() == 1,
        out.messages@[0].send_amount == Some(CALLBACK_FEE),
        out.messages@[0].callback_code_hash == rng_hash,
        out.messages@[0].contract_addr == rng_addr,
        out.messages@[0].msg == OutgoingMsg::CallbackRn(
            CallbackRnMsg::CallbackRn {
                entropy: entropy,
                cb_msg: cb_msg,
                callback_code_hash: env.contract_code_hash,
                contract_addr: env.contract_address,
            },
        ),
{
    let callback_rn_msg = CallbackRnMsg::CallbackRn {
        entropy: entropy,
        cb_msg: cb_msg,
        callback_code_hash: env.contract_code_hash,
        contract_addr: env.contract_address,
    };
    let call = OutgoingCall {
        msg: OutgoingMsg::CallbackRn(callback_rn_msg),
        callback_code_hash: rng_hash,
        contract_addr: rng_addr,
        send_amount: Some(CALLBACK_FEE),
    };
    only_call(call)
}

/// An outcome that makes the one call `call`.
fn only_call(call: OutgoingCall) -> (out: HandleOutcome)
    ensures
        sends_only(out, call),
{
    let mut messages: Vec<OutgoingCall> = Vec::new();
    messages.push(call);
    HandleOutcome { messages: messages, log: Vec::new(), data: None }
}

/// Receives a random number. Only the configured random number contract may send one; its
/// number and callback message are logged.
pub fn try_receive_rn(
    config: Result<State, StdError>,
    sender: Result<Vec<u8>, StdError>,
    rn: [u8; 32],
    cb_msg: Vec<u8>,
) -> (r: Result<HandleOutcome, ContractError>)
    requires
        receive_rn_defined(config, sender, cb_msg@),
    ensures
        receive_rn_result(config, sender, rn@, cb_msg@, r),
        (config matches Ok(c) && sender matches Ok(s) && s@ == c.rng_addr@) ==> (r matches Ok(out)
            && out.messages@.len() == 0 && out.data is None && out.log@.len() == 2
            && out.log@[0].key@ == "rn"@ && out.log@[0].value@ == debug_text_of_bytes(rn@)
            && out.log@[1].key@ == "cb_msg"@ && out.log@[1].value@ == decode_utf8(cb_msg@)),
{
    let config = match config {
        Ok(c) => c,
        Err(e) => return Err(ContractError::Std(e)),
    };
    let sender = match sender {
        Ok(s) => s,
        Err(e) => return Err(ContractError::Std(e)),
    };
    if !bytes_equal(&sender, &config.rng_addr) {
        return Err(ContractError::SenderNotApproved);
    }
    let cb_text = match text_from_utf8(cb_msg) {
        Some(t) => t,
        None => vstd::pervasive::unreached(),
    };
    let rn_text = debug_bytes(&rn);
    Ok(receive_rn_outcome(rn_text, cb_text))
}

/// The outcome of receiving a random number, given the number's debug text and the callback
/// message's text: a log of the two under the keys "rn" and "cb_msg".
pub fn receive_rn_outcome(rn_text: String, cb_text: String) -> (out: HandleOutcome)
    ensures
        logs_only(out, seq![("rn"@, rn_text@), ("cb_msg"@, cb_text@)]),
{
    let mut log: Vec<LogEntry> = Vec::new();
    log.push(LogEntry { key: String::from_str("rn"), value: rn_text });
    log.push(LogEntry { key: String::from_str("cb_msg"), value: cb_text });
    HandleOutcome { messages: Vec::new(), log: log, data: None }
}

/// Asks the random number contract to create a random number, to be fulfilled later for
/// `receiver_addr`; the fields are forwarded unchanged and no fee is attached.
pub fn try_trigger_create_rn(
    _env: ContractEnv,
    entropy: String,
    cb_msg: Vec<u8>,
    receiver_code_hash: String,
    receiver_addr: Option<String>,
    purpose: Option<String>,
    max_blk_delay: Option<u64>,
    rng_hash: String,
    rng_addr: String,
) -> (out: HandleOutcome)
    ensures
        sends_only(
            out,
            create_rn_call(
                entropy,
                cb_msg,
                receiver_code_hash,
                receiver_addr,
                purpose,
                max_blk_delay,
                rng_hash,
                rng_addr,
            ),
        ),
        out.messages@.len() == 1,
        out.messages@[0].send_amount is None,
        out.messages@[0].callback_code_hash == rng_hash,
        out.messages@[0].contract_addr == rng_addr,
        out.messages@[0].msg == OutgoingMsg::CreateRn(
            CreateRnMsg::CreateRn {
                entropy: entropy,
                cb_msg: cb_msg,
                receiver_code_hash: receiver_code_hash,
                receiver_addr: receiver_addr,
                purpose: purpose,
                max_blk_delay: max_blk_delay,
            },
        ),
{
    let create_rn_msg = CreateRnMsg::CreateRn {
        entropy: entropy,
        cb_msg: cb_msg,
        receiver_code_hash: receiver_code_hash,
        receiver_addr: receiver_addr,
        purpose: purpose,
        max_blk_delay: max_blk_delay,
    };
    only_call(
        OutgoingCall {
            msg: OutgoingMsg::CreateRn(create_rn_msg),
            callback_code_hash: rng_hash,
            contract_addr: rng_addr,
            send_amount: None,
        },
    )
}

/// Asks the random number contract to fulfill the random number created by `creator_addr`;
/// the fields are forwarded unchanged and no fee is attached.
pub fn try_trigger_fulfill_rn(
    _env: ContractEnv,
    creator_addr: String,
    receiver_code_hash: String,
    purpose: Option<String>,
    rng_hash: String,
    rng_addr: String,
) -> (out: HandleOutcome)
    ensures
        sends_only(
            out,
            fulfill_rn_call(creator_addr, receiver_code_hash, purpose, rng_hash, rng_addr),
        ),
        out.messages@.len() == 1,
        out.messages@[0].send_amount is None,
        out.messages@[0].callback_code_hash == rng_hash,
        out.messages@[0].contract_addr == rng_addr,
        out.messages@[0].msg == OutgoingMsg::FulfillRn(
            FulfillRnMsg::FulfillRn {
                creator_addr: creator_addr,
                receiver_code_hash: receiver_code_hash,
                purpose: purpose,
            },
        ),
{
    let fulfill_rn_msg = FulfillRnMsg::FulfillRn {
        creator_addr: creator_addr,
        receiver_code_hash: receiver_code_hash,
        purpose: purpose,
    };
    only_call(
        OutgoingCall {
            msg: OutgoingMsg::FulfillRn(fulfill_rn_msg),
            callback_code_hash: rng_hash,
            contract_addr: rng_addr,
            send_amount: None,
        },
    )
}

/// Receives a fulfilled random number: the number, the callback message and the purpose are
/// logged. Any sender is accepted.
pub fn try_receive_fulfill_rn(
    _env: ContractEnv,
    rn: [u8; 32],
    cb_msg: Vec<u8>,
    purpose: Option<String>,
) -> (out: HandleOutcome)
    requires
        valid_utf8(cb_msg@),
    ensures
        logs_only(out, receive_fulfill_rn_log(rn@, cb_msg@, purpose)),
        out.messages@.len() == 0,
        out.data is None,
        out.log@.len() == 3,
        out.log@[0].key@ == "rn"@ && out.log@[0].value@ == debug_text_of_bytes(rn@),
        out.log@[1].key@ == "cb_msg"@ && out.log@[1].value@ == decode_utf8(cb_msg@),
        out.log@[2].key@ == "purpose"@,
        out.log@[2].value@ == match purpose {
            Some(p) => debug_text_of_optional_text(Some(p@)),
            None => debug_text_of_optional_text(None),
        },
{
    let cb_text = match text_from_utf8(cb_msg) {
        Some(t) => t,
        None => vstd::pervasive::unreached(),
    };
    let rn_text = debug_bytes(&rn);
    let purpose_text = debug_optional_text(&purpose);
    receive_fulfill_rn_outcome(rn_text, cb_text, purpose_text)
}

/// The outcome of receiving a fulfilled random number, given the texts of the number, the
/// callback message and the purpose: a log of the three under "rn", "cb_msg" and "purpose".
pub fn receive_fulfill_rn_outcome(
    rn_text: String,
    cb_text: String,
    purpose_text: String,
) -> (out: HandleOutcome)
    ensures
        logs_only(
            out,
            seq![("rn"@, rn_text@), ("cb_msg"@, cb_text@), ("purpose"@, purpose_text@)],
        ),
{
    let mut log: Vec<LogEntry> = Vec::new();
    log.push(LogEntry { key: String::from_str("rn"), value: rn_text });
    log.push(LogEntry { key: String::from_str("cb_msg"), value: cb_text });
    log.push(LogEntry { key: String::from_str("purpose"), value: purpose_text });
    HandleOutcome { messages: Vec::new(), log: log, data: None }
}

// ---------------------------------------------------------------------------------------------
// Outgoing calls
// ---------------------------------------------------------------------------------------------

/// Turns `call`, whose message serializes to `serialized`, into a contract execution: the
/// message is padded with spaces to a multiple of `BLOCK_SIZE`, and an amount to send becomes
/// that many uscrt.
pub fn to_wasm_execute(call: OutgoingCall, serialized: Vec<u8>) -> (exec: WasmExecute)
    requires
        serialized.len() + BLOCK_SIZE <= isize::MAX,
    ensures
        exec.contract_addr == call.contract_addr,
        exec.callback_code_hash == call.callback_code_hash,
        exec.msg@ == space_padded(serialized@, BLOCK_SIZE as nat),
        sends_amount(exec.send@, call.send_amount),
{
    let msg = space_pad(serialized, BLOCK_SIZE);
    let mut send: Vec<Coin> = Vec::new();
    match call.send_amount {
        Some(amount) => {
            send.push(Coin { denom: String::from_str("uscrt"), amount: amount });
        },
        None => {},
    }
    WasmExecute {
        contract_addr: call.contract_addr,
        callback_code_hash: call.callback_code_hash,
        msg: msg,
        send: send,
    }
}

// ---------------------------------------------------------------------------------------------
// Queries
// ---------------------------------------------------------------------------------------------

/// Answers `msg`. `rng_addr` is the configured random number contract's human address (or the
/// error of loading the configuration or of computing the address).
pub fn query(msg: QueryMsg, rng_addr: Result<String, StdError>) -> (r: Result<
    QueryResponse,
    ContractError,
>)
    ensures
        match msg {
            QueryMsg::GetRngAddr {  } => match rng_addr {
                Ok(a) => r == Ok::<QueryResponse, ContractError>(QueryResponse { rng_addr: a }),
                Err(e) => r == Err::<QueryResponse, ContractError>(ContractError::Std(e)),
            },
        },
{
    match msg {
        QueryMsg::GetRngAddr {  } => match rng_addr {
            Ok(a) => Ok(try_get_rng_addr(a)),
            Err(e) => Err(ContractError::Std(e)),
        },
    }
}

/// The answer to `GetRngAddr`, given the random number contract's human address.
pub fn try_get_rng_addr(rng_addr: String) -> (r: QueryResponse)
    ensures
        r == (QueryResponse { rng_addr: rng_addr }),
{
    QueryResponse { rng_addr: rng_addr }
}

} // verus!

verus! {

// ---------------------------------------------------------------------------------------------
// Laws
// ---------------------------------------------------------------------------------------------

/// A message sent to another contract is padded to a length that is a multiple of
/// `BLOCK_SIZE`: it begins with the serialized message, which it keeps whole, and continues
/// with fewer than `BLOCK_SIZE` spaces.
pub proof fn lemma_outgoing_message_fills_blocks(serialized: Seq<u8>)
    ensures
        space_padded(serialized, BLOCK_SIZE as nat).len() % (BLOCK_SIZE as nat) == 0,
        serialized.len() <= space_padded(serialized, BLOCK_SIZE as nat).len() < serialized.len()
            + BLOCK_SIZE,
        space_padded(serialized, BLOCK_SIZE as nat).subrange(0, serialized.len() as int)
            == serialized,
        forall|i: int|
            serialized.len() <= i < space_padded(serialized, BLOCK_SIZE as nat).len() ==> (
            #[trigger] space_padded(serialized, BLOCK_SIZE as nat)[i]) == 0x20u8,
{
    let padded = space_padded(serialized, BLOCK_SIZE as nat);
    let n = serialized.len();
    assert(padded.subrange(0, n as int) =~= serialized);
    if n % 256 != 0 {
        assert((n + (256 - n % 256)) % 256 == 0) by (nonlinear_arith)
            requires n % 256 != 0;
    }
}

/// After instantiation with the random number contract's canonical address `rng_addr`, a
/// received random number is accepted (and logged) exactly when its sender's canonical
/// address is `rng_addr`; otherwise the sender is refused.
pub proof fn lemma_only_configured_sender_is_approved(
    msg: InitMsg,
    rng_addr: Vec<u8>,
    config: Result<State, ContractError>,
    sender: Vec<u8>,
    rn: Seq<u8>,
    cb_msg: Seq<u8>,
    r: Result<HandleOutcome, ContractError>,
)
    requires
        config == Ok::<State, ContractError>(State { rng_hash: msg.rng_hash, rng_addr: rng_addr }),
        receive_rn_result(Ok(config->Ok_0), Ok(sender), rn, cb_msg, r),
    ensures
        r is Ok <==> sender@ == rng_addr@,
        r is Err ==> r == Err::<HandleOutcome, ContractError>(ContractError::SenderNotApproved),
        r matches Ok(out) ==> out.messages@.len() == 0 && logs_only(out, receive_rn_log(rn, cb_msg)),
{
}

/// A random number from the configured random number contract is accepted, and the log holds
/// exactly two entries: under "rn" the debug text of the number, and under "cb_msg" the whole
/// UTF-8 decoding of the callback message, whatever its length, so that encoding the logged
/// text again gives back every byte of the callback message.
pub proof fn lemma_receive_rn_logs_whole_callback(
    config: State,
    sender: Vec<u8>,
    rn: Seq<u8>,
    cb_msg: Seq<u8>,
    r: Result<HandleOutcome, ContractError>,
)
    requires
        sender@ == config.rng_addr@,
        valid_utf8(cb_msg),
        receive_rn_result(Ok(config), Ok(sender), rn, cb_msg, r),
    ensures
        r is Ok,
        r matches Ok(out) ==> {
            &&& out.messages@.len() == 0
            &&& out.data is None
            &&& out.log@.len() == 2
            &&& out.log@[0].key@ == "rn"@
            &&& out.log@[0].value@ == debug_text_of_bytes(rn)
            &&& out.log@[1].key@ == "cb_msg"@
            &&& out.log@[1].value@ == decode_utf8(cb_msg)
            &&& encode_utf8(out.log@[1].value@) == cb_msg
            &&& out.log@[1].value@.len() == decode_utf8(cb_msg).len()
        },
{
    let out = r->Ok_0;
    assert(out.log@[0].key@ == "rn"@);
    assert(out.log@[1].key@ == "cb_msg"@);
    decode_utf8_encode_utf8(cb_msg);
}

/// A fulfilled random number is logged with its purpose: the third entry, under "purpose", is
/// the debug text of the given purpose (`None` exactly when no purpose is given), whatever the
/// callback message is, an empty one included. Two calls with the same purpose log the same
/// purpose text, whatever their numbers and callback messages.
pub proof fn lemma_receive_fulfill_rn_logs_purpose(
    rn1: Seq<u8>,
    cb_msg1: Seq<u8>,
    rn2: Seq<u8>,
    cb_msg2: Seq<u8>,
    purpose: Option<String>,
    out1: HandleOutcome,
    out2: HandleOutcome,
)
    requires
        logs_only(out1, receive_fulfill_rn_log(rn1, cb_msg1, purpose)),
        logs_only(out2, receive_fulfill_rn_log(rn2, cb_msg2, purpose)),
    ensures
        out1.messages@.len() == 0,
        out1.data is None,
        out1.log@.len() == 3,
        out1.log@[0].key@ == "rn"@ && out1.log@[0].value@ == debug_text_of_bytes(rn1),
        out1.log@[1].key@ == "cb_msg"@ && out1.log@[1].value@ == decode_utf8(cb_msg1),
        out1.log@[2].key@ == "purpose"@,
        out1.log@[2].value@ == match purpose {
            Some(p) => debug_text_of_optional_text(Some(p@)),
            None => debug_text_of_optional_text(None),
        },
        out2.log@.len() == 3,
        out2.log@[2].value@ == out1.log@[2].value@,
{
    assert(out1.log@[0].key@ == "rn"@);
    assert(out1.log@[1].key@ == "cb_msg"@);
    assert(out1.log@[2].key@ == "purpose"@);
    assert(out2.log@[2].key@ == "purpose"@);
}

/// Every request for a random number (`CallRn`) attaches exactly `CALLBACK_FEE` (100 000)
/// uscrt, whatever its entropy and callback message: two requests attach the same fee. The
/// request goes to the given random number contract and asks for the number to be sent back
/// to this contract, with the given entropy and callback message.
pub proof fn lemma_call_rn_attaches_fee(
    env1: ContractEnv,
    entropy1: String,
    cb_msg1: Vec<u8>,
    rng_hash1: String,
    rng_addr1: String,
    out1: HandleOutcome,
    env2: ContractEnv,
    entropy2: String,
    cb_msg2: Vec<u8>,
    rng_hash2: String,
    rng_addr2: String,
    out2: HandleOutcome,
)
    requires
        sends_only(out1, call_rn_call(env1, entropy1, cb_msg1, rng_hash1, rng_addr1)),
        sends_only(out2, call_rn_call(env2, entropy2, cb_msg2, rng_hash2, rng_addr2)),
    ensures
        out1.messages@.len() == 1,
        out1.messages@[0].send_amount == Some(100_000u128),
        out1.messages@[0].callback_code_hash == rng_hash1,
        out1.messages@[0].contract_addr == rng_addr1,
        out1.messages@[0].msg == OutgoingMsg::CallbackRn(
            CallbackRnMsg::CallbackRn {
                entropy: entropy1,
                cb_msg: cb_msg1,
                callback_code_hash: env1.contract_code_hash,
                contract_addr: env1.contract_address,
            },
        ),
        out1.log@.len() == 0,
        out1.data is None,
        out2.messages@.len() == 1,
        out2.messages@[0].send_amount == out1.messages@[0].send_amount,
{
}

/// A request to create a random number (`TriggerCreateRn`) passes every given field on
/// unchanged (the receiver's address whether or not a purpose is given), attaches no coins,
/// and goes to the given random number contract. Two requests that differ only in their
/// purpose carry the same receiver address.
pub proof fn lemma_trigger_create_rn_forwards_fields(
    entropy: String,
    cb_msg: Vec<u8>,
    receiver_code_hash: String,
    receiver_addr: Option<String>,
    purpose1: Option<String>,
    purpose2: Option<String>,
    max_blk_delay: Option<u64>,
    rng_hash: String,
    rng_addr: String,
    out1: HandleOutcome,
    out2: HandleOutcome,
)
    requires
        sends_only(
            out1,
            create_rn_call(
                entropy,
                cb_msg,
                receiver_code_hash,
                receiver_addr,
                purpose1,
                max_blk_delay,
                rng_hash,
                rng_addr,
            ),
        ),
        sends_only(
            out2,
            create_rn_call(
                entropy,
                cb_msg,
                receiver_code_hash,
                receiver_addr,
                purpose2,
                max_blk_delay,
                rng_hash,
                rng_addr,
            ),
        ),
    ensures
        out1.messages@.len() == 1,
        out1.messages@[0].send_amount is None,
        out1.messages@[0].callback_code_hash == rng_hash,
        out1.messages@[0].contract_addr == rng_addr,
        out1.messages@[0].msg == OutgoingMsg::CreateRn(
            CreateRnMsg::CreateRn {
                entropy: entropy,
                cb_msg: cb_msg,
                receiver_code_hash: receiver_code_hash,
                receiver_addr: receiver_addr,
                purpose: purpose1,
                max_blk_delay: max_blk_delay,
            },
        ),
        out1.log@.len() == 0,
        out1.data is None,
        out2.messages@.len() == 1,
        (out1.messages@[0].msg matches OutgoingMsg::CreateRn(CreateRnMsg::CreateRn { receiver_addr: a1, .. })
            && out2.messages@[0].msg matches OutgoingMsg::CreateRn(CreateRnMsg::CreateRn { receiver_addr: a2, .. })
            && a1 == a2),
{
}

/// A request to fulfill a random number (`TriggerFulfillRn`) passes the given creator
/// address, receiver code hash and purpose on unchanged, attaches no coins, and goes to the
/// given random number contract.
pub proof fn lemma_trigger_fulfill_rn_forwards_fields(
    creator_addr: String,
    receiver_code_hash: String,
    purpose: Option<String>,
    rng_hash: String,
    rng_addr: String,
    out: HandleOutcome,
)
    requires
        sends_only(out, fulfill_rn_call(creator_addr, receiver_code_hash, purpose, rng_hash, rng_addr)),
    ensures
        out.messages@.len() == 1,
        out.messages@[0].send_amount is None,
        out.messages@[0].callback_code_hash == rng_hash,
        out.messages@[0].contract_addr == rng_addr,
        out.messages@[0].msg == OutgoingMsg::FulfillRn(
            FulfillRnMsg::FulfillRn {
                creator_addr: creator_addr,
                receiver_code_hash: receiver_code_hash,
                purpose: purpose,
            },
        ),
        out.log@.len() == 0,
        out.data is None,
{
}

/// Handling a message routes it to its handler: `CallRn` requests a number from the given
/// contract with the fee attached; the two trigger messages pass their fields on unchanged
/// with no coins; a number from the configured contract is logged with the whole callback
/// message; a fulfilled number is logged with its purpose; the messages without a handler
/// are refused.
pub proof fn lemma_handle_routes_messages(
    env: ContractEnv,
    msg: HandleMsg,
    config: Result<State, StdError>,
    sender: Result<Vec<u8>, StdError>,
    r: Result<HandleOutcome, ContractError>,
)
    requires
        handle_defined(msg, config, sender),
        handle_result(env, msg, config, sender, r),
    ensures
        match msg {
            HandleMsg::CallRn { entropy, cb_msg, rng_hash, rng_addr } => r matches Ok(out)
                && out.messages@.len() == 1 && out.log@.len() == 0 && out.data is None
                && out.messages@[0].send_amount == Some(100_000u128)
                && out.messages@[0].callback_code_hash == rng_hash
                && out.messages@[0].contract_addr == rng_addr
                && out.messages@[0].msg == OutgoingMsg::CallbackRn(
                CallbackRnMsg::CallbackRn {
                    entropy: entropy,
                    cb_msg: cb_msg,
                    callback_code_hash: env.contract_code_hash,
                    contract_addr: env.contract_address,
                },
            ),
            HandleMsg::ReceiveRn { rn, cb_msg } => (config matches Ok(c) && sender matches Ok(s)
                && s@ == c.rng_addr@) ==> (r matches Ok(out) && out.messages@.len() == 0
                && out.log@.len() == 2 && out.log@[0].value@ == debug_text_of_bytes(rn@)
                && out.log@[1].value@ == decode_utf8(cb_msg@)),
            HandleMsg::ReceiveFRn { rn, cb_msg, purpose } => r matches Ok(out)
                && out.messages@.len() == 0 && out.log@.len() == 3
                && out.log@[0].value@ == debug_text_of_bytes(rn@)
                && out.log@[1].value@ == decode_utf8(cb_msg@)
                && out.log@[2].value@ == match purpose {
                Some(p) => debug_text_of_optional_text(Some(p@)),
                None => debug_text_of_optional_text(None),
            },
            HandleMsg::TriggerCreateRn {
                entropy,
                cb_msg,
                receiver_code_hash,
                receiver_addr,
                purpose,
                max_blk_delay,
                rng_hash,
                rng_addr,
            } => r matches Ok(out) && out.messages@.len() == 1 && out.log@.len() == 0
                && out.messages@[0].send_amount is None
                && out.messages@[0].callback_code_hash == rng_hash
                && out.messages@[0].contract_addr == rng_addr
                && out.messages@[0].msg == OutgoingMsg::CreateRn(
                CreateRnMsg::CreateRn {
                    entropy: entropy,
                    cb_msg: cb_msg,
                    receiver_code_hash: receiver_code_hash,
                    receiver_addr: receiver_addr,
                    purpose: purpose,
                    max_blk_delay: max_blk_delay,
                },
            ),
            HandleMsg::TriggerFulfillRn {
                creator_addr,
                receiver_code_hash,
                purpose,
                rng_hash,
                rng_addr,
            } => r matches Ok(out) && out.messages@.len() == 1 && out.log@.len() == 0
                && out.messages@[0].send_amount is None
                && out.messages@[0].callback_code_hash == rng_hash
                && out.messages@[0].contract_addr == rng_addr
                && out.messages@[0].msg == OutgoingMsg::FulfillRn(
                FulfillRnMsg::FulfillRn {
                    creator_addr: creator_addr,
                    receiver_code_hash: receiver_code_hash,
                    purpose: purpose,
                },
            ),
            _ => r == Err::<HandleOutcome, ContractError>(ContractError::UnsupportedMessage),
        },
{
    match msg {
        HandleMsg::CallRn { entropy, cb_msg, rng_hash, rng_addr } => {
            let out = r->Ok_0;
            lemma_call_rn_attaches_fee(
                env, entropy, cb_msg, rng_hash, rng_addr, out,
                env, entropy, cb_msg, rng_hash, rng_addr, out,
            );
        },
        HandleMsg::ReceiveRn { rn, cb_msg } => {
            if config is Ok && sender is Ok && sender->Ok_0@ == config->Ok_0.rng_addr@ {
                lemma_receive_rn_logs_whole_callback(config->Ok_0, sender->Ok_0, rn@, cb_msg@, r);
            }
        },
        HandleMsg::ReceiveFRn { rn, cb_msg, purpose } => {
            let out = r->Ok_0;
            lemma_receive_fulfill_rn_logs_purpose(rn@, cb_msg@, rn@, cb_msg@, purpose, out, out);
        },
        HandleMsg::TriggerCreateRn {
            entropy,
            cb_msg,
            receiver_code_hash,
            receiver_addr,
            purpose,
            max_blk_delay,
            rng_hash,
            rng_addr,
        } => {
            let out = r->Ok_0;
            lemma_trigger_create_rn_forwards_fields(
                entropy, cb_msg, receiver_code_hash, receiver_addr, purpose, purpose,
                max_blk_delay, rng_hash, rng_addr, out, out,
            );
        },
        HandleMsg::TriggerFulfillRn { creator_addr, receiver_code_hash, purpose, rng_hash, rng_addr } => {
            let out = r->Ok_0;
            lemma_trigger_fulfill_rn_forwards_fields(
                creator_addr, receiver_code_hash, purpose, rng_hash, rng_addr, out,
            );
        },
        _ => {},
    }
}

} // verus!
