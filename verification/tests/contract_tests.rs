use rn_user::contract::{
    handle, handle_is_defined, init, query, receive_fulfill_rn_outcome, receive_rn_outcome,
    to_wasm_execute, try_call_rn, try_get_rng_addr, try_receive_fulfill_rn, try_receive_rn,
    try_trigger_create_rn, try_trigger_fulfill_rn, CallbackRnMsg, Coin, ContractEnv,
    ContractError, CreateRnMsg, FulfillRnMsg, HandleOutcome, LogEntry, OutgoingCall,
    OutgoingMsg, CALLBACK_FEE,
};
use rn_user::msg::{HandleMsg, InitMsg, QueryMsg, QueryResponse, BLOCK_SIZE};
use rn_user::state::{State, ViewingKey};
use secret_cosmwasm_std::StdError;

fn env() -> ContractEnv {
    ContractEnv {
        contract_address: "user_contract".to_string(),
        contract_code_hash: "user_hash".to_string(),
    }
}

fn config() -> State {
    State { rng_hash: "rng_hash".to_string(), rng_addr: vec![1, 2, 3] }
}

fn rn() -> [u8; 32] {
    let mut rn = [0u8; 32];
    rn[0] = 7;
    rn[31] = 255;
    rn
}

fn rn_text() -> String {
    format!("[7{}, 255]", ", 0".repeat(30))
}

fn entry(key: &str, value: &str) -> LogEntry {
    LogEntry { key: key.to_string(), value: value.to_string() }
}

#[test]
fn init_stores_hash_and_canonical_address() {
    let msg = InitMsg { rng_hash: "h".to_string(), rng_addr: "secret1rng".to_string() };
    let state = init(msg, Ok(vec![9, 9])).unwrap();
    assert_eq!(state, State { rng_hash: "h".to_string(), rng_addr: vec![9, 9] });
}

#[test]
fn init_passes_on_address_error() {
    let msg = InitMsg { rng_hash: "h".to_string(), rng_addr: "bad".to_string() };
    let r = init(msg, Err(StdError::generic_err("invalid address")));
    assert_eq!(r, Err(ContractError::Std(StdError::generic_err("invalid address"))));
}

#[test]
fn call_rn_requests_number_with_fee() {
    let out = try_call_rn(env(), "entropy".to_string(), b"cb".to_vec(), "rh".to_string(), "ra".to_string());
    let expected = OutgoingCall {
        msg: OutgoingMsg::CallbackRn(CallbackRnMsg::CallbackRn {
            entropy: "entropy".to_string(),
            cb_msg: b"cb".to_vec(),
            callback_code_hash: "user_hash".to_string(),
            contract_addr: "user_contract".to_string(),
        }),
        callback_code_hash: "rh".to_string(),
        contract_addr: "ra".to_string(),
        send_amount: Some(100_000),
    };
    assert_eq!(out, HandleOutcome { messages: vec![expected], log: vec![], data: None });
    assert_eq!(CALLBACK_FEE, 100_000);
}

#[test]
fn trigger_create_rn_forwards_fields() {
    let out = try_trigger_create_rn(
        env(),
        "e".to_string(),
        b"m".to_vec(),
        "receiver_hash".to_string(),
        Some("receiver".to_string()),
        Some("lottery".to_string()),
        Some(10),
        "rh".to_string(),
        "ra".to_string(),
    );
    let expected = OutgoingCall {
        msg: OutgoingMsg::CreateRn(CreateRnMsg::CreateRn {
            entropy: "e".to_string(),
            cb_msg: b"m".to_vec(),
            receiver_code_hash: "receiver_hash".to_string(),
            receiver_addr: Some("receiver".to_string()),
            purpose: Some("lottery".to_string()),
            max_blk_delay: Some(10),
        }),
        callback_code_hash: "rh".to_string(),
        contract_addr: "ra".to_string(),
        send_amount: None,
    };
    assert_eq!(out, HandleOutcome { messages: vec![expected], log: vec![], data: None });
}

#[test]
fn trigger_fulfill_rn_forwards_fields() {
    let out = try_trigger_fulfill_rn(
        env(),
        "creator".to_string(),
        "receiver_hash".to_string(),
        None,
        "rh".to_string(),
        "ra".to_string(),
    );
    let expected = OutgoingCall {
        msg: OutgoingMsg::FulfillRn(FulfillRnMsg::FulfillRn {
            creator_addr: "creator".to_string(),
            receiver_code_hash: "receiver_hash".to_string(),
            purpose: None,
        }),
        callback_code_hash: "rh".to_string(),
        contract_addr: "ra".to_string(),
        send_amount: None,
    };
    assert_eq!(out, HandleOutcome { messages: vec![expected], log: vec![], data: None });
}

#[test]
fn receive_rn_from_configured_contract_is_logged() {
    let out = try_receive_rn(Ok(config()), Ok(vec![1, 2, 3]), rn(), b"hello".to_vec()).unwrap();
    assert_eq!(
        out,
        HandleOutcome {
            messages: vec![],
            log: vec![entry("rn", &rn_text()), entry("cb_msg", "hello")],
            data: None,
        }
    );
}

#[test]
fn receive_rn_from_other_sender_is_refused() {
    let r = try_receive_rn(Ok(config()), Ok(vec![1, 2, 4]), rn(), b"hello".to_vec());
    assert_eq!(r, Err(ContractError::SenderNotApproved));
    // the callback message is not decoded for a refused sender
    let r = try_receive_rn(Ok(config()), Ok(vec![1, 2]), rn(), vec![0xff]);
    assert_eq!(r, Err(ContractError::SenderNotApproved));
}

#[test]
fn receive_rn_without_config_fails_first() {
    let r = try_receive_rn(
        Err(StdError::not_found("state")),
        Err(StdError::generic_err("bad sender")),
        rn(),
        b"x".to_vec(),
    );
    assert_eq!(r, Err(ContractError::Std(StdError::not_found("state"))));
    let r = try_receive_rn(Ok(config()), Err(StdError::generic_err("bad sender")), rn(), b"x".to_vec());
    assert_eq!(r, Err(ContractError::Std(StdError::generic_err("bad sender"))));
}

#[test]
fn receive_fulfill_rn_logs_purpose() {
    let out = try_receive_fulfill_rn(env(), rn(), "héllo".as_bytes().to_vec(), Some("lot\"tery".to_string()));
    assert_eq!(
        out.log,
        vec![entry("rn", &rn_text()), entry("cb_msg", "héllo"), entry("purpose", "Some(\"lot\\\"tery\")")]
    );
    assert!(out.messages.is_empty());
    assert_eq!(out.data, None);
    let out = try_receive_fulfill_rn(env(), rn(), b"".to_vec(), None);
    assert_eq!(out.log, vec![entry("rn", &rn_text()), entry("cb_msg", ""), entry("purpose", "None")]);
}

#[test]
fn outcome_builders_log_in_order() {
    let out = receive_rn_outcome("a".to_string(), "b".to_string());
    assert_eq!(out.log, vec![entry("rn", "a"), entry("cb_msg", "b")]);
    let out = receive_fulfill_rn_outcome("a".to_string(), "b".to_string(), "c".to_string());
    assert_eq!(out.log, vec![entry("rn", "a"), entry("cb_msg", "b"), entry("purpose", "c")]);
}

#[test]
fn handle_dispatches_each_message() {
    let out = handle(
        env(),
        HandleMsg::CallRn { entropy: "e".to_string(), cb_msg: vec![], rng_hash: "rh".to_string(), rng_addr: "ra".to_string() },
        Err(StdError::not_found("state")),
        Err(StdError::generic_err("unused")),
    )
    .unwrap();
    assert_eq!(out.messages.len(), 1);
    assert_eq!(out.messages[0].send_amount, Some(100_000));

    let out = handle(env(), HandleMsg::ReceiveRn { rn: rn(), cb_msg: b"hi".to_vec() }, Ok(config()), Ok(vec![1, 2, 3])).unwrap();
    assert_eq!(out.log, vec![entry("rn", &rn_text()), entry("cb_msg", "hi")]);

    let r = handle(env(), HandleMsg::ReceiveRn { rn: rn(), cb_msg: b"hi".to_vec() }, Ok(config()), Ok(vec![3]));
    assert_eq!(r, Err(ContractError::SenderNotApproved));

    let out = handle(
        env(),
        HandleMsg::ReceiveFRn { rn: rn(), cb_msg: b"hi".to_vec(), purpose: None },
        Err(StdError::not_found("state")),
        Ok(vec![3]),
    )
    .unwrap();
    assert_eq!(out.log.len(), 3);

    let out = handle(
        env(),
        HandleMsg::TriggerFulfillRn {
            creator_addr: "c".to_string(),
            receiver_code_hash: "h".to_string(),
            purpose: None,
            rng_hash: "rh".to_string(),
            rng_addr: "ra".to_string(),
        },
        Ok(config()),
        Ok(vec![]),
    )
    .unwrap();
    assert_eq!(out.messages[0].contract_addr, "ra");

    let r = handle(env(), HandleMsg::ReceiveViewingKey { key: ViewingKey("vk".to_string()) }, Ok(config()), Ok(vec![]));
    assert_eq!(r, Err(ContractError::UnsupportedMessage));
    let r = handle(env(), HandleMsg::TriggerQueryRn { entropy: "e".to_string(), optionalvk: None }, Ok(config()), Ok(vec![]));
    assert_eq!(r, Err(ContractError::UnsupportedMessage));
}

#[test]
fn handle_is_defined_only_for_utf8_callbacks_that_are_read() {
    let bad = vec![0xff, 0xfe];
    let msg = HandleMsg::ReceiveRn { rn: rn(), cb_msg: bad.clone() };
    assert!(!handle_is_defined(&msg, &Ok(config()), &Ok(vec![1, 2, 3])));
    assert!(handle_is_defined(&msg, &Ok(config()), &Ok(vec![1, 2])));
    assert!(handle_is_defined(&msg, &Err(StdError::not_found("state")), &Ok(vec![1, 2, 3])));
    let msg = HandleMsg::ReceiveFRn { rn: rn(), cb_msg: bad, purpose: None };
    assert!(!handle_is_defined(&msg, &Ok(config()), &Ok(vec![])));
    let msg = HandleMsg::ReceiveFRn { rn: rn(), cb_msg: b"ok".to_vec(), purpose: None };
    assert!(handle_is_defined(&msg, &Ok(config()), &Ok(vec![])));
}

fn call(send_amount: Option<u128>) -> OutgoingCall {
    OutgoingCall {
        msg: OutgoingMsg::FulfillRn(FulfillRnMsg::FulfillRn {
            creator_addr: "c".to_string(),
            receiver_code_hash: "h".to_string(),
            purpose: None,
        }),
        callback_code_hash: "rh".to_string(),
        contract_addr: "ra".to_string(),
        send_amount,
    }
}

#[test]
fn outgoing_message_is_padded_to_block_size() {
    assert_eq!(BLOCK_SIZE, 256);
    let exec = to_wasm_execute(call(Some(100_000)), b"{\"a\":1}".to_vec());
    assert_eq!(exec.msg.len(), 256);
    assert_eq!(&exec.msg[..7], b"{\"a\":1}");
    assert!(exec.msg[7..].iter().all(|b| *b == b' '));
    assert_eq!(exec.contract_addr, "ra");
    assert_eq!(exec.callback_code_hash, "rh");
    assert_eq!(exec.send, vec![Coin { denom: "uscrt".to_string(), amount: 100_000 }]);
}

#[test]
fn outgoing_message_of_whole_blocks_is_unchanged() {
    let body = vec![b'x'; 512];
    let exec = to_wasm_execute(call(None), body.clone());
    assert_eq!(exec.msg, body);
    assert!(exec.send.is_empty());
    let exec = to_wasm_execute(call(None), vec![b'y'; 257]);
    assert_eq!(exec.msg.len(), 512);
    let exec = to_wasm_execute(call(None), vec![]);
    assert!(exec.msg.is_empty());
}

#[test]
fn query_returns_rng_address() {
    let r = query(QueryMsg::GetRngAddr {}, Ok("secret1rng".to_string()));
    assert_eq!(r, Ok(QueryResponse { rng_addr: "secret1rng".to_string() }));
    let r = query(QueryMsg::GetRngAddr {}, Err(StdError::not_found("state")));
    assert_eq!(r, Err(ContractError::Std(StdError::not_found("state"))));
    assert_eq!(try_get_rng_addr("a".to_string()), QueryResponse { rng_addr: "a".to_string() });
}
