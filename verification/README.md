# rn_user

A Secret Network contract that uses a random number contract: it asks it for random
numbers (`CallRn`, `TriggerCreateRn`, `TriggerFulfillRn`) and logs the numbers that come
back (`ReceiveRn`, `ReceiveFRn`).

- `src/` is the verified library: the message and state types (`msg`, `state`) and the
  contract's decisions (`contract`): which call each message makes, who may deliver a
  random number, what is logged, and how outgoing messages are padded. `trusted` holds
  the calls into std and the outside crates, with the contracts that are assumed of them.
- `app/` holds the cosmwasm entry points (`init`, `handle`, `query`), the storage
  singletons, and serializable copies of the message types. It reads storage and the
  chain's address API, and hands plain values to the library.
- `tests/` runs the library on concrete inputs.
