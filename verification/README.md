# erc20-vault

A vault that takes payment on a Substrate chain for gas sent out on an EVM chain,
with its rules proved in Verus.

A requester pays the vault and names an EVM address and an amount. The vault
charges the signing deposit and the payment, has the faucet call
`fund(to, amount, requestId)` built, hands it to a signing service, and keeps the
request pending. The service's signed response settles it: a success keeps the
payment, a failure pays it back. A call that fails changes nothing.

## Layout

- `src/` is the verified library.
  - `rules.rs`: the state of the vault and its rules, as functions from a state to
    the next.
  - `pallet.rs`: the vault that follows them, and `flow.rs`: what it has the
    runtime do meanwhile.
  - `messages.rs`, `abi.rs`, `bytes.rs`: request ids, signatures, call data.
  - `requests.rs`: the pending requests; `config.rs`, `types.rs`: accounts,
    events, errors.
  - `outside.rs`: every call into another crate, with what is relied on of it.
  - `laws.rs`: what holds across calls; `solvency.rs`: the vault's balance covers
    its pending requests.
- `app/` is the FRAME pallet around the library: storage, balances, events and
  dispatch. The runtime plugs in the transaction builder and the signing service.
- `tests/` runs the library against a small runtime of its own.

The vault never calls the runtime. `Pallet::request_fund` and
`Pallet::resume_fund` answer with the next action of a request, and the runtime
resumes the request with the reply; `Pallet::respond_fund` and
`Pallet::finish_refund` do the same for a response.
