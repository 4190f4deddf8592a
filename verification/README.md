# escrow

A verified model of an escrow contract for the Soroban ledger.

- `src/types.rs`: addresses (held as strkey bytes), escrow records, their
  lifecycle states, the storage keys, and the errors that operations return.
- `src/fee.rs`: the basis-point fee arithmetic (rounded toward zero, with
  overflow reported rather than wrapped).
- `src/contract.rs`: `Escrow`, the contract's storage as a mathematical
  `EscrowStorage`, and its operations `initialize`, `set_fee`,
  `create_escrow`, `fund_escrow`, `confirm_delivery`, `get_escrow`, each
  proved to perform exactly the transition its spec function describes and
  to leave storage untouched when it refuses.
- `src/laws.rs`: properties across operations, such as a fee change never
  altering an escrow created before it.
- `app/lib.rs`: the Soroban contract itself. It checks authorization, reads
  the ledger entries an operation needs into `Escrow`, runs the operation,
  and writes back the entries the operation writes.
