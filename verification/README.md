# cw_deeplinks

A registry of typed deeplinks for a CosmWasm chain, verified with Verus.

A deeplink has a type and two optional endpoints. Its type, and each endpoint it
names, must be a *named* deeplink; when both endpoints are given, each end of the
type must be `Any` or the type of that endpoint. Admins create named deeplinks,
mark deeplinks deleted and replace the admins and executors; anyone may create
unnamed deeplinks; executors relay cyberlinks through the contract.

- `src/` — the verified library: the state (`store`, over the keyed tables of
  `table`), the records and requests (`state`), the refusals (`error`), the
  answers (`response`), the handlers with their contracts (`execute`) and the
  properties that span them (`laws`).
- `tests/` — tests of the handlers on concrete states.
- `app/` — the chain side: storage layout, JSON types, and the handlers with their
  CosmWasm signatures, which load the state, run the verified handler, store the
  result and build the CosmWasm response.
