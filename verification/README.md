# account

Intent execution for a multi-signature account on the Internet Computer.

- `src/` is the verified library:
  - `text`: splitting a token path on `:` and joining pieces, with the laws
    that tie the two together;
  - `types`: transaction types, intent statuses, networks, tokens, decisions;
  - `adapters`: the ICP, ETH and ICRC-1 transfer adapters, the transfers
    they prepare and how they report results;
  - `registry`: adapter keys and the registry an intent's adapter is found in;
  - `execution`: whether a proposal may be executed, and its final status;
  - `users`: the user directory of the registration canister;
  - `keyed`: the map model shared by the registry and the directory;
  - `codecs`: the calls into `candid`, `ic-ledger-types` and std whose
    contracts are trusted.
- `app/` holds the canister endpoints, stable state, the awaited calls and the
  records whose amount is a float.
- `tests/` runs the library on concrete values.
