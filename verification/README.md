# substrate_pallets

Verified models, in Verus, of a few Substrate pallets and an ink! ERC-20 contract:

- `erc20` — token balances, allowances and transfers;
- `poe`, `lesson1_poe` — proof of existence (claims of byte strings);
- `kitties` — collectible kitties: creation, breeding, hand-over, sale and storage migration;
- `ocw_homework`, `ocw_tutorials` — off-chain worker logic: index entries, storage keys,
  validation of unsigned transactions with signed payloads;
- `app_crypto` — the sr25519 application crypto of the off-chain worker.

Each pallet's storage is a `Pallet` value; a call's contract relates the pallet's model
(`@`) before and after the call through a spec function of the same name. Laws over
several calls are public `law_*` proof functions next to the calls they relate.

`src/` is verified; `app/` holds the host side (off-chain storage and index access,
runtime configuration, transaction-pool conversions); `tests/` runs the library.
