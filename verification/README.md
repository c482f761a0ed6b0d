# Obsidian

The domain logic of Obsidian, a companion for Albion Online, as a library
verified with Verus, and the local HTTP service around it.

- `src/` is the verified library:
  - `settings`: servers, crafting accounts, production bonuses and return
    rates as exact fractions, the materials to buy for an order;
  - `alchemy`: crafting plans (runs per item, one shopping list summed over
    all recipes) and shopping list ordering;
  - `seance`: loot split shares, withdrawals and wallets;
  - `marrow`, `marrow_recommend`: market price handling (cache expiry,
    history ranges and charts, uploaded orders, city ranking, the sell price
    and city bonus of a recommendation);
  - `item_map`, `json`: the item catalogue reader (the file text parsed by
    `serde_json` into JSON as plain values, then walked),
    display names, and the shape of the item table's insert statements;
  - `api`: the request rules of the HTTP API;
  - `text`, `arith`, `time`: string, integer and calendar helpers.
- `tests/` exercises the library on concrete values.
- `app/` is the service: the database, the market data service, the HTTP
  routes, the settings file, and the floating-point scoring of
  recommendations and loot splits.
