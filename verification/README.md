# else_model

The game model of the Else world — identities, descriptors, entities, characters and their cortexes, areas,
routes, interfaces, sessions, universes and the messages between clients and servers — written in Verus, with
each function's behaviour stated in `requires` / `ensures` and proved.

Layout:

- `src/` — the verified library.
  - `identity`, `descriptor`, `entity`, `character`, `cortex`, `thing`, `item`, `area`, `route`,
    `interface`, `session`, `universe`: the models and their builders. A builder in creator mode makes a
    model; in editor mode it changes only the fields that were set on it and reports what changed.
  - `modeling`: the builder framework (list operations, creation, modification, the report of changed
    fields), with its laws.
  - `message`, `network`, `timeframe`, `action`, `behavior`, `stimulus`: protocols, network outcomes,
    frames and actions.
  - `client`: the text console of the web client — tokenizing and parsing input, commands, finding the
    targets they name, the console's state, and the decisions of its connection to a zone server.
  - `server`: the lines that servers log.
  - `text`: verified string helpers.
- `tests/` — tests of the library on concrete values.
- `app/` — what stays outside the proofs: error messages, wire encoding with serde and bincode, `Display`
  impls, reading the clock for log lines, and file locations.
