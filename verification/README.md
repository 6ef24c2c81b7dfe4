# stello_pay_contract events

The event catalog of the StelloPay payroll and escrow contract, verified with
Verus.

- `src/schema.rs`: field types and values, event schemas, and the rules every
  schema and payload follow (topic layout, Soroban symbols, key order).
- `src/events.rs`: the contract's events. For each event, `schema`,
  `topics` and `data` give what it is published with, and their contracts
  state it exactly.
- `src/catalog.rs`: the catalog of all events and the rules across events
  (distinct event names and event-name topics).
- `src/soroban.rs`: the Soroban host types that payloads carry.
- `app/lib.rs`: the `#[contractevent]` declarations and the `emit_*`
  functions that publish events to a Soroban environment.
- `tests/`: the schema fixture check and payload tests.

Every event is published with its event-name topic at index 0 and
`event_schema_v1` at index 1; its data is a map from field names to field
values. Changing a field's name, type or the set of fields requires updating
the fixture in `tests/event_schema_fixtures.rs`; breaking changes bump the
schema version.
