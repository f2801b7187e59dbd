# taler_merchant

Client logic for the GNU Taler Merchant Backend HTTP API (`GET /config`,
`POST /private/orders`, `GET /private/orders/{id}`), written in Verus.

- `src/` — the library, verified: the amount grammar (`amount`), token
  normalization and redaction (`auth`), unguessable order ids (`order_id`),
  URL rules, URL building, order-body preparation, HTTP status
  classification and the `create_order` outcome (`client`), errors and their
  messages (`error`), the order-status model (`types`), JSON values carried
  through and the two JSON lookups (`json`), character-level helpers
  (`text`).
- `app/` — the network side and the CLI: the `ureq` client, the serde JSON
  shapes of the API types, and `main`.
- `tests/` — tests of the library on concrete values.
