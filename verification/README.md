# FINAD

A personal finance tracker. It reads bank statements, syncs bank accounts
through Teller, sorts transactions into categories, keeps cash entries, sums up
what was spent, and answers questions about it with a language model.

- `src/` is the library: the rules, proved with Verus against their contracts.
  It computes on plain values. `src/outside.rs` holds the calls into other
  crates, with what is taken for granted about each of them; one more such item,
  for `String::push`, stands in `src/text.rs`.
- `app/` is the server: the routes, the database, the files and the network.
- `tests/` runs the library, and its statements against SQLite.

| Module | What it holds |
| --- | --- |
| `text`, `amount` | Texts, and amounts of money as patterns of bits |
| `categories`, `category_laws`, `record`, `pdf` | Categories, transactions, bank statements |
| `exchange`, `assistant` | Answers of other services, prompts and replies |
| `teller`, `banks` | Reading transactions page by page, connected accounts |
| `auth` | Users, passwords and tokens |
| `summary`, `cash`, `upload` | What was spent, cash, uploads |
| `store`, `isolation` | Statements for the database, and whose rows they touch |
| `reply` | Answers to requests |

The server reads its settings from the environment or from a `.env` file:
`JWT_SECRET`, `ANTHROPIC_API_KEY`, `ASSISTANT_NAME` (what the language model is
called; its identifier begins with that name in lower case, and goes on with
`-haiku-4-5-20251001`), `TELLER_CERT_PATH` and `TELLER_KEY_PATH`.
