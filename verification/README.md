# threema_gateway_bot

Verified core of a Threema Gateway bot framework.

- `src/text.rs`: Unicode whitespace, trimming and word splitting, as specifications and
  as verified scanners over `&str`.
- `src/commands.rs`: command configuration (`Commands`), the registry that parses
  messages and writes the help text; `src/commands/laws.rs` holds the properties that
  relate parsing, command formatting and the help text.
- `src/webhook.rs`, `src/errors.rs`: the replay-window check on webhook timestamps.
- `src/server/handler.rs`: responses, actions, and classic reactions from delivery
  receipts.
- `app/lib.rs`: the async `MessageHandler` trait and `MessageContext`.
