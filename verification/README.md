# ghostfeed

A bridge between Instagram direct messages and Discord: a webhook server answers
Instagram's verification handshake, and a Discord bot lists conversations and sends
messages through the Instagram Graph API.

- `src/` is the verified library: JSON lookups (`json`), reading API responses and
  building API requests (`engine`), the webhook answers (`webhook_server`, `server`),
  what the bot posts and which channels setup replaces (`discord`), and how services
  end (`service`).
- `app/` is the program around it: HTTP with reqwest, the axum servers, the poise bot,
  the tokio tasks, and the serde forms of the library's records.
- `tests/` runs the library on concrete values.
