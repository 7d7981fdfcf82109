# smartloop

The Smartloop command line client, with its logic verified in Verus.

- `src/` is the verified library: the service endpoints (`urls`), byte
  counts for people (`sizes`), progress lines (`status`), failure messages
  (`messages`), the `project` subcommands (`commands`), project listings,
  their table and the choice of a chat's project (`projects`), the
  `agent status` report (`agent`), and the chat session, its input lines,
  stream events and retries (`chat`), on top of text primitives (`text`).
- `app/main.rs` is the program: argument parsing, HTTP and SSE traffic,
  terminal input and output, and table rendering. It converts the service's
  JSON into the library's records and prints what the library returns.
- `tests/` runs the library on concrete values.
