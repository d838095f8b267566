# codex_native

The decisions of a bridge between an editor and the Codex app-server, with what stands
beside it in the editor: edit predictions from OpenAI-compatible servers, the evaluation
CLI, skill files and the migration of agent ids in settings.

- `src/` is the library. Each function states in its contract what it returns, and Verus
  proves it. Functions whose doc comment begins with "Calls" hand a value to `serde_json`,
  `diffy`, `chrono` or std; their contracts are believed.
- `app/` runs processes, channels, files and requests around it, and is not verified.
- `tests/` runs the library.

A turn of the bridge goes like this. A line of the app-server is read by `rpc`. A
notification goes to `bridge`, which keeps the state and says what to show; `updates`,
`items`, `changes` and `history` say what a notification or a finished item looks like. A
request goes to `server_requests`, which says what to ask (`approvals`, `user_input`,
`elicitation`) and what to reply. A prompt goes to `prompt`, which starts a turn or a
command of `slash`; `turns` knows who waits for which turn.
