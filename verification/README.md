# codex_shim

A shim between Jan and the Codex app server. Jan talks to it as to an
OpenAI-compatible service (`/v1/models`, `/v1/chat/completions`); the shim talks
to the app server in JSON messages, one to a line.

The library under `src/` is written in Verus: what it does is stated in contracts
and proved.

| module | what it holds |
| --- | --- |
| `text`, `json`, `value` | strings and JSON documents; `value` reads and prints them with `serde_json` |
| `messages`, `rpc` | the messages of the app server, requests and their waiters |
| `events`, `turn` | what events mean, and the answer that a turn gives, whole or streamed |
| `tools` | who runs tools, and how the app server's questions are answered |
| `config`, `state` | the settings, and what is remembered between requests |
| `http`, `chat`, `ids` | routes and replies, a chat from its request to its turn, times and ids |
| `log_level`, `desktop`, `telemetry` | decisions of the desktop application around the shim |

Properties that tie several functions together are the public `lemma_*` functions:
a conversation goes on in its thread (`chat`), a stream carries what a gathered
answer holds (`turn`), a reply reaches its waiter once (`rpc`), requests to run tools
are accepted in Codex's mode only, and in Jan's a question that offers no way to
decline is not answered with an acceptance (`tools`), and more.

`app/` is ordinary Rust around the library: processes, sockets, exporters and the
life of the application.
