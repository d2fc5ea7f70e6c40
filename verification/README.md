# epicbox

Sessions of an Epic wallet with an Epicbox relay, as a verified library.

The library decides; it does not wait, sign or send. A task (a subscriber's loop,
a delivered Slate, a post, a cancellation, a one-shot or a listening session) is
a value that takes one step at a time. A step receives the reply to the last
effect and returns the effects to perform next and, in the end, the outcome.
Each step is proved to equal a transition function, and `src/laws/` states what
holds of whole runs of these transitions.

| Module | What it holds |
| --- | --- |
| `protocol` | requests and responses of the relay and their one-line texts |
| `effect` | effects, replies and steps |
| `broker` | the state of one connection, PostSlate and CancelTx |
| `controller` | the handling of delivered Slates, acknowledgements and cancellations |
| `subscribe` | the subscriber's loop |
| `listener` | publishers, subscribers, listeners and their container |
| `channel` | sessions that send, cancel or listen |
| `wallet`, `error`, `text` | plain data, errors, decimal numerals |
| `outside` | what is taken on trust from other crates |
| `laws` | what holds of whole runs, of one side or of both sides of a connection |

`app/` runs the sessions: websocket, threads, clock and JSON. A wallet is plugged
in through its `Wallet` trait.
