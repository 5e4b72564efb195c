# pusher_rs

A client library for Pusher Channels whose logic is verified with Verus.

`src/` is the verified library:

- `config`: configuration defaults, the builder, and configuration from
  environment values;
- `auth`: authorisation strings for private, presence and encrypted
  channels, and signed REST query parameters;
- `encryption`: AES-256-CBC payloads of encrypted channels;
- `json`: the JSON messages and request bodies, written as serde_json writes them;
- `channels`, `text_map`: channels, presence members and the channel list;
- `events`: events and protocol events;
- `client`: the client's state (subscriptions, keys, socket id, handlers)
  and the requests it prepares;
- `websocket`: the decisions of a websocket session, and reconnection with
  exponential backoff;
- `crypto`: the cryptographic crates the library calls, behind contracts;
- `laws`: properties that span several operations.

`app/` holds the asynchronous client (`AsyncPusherClient`), the websocket
and HTTP transports, reading the environment, and the serde forms of the
event types. `tests/` exercises the library.
