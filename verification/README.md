# A2Web

A2Web shows web applications in native windows and connects them to an agent. Web apps register
intents: typed units of data such as notes. Only types and ids are announced to the agent; content
is read, written and transferred through dedicated operations.

`src/` is the verified library:

- `intent`: the intent schemes, and the validation of types, ids and content
- `doc`: the shared document and its model
- `registry`: what is read from and written to the document
- `message`: what web apps post, read from JSON
- `script`: the pages and scripts that web views run
- `host`: the window host, one method for each event, with `World` as its model
- `bridge`: the agent's requests, and what the agent is told
- `system`: addresses, process listings, program paths and connection retries
- `json`: what `serde_json` is trusted to do
- `laws`: what holds of the whole, whatever the order of events
- `list`, `text`: helpers

`app/` holds the two programs around it: the harness that the agent talks to, and the window host
(under the program name `web-host`, with `webmcp.js` beside it).

Intent ids are limited to 256 characters, whatever their length in bytes.
