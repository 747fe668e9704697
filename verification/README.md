# buddy2api

A local OpenAI-compatible proxy over a pool of WorkBuddy accounts, and the
management interface around it.

`src/` holds the decisions that the program takes, written in Verus and proved:

- `text`, `json`, `codec`: strings, JSON values and their exchange with `serde_json`
- `variant`, `model`: the two sites, and the model ids that bind a request to one
- `upstream`: addresses and headers of the requests to the official interfaces
- `account`: which stored account is active, and which one serves a site
- `proxy_config`: whether the proxy is on, as stored and as read back
- `models`, `offers`: the list of models of both sites, and what holds of it
- `chat`, `chat_laws`: the course of a chat request, and what holds of every course
- `reply`, `pages`: answers of the two interfaces
- `query`, `requests`: what the queries and bodies of requests ask for
- `switching`, `running`, `listener`: the switch of accounts, the looks at running
  clients, and the listener of the desktop application
- `assets`, `routes`: files of the web interface, and the addresses of the endpoints

The functions that start with `law_` state what holds across several functions.
What is believed of `serde_json` without proof stands in `json` and `codec`, on the
functions marked `external_body`.

`app/` is ordinary Rust around the library: the HTTP routers, the requests to the
official sites, the files, and the trait that the rest of the program implements.
`tests/` runs the library on concrete values.
