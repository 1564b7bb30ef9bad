# switchelo

A lightweight dynamic service registry and reverse proxy, verified with Verus.
Backend services register themselves at startup, and incoming requests are
routed to them by the URL path `/{name}/{id}/...`. A backend that cannot be
reached in three consecutive requests is removed.

## Layout

- `src/` is the verified library.
  - `daemon.rs`: the registry. A `Daemon` is modelled by a `Registry`, and each
    operation refines a transition of it.
  - `inputs/http.rs`: the rules of the HTTP interface: who may register, what a
    listing holds, and the course of a forwarded request.
  - `inputs/cli.rs`: the command line: what an invocation asks for, what the
    client sends, what it makes of the answer, and how it waits for a daemon.
  - `inputs/wire.rs`: the requests and responses that the two exchange.
  - `text.rs`: the string operations that they share.
  - `json.rs`: the calls into `serde_json`, whose contracts are trusted.
  - `laws.rs`: what holds of the library as a whole.
- `app/` is the program around the library: sockets, processes, the environment.
- `tests/` runs the library on concrete values.

## Usage

- `switchelo [--bind <ADDR>]` runs the daemon.
- `switchelo register <NAME> <URL> [DESCRIPTION]` registers a service, and starts
  the daemon if needed.
- `switchelo unregister <ID>` deregisters a service.

The server answers `POST /registry`, `POST /unregistry` and `GET /list`, and
forwards everything below `/{name}/{id}` to the backend `id`. Only processes on
the same machine can register and deregister. The registry is in memory only.
