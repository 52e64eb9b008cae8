# ciris_lens_core

Lens-core seals an agent's reasoning traces, scores them and hands the results to
a host. It holds no keys and opens no connections: the host's engine signs and
persists, and lens-core decides what is signed and what follows.

`src/` is the library, verified with Verus. What it takes on trust are the calls
into other crates and `std`, each behind a small function whose doc comment says
what is claimed of the call:

- `base64url::encode`, `base64url::decode`: the URL-safe engine of `base64`.
- `capture::seal::ed25519_verify`: `ed25519-dalek`.
- `codec::{open_value, close_value, parse_value, parse_raw, render_value}`, the
  declared types `Number` and `Value`, and the copy of a `Number`: `serde_json`.
- `ffi::batch::random_uuid`: `uuid`.
- `text::debug`: `Debug` of `str`.

| Module | What it holds |
|---|---|
| `json`, `codec` | JSON documents, and the way to and from `serde_json` |
| `text`, `base64url` | Text building; URL-safe base64 without padding |
| `capture` | Traces; the canonical envelope and its signature; the client's steps; the laws of sealing |
| `scoring`, `detector` | Scores that never make up a number; the detectors and their wire labels |
| `pipeline` | The way of one trace from its body to a signed detection |
| `wire` | Ed25519 and hybrid signatures over a batch |
| `role` | How a relay starts and ends |
| `config` | What may be forwarded to whom |
| `ffi` | What a host in another language gets of each call |

`app/` runs it: the async drivers, the serialised configuration and the Python
module. The substrate that lens-core is deployed with is linked there through
traits.

`tests/` runs the library from outside, with the real `base64`, `ed25519-dalek`,
`serde_json` and `uuid`.
